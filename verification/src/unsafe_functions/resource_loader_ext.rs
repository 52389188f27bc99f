//! Loading a scene from a resource path.

use vstd::prelude::*;
use vstd::string::StringExecFns;

verus! {

/// Why a path gave no scene.
#[derive(Clone, Copy, Debug, PartialEq, Eq, Structural)]
pub enum LoadSceneErr {
    /// Nothing is at the path.
    NoSuchScene,
    /// What is at the path is no packed scene.
    NotAScene,
}

/// The name of an error.
pub open spec fn load_scene_err_name(error: LoadSceneErr) -> Seq<char> {
    match error {
        LoadSceneErr::NoSuchScene => "NoSuchScene"@,
        LoadSceneErr::NotAScene => "NotAScene"@,
    }
}

/// What two steps come to: loading the resource, then the cast to a packed scene.
pub fn load_outcome(loaded: bool, cast_ok: bool) -> (r: Option<LoadSceneErr>)
    ensures
        r == if !loaded {
            Some(LoadSceneErr::NoSuchScene)
        } else if !cast_ok {
            Some(LoadSceneErr::NotAScene)
        } else {
            None
        },
{
    if !loaded {
        Some(LoadSceneErr::NoSuchScene)
    } else if !cast_ok {
        Some(LoadSceneErr::NotAScene)
    } else {
        None
    }
}

impl LoadSceneErr {
    /// The name of this error, as a report shows it.
    pub fn name(&self) -> (r: String)
        ensures
            r@ == load_scene_err_name(*self),
    {
        match self {
            LoadSceneErr::NoSuchScene => String::from_str("NoSuchScene"),
            LoadSceneErr::NotAScene => String::from_str("NotAScene"),
        }
    }
}

} // verus!
