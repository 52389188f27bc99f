//! Making an instance of a packed scene.

use vstd::prelude::*;
use vstd::string::StringExecFns;

verus! {

/// Why a packed scene gave no instance of the wanted type.
#[derive(Clone, Copy, Debug, PartialEq, Eq, Structural)]
pub enum InstanceSceneErr {
    /// The scene gave no instance.
    FailedToInstance,
    /// The instance is not of the wanted type.
    IncorrectType,
}

/// The name of an error.
pub open spec fn instance_scene_err_name(error: InstanceSceneErr) -> Seq<char> {
    match error {
        InstanceSceneErr::FailedToInstance => "FailedToInstance"@,
        InstanceSceneErr::IncorrectType => "IncorrectType"@,
    }
}

/// What two steps come to: making the instance, then the cast to the wanted type.
pub fn instance_outcome(instanced: bool, cast_ok: bool) -> (r: Option<InstanceSceneErr>)
    ensures
        r == if !instanced {
            Some(InstanceSceneErr::FailedToInstance)
        } else if !cast_ok {
            Some(InstanceSceneErr::IncorrectType)
        } else {
            None
        },
{
    if !instanced {
        Some(InstanceSceneErr::FailedToInstance)
    } else if !cast_ok {
        Some(InstanceSceneErr::IncorrectType)
    } else {
        None
    }
}

impl InstanceSceneErr {
    /// The name of this error, as a report shows it.
    pub fn name(&self) -> (r: String)
        ensures
            r@ == instance_scene_err_name(*self),
    {
        match self {
            InstanceSceneErr::FailedToInstance => String::from_str("FailedToInstance"),
            InstanceSceneErr::IncorrectType => String::from_str("IncorrectType"),
        }
    }
}

} // verus!
