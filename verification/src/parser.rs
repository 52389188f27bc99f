//! The grammar of class declarations, over token streams.

pub mod cursor;
pub mod gdscript_class;
pub mod gdscript_items;
pub mod gdscript_signal;
pub mod gdscript_var;
pub mod lists;
