//! Parts of the Stage Info template and of stage pages.

pub mod internal;
pub mod variables;
