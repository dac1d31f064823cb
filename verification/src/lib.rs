use vstd::prelude::*;

pub mod control;
pub mod layout;
pub mod pd;
pub mod profiles;
pub mod sensor;
pub mod sink;
pub mod text;
pub mod ui;

verus! {
} // verus!
