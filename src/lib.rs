//! Turns a few timestamped weather observations and active alerts into one
//! spoken forecast: which upcoming hours are worth mentioning, how a time, a
//! day and a temperature are said, and how the sentences are put together.
use vstd::prelude::*;

pub mod alexa;
pub mod clock;
pub mod provider;
pub mod text;
pub mod weather;
pub mod zone;

verus! {

} // verus!
