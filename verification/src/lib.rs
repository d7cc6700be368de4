use vstd::prelude::*;

pub mod frame;
pub mod lang;
pub mod pixel_format;

verus! {

} // verus!
