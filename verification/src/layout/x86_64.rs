use vstd::prelude::*;

verus! {

/// The guest memory layout of x86_64 machines; it places nothing yet.
#[derive(Clone)]
pub struct X86_64Layout {}

} // verus!
