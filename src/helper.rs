//! Context of the domain-specific host helpers offered to guests.
use vstd::prelude::*;

verus! {

/// State of the host helpers; they keep none.
#[derive(Debug, Default)]
pub struct KafuHelperCtx {}

impl KafuHelperCtx {
    pub fn new() -> (r: Self) {
        KafuHelperCtx {  }
    }
}

} // verus!
