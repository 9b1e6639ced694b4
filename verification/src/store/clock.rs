//! `SystemClock`: the wall clock (the host reads it).

use vstd::prelude::*;

verus! {

#[derive(Debug, Default, Clone, Copy)]
pub struct SystemClock;

impl SystemClock {
    pub fn new() -> (r: Self) {
        SystemClock
    }
}

} // verus!
