//! The CPU hardware of the llama.cpp runner.

use vstd::prelude::*;
use crate::text::{int_decimal, push_i64};

verus! {

/// llama.cpp on the CPU.
pub struct CpuHardware;

impl CpuHardware {
    /// The CPU hardware.
    pub fn new() -> (h: Self) {
        CpuHardware
    }

    /// The name the CPU hardware reports.
    pub fn name(&self) -> (s: &'static str)
        ensures
            s@ == "llama-cpu"@,
    {
        "llama-cpu"
    }
}

impl Default for CpuHardware {
    fn default() -> (h: Self) {
        Self::new()
    }
}

/// The decimal notations of the token ids, one after another.
pub open spec fn ids_text(ids: Seq<i32>) -> Seq<char>
    decreases ids.len(),
{
    if ids.len() == 0 {
        Seq::empty()
    } else {
        ids_text(ids.drop_last()) + int_decimal(ids.last() as int)
    }
}

/// The CPU backend's text for tokens: each id written in decimal, with
/// nothing between them.
pub fn detokenize_ids(tokens: &[i32]) -> (s: String)
    ensures
        s@ == ids_text(tokens@),
{
    let mut s = String::new();
    let mut i: usize = 0;
    while i < tokens.len()
        invariant
            i <= tokens@.len(),
            s@ == ids_text(tokens@.subrange(0, i as int)),
        decreases tokens@.len() - i,
    {
        push_i64(&mut s, tokens[i] as i64);
        proof {
            let next = tokens@.subrange(0, i + 1);
            assert(next.drop_last() =~= tokens@.subrange(0, i as int));
        }
        i = i + 1;
    }
    assert(tokens@.subrange(0, tokens@.len() as int) =~= tokens@);
    s
}

} // verus!
