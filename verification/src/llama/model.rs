//! Where the native llama.cpp libraries are looked for.

use vstd::prelude::*;
use crate::text::str_eq;

verus! {

/// The library directory for a target architecture.
pub open spec fn lib_dir_spec(arch: Seq<char>) -> Seq<char> {
    if arch == "x86_64"@ {
        "lib/x86_64"@
    } else if arch == "aarch64"@ {
        "lib/aarch64"@
    } else {
        "lib/x86_64"@
    }
}

/// The directory of the native libraries for the target architecture:
/// `lib/aarch64` on aarch64, `lib/x86_64` otherwise.
pub fn lib_dir_for_arch(arch: &str) -> (d: &'static str)
    ensures
        d@ == lib_dir_spec(arch@),
{
    if str_eq(arch, "x86_64") {
        "lib/x86_64"
    } else if str_eq(arch, "aarch64") {
        "lib/aarch64"
    } else {
        "lib/x86_64"
    }
}

} // verus!
