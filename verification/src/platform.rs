//! The platforms Starail runs on.
use vstd::prelude::*;
use crate::text::{concat3, text_eq};

verus! {

/// `Ok` on Linux (the operating system as `std::env::consts::OS` names it),
/// else the error that Linux is required.
pub fn require_linux(os: &str) -> (r: Result<(), String>)
    ensures
        os@ == "linux"@ ==> r is Ok,
        os@ != "linux"@ ==> (r matches Err(e) && e@ == "Linux is required for this first version. Detected: "@
            + os@ + "."@),
{
    if text_eq(os, "linux") {
        Ok(())
    } else {
        Err(concat3("Linux is required for this first version. Detected: ", os, "."))
    }
}

} // verus!
