//! Multi-call dispatch.
//!
//! The one executable is reachable under many names (its own, and one
//! symlink per toolchain alias).  The name it was invoked as — its file
//! name, not an argument — decides, once per invocation, whether this is
//! the management command line or a proxied toolchain binary; any other
//! name is a fatal unknown command.  There is no fallback between modes.

use vstd::prelude::*;

use crate::links::bins;
use crate::links::is_alias;
use crate::links::spec_bins;
use crate::text::str_eq;

verus! {

/// How one invocation of the executable is routed.
pub enum Mode {
    /// Invoked under the tool's own name: the management command line.
    Manage,
    /// Invoked under an alias name: proxy to that binary of the active
    /// installation.
    Proxy(String),
    /// Invoked under an unknown name: fatal.
    NoSuchCommand,
}

/// Routes an invocation by the file name the executable was invoked as.
pub fn dispatch(invoked_name: &str) -> (m: Mode)
    ensures
        invoked_name@ == "erlup"@ ==> m is Manage,
        invoked_name@ != "erlup"@ && is_alias(invoked_name@) ==> (m matches Mode::Proxy(b) && b@
            == invoked_name@),
        invoked_name@ != "erlup"@ && !is_alias(invoked_name@) ==> m is NoSuchCommand,
{
    if str_eq(invoked_name, "erlup") {
        return Mode::Manage;
    }
    let bs = bins();
    let mut i: usize = 0;
    while i < bs.len()
        invariant
            i <= bs@.len(),
            bs.deep_view() == spec_bins(),
            invoked_name@ != "erlup"@,
            forall|j: int| 0 <= j < i ==> spec_bins()[j] != invoked_name@,
        decreases bs@.len() - i,
    {
        if str_eq(bs[i], invoked_name) {
            proof {
                assert(spec_bins()[i as int] == bs@[i as int]@);
            }
            return Mode::Proxy(bs[i].to_owned());
        }
        proof {
            assert(spec_bins()[i as int] == bs@[i as int]@);
        }
        i = i + 1;
    }
    proof {
        assert(!spec_bins().contains(invoked_name@));
    }
    Mode::NoSuchCommand
}

} // verus!
