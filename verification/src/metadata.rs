//! Exemptions that a project declares for some of its checks.

use vstd::prelude::*;

verus! {

/// An exemption declared for a check, with the reason given for it.
#[derive(Debug, Clone, PartialEq, Eq)]
pub struct Exemption {
    pub check: String,
    pub reason: String,
}

} // verus!
