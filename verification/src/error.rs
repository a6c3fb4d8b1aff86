//! The error type of `anyhow`, which the data sources hand to the checks.

use vstd::prelude::*;

verus! {

/// `anyhow::Error`, carried through the checks without looking inside.
#[verifier::external_type_specification]
#[verifier::external_body]
pub struct ExAnyhowError(anyhow::Error);

/// Renders an `anyhow::Error` with its alternate `Display` (`{:#}`): the
/// error's message followed by ": " and the message of each cause in its
/// chain. No clause states the text: each cause writes it through its own
/// `Display`, which may depend on the platform and the locale (as an OS
/// error's message does).
#[verifier::external_body]
pub(crate) fn error_chain_text(err: &anyhow::Error) -> String
{
    format!("{err:#}")
}

} // verus!
