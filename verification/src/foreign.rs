//! Types of other crates that the messages carry through unchanged. Verus sees
//! nothing inside a value of either; nothing here is claimed of them.
use vstd::prelude::*;

verus! {

/// Declares `anyhow::Error`, the error the search service reports, as an opaque type.
#[verifier::external_type_specification]
#[verifier::external_body]
pub struct ExAnyhowError(anyhow::Error);

/// Declares `std::path::PathBuf`, the folder a search runs on, as an opaque type.
#[verifier::external_type_specification]
#[verifier::external_body]
pub struct ExPathBuf(std::path::PathBuf);

} // verus!
