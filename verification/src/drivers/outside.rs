//! The types of `rusqlite` that pass through the sqlite driver.

use vstd::prelude::*;
use rusqlite::Error as Failure;

verus! {

#[verifier::external_type_specification]
#[verifier::external_body]
pub struct ExConnection(rusqlite::Connection);

#[verifier::external_type_specification]
#[verifier::external_body]
pub struct ExFailure(Failure);

} // verus!
