//! Types of the `config` crate that the loader holds or passes along.

use vstd::prelude::*;

verus! {


#[verifier::external_type_specification]
#[verifier::external_body]
pub struct ExConfigRsValue(::config::Value);

} // verus!
