//! What the library takes from near-sdk: account id syntax, JSON decoding of a
//! recipient list, and the JSON wrapper of a 128-bit amount.

use vstd::prelude::*;

verus! {

#[verifier::external_type_specification]
#[verifier::external_body]
pub struct ExU128(near_sdk::json_types::U128);

/// Whether near-sdk accepts `id` as an account id.
pub uninterp spec fn valid_account_id(id: Seq<char>) -> bool;

/// The recipient list that a registry response decodes to, if it decodes.
pub uninterp spec fn decoded_account_list(bytes: Seq<u8>) -> Option<Seq<Seq<char>>>;

/// The names in a decoded list, if there is one.
pub open spec fn decoded_names(r: Option<Vec<String>>) -> Option<Seq<Seq<char>>> {
    match r {
        Some(v) => Some(crate::plan::names(v@)),
        None => None,
    }
}

/// Relies on near_sdk::env::is_valid_account_id, which checks the bytes of
/// `id` against the account id syntax; it refuses fewer than 2 or more than
/// 64 bytes outright, and any byte outside `a-z`, `0-9`, `-`, `_`, `.`.
#[verifier::external_body]
pub(crate) fn is_valid_account_id(id: &str) -> (r: bool)
    ensures
        r == valid_account_id(id@),
        id@.len() < 2 ==> !r,
        id@.len() > 64 ==> !r,
{
    near_sdk::env::is_valid_account_id(id.as_bytes())
}

/// Relies on near_sdk::serde_json::from_slice, decoding a JSON array of
/// account ids; the outcome depends on the bytes alone.
#[verifier::external_body]
pub(crate) fn decode_account_list(bytes: &Vec<u8>) -> (r: Option<Vec<String>>)
    ensures
        decoded_names(r) == decoded_account_list(bytes@),
{
    near_sdk::serde_json::from_slice::<Vec<near_sdk::AccountId>>(bytes).ok()
}

} // verus!
