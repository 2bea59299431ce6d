//! The few questions that the codec asks of a JSON text.

use vstd::prelude::*;

verus! {

/// The error of `serde_json`, of which nothing is known here.
#[verifier::external_type_specification]
#[verifier::external_body]
pub struct ExJsonError(serde_json::Error);

/// The member `name` of the JSON text `json`, itself as JSON text in compact
/// form. The outer `None` stands for a text that cannot be read as JSON or a
/// member that cannot be written as JSON, the inner one for a value that is
/// no object or has no such member.
pub uninterp spec fn json_member(json: Seq<char>, name: Seq<char>) -> Option<Option<Seq<char>>>;

/// The number of items of the JSON text `json`; `None` where the text cannot
/// be read as JSON or is no array.
pub uninterp spec fn json_array_len(json: Seq<char>) -> Option<nat>;

/// `serde_json::Value::get` with a member's name, on the value that
/// `serde_json::from_str` reads from the text; the member found is handed
/// back as the text that `serde_json::to_string` writes for it. The contract
/// claims that the outcome depends on the two texts alone, and gives it the
/// name `json_member`.
#[verifier::external_body]
pub(crate) fn member(json: &str, name: &str) -> (found: Result<Option<String>, serde_json::Error>)
    ensures
        match found {
            Ok(Some(text)) => json_member(json@, name@) == Some(Some(text@)),
            Ok(None) => json_member(json@, name@) == Some(None::<Seq<char>>),
            Err(_) => json_member(json@, name@) is None,
        },
{
    let value: serde_json::Value = serde_json::from_str(json)?;
    match value.get(name) {
        Some(member) => Ok(Some(serde_json::to_string(member)?)),
        None => Ok(None),
    }
}

/// `serde_json::Value::as_array` on the value that `serde_json::from_str`
/// reads from the text, and the length of the array found. The contract
/// claims that the outcome depends on the text alone, and gives it the name
/// `json_array_len`.
#[verifier::external_body]
pub(crate) fn array_len(json: &str) -> (len: Option<usize>)
    ensures
        match len {
            Some(n) => json_array_len(json@) == Some(n as nat),
            None => json_array_len(json@) is None,
        },
{
    let value: serde_json::Value = serde_json::from_str(json).ok()?;
    value.as_array().map(|items| items.len())
}

/// The entries of a legacy ABI that is given as JSON text, written out again
/// as JSON text in compact form; `None` where the text is not a list of
/// legacy ABI entries.
pub uninterp spec fn legacy_abi_json(text: Seq<char>) -> Option<Seq<char>>;

/// `serde_json::from_str` at the type of a list of
/// `starknet_core::types::LegacyContractAbiEntry`, and `serde_json::to_string`
/// on the list that was read. The contract claims that the outcome depends
/// on the text alone, and gives it the name `legacy_abi_json`.
#[verifier::external_body]
pub(crate) fn legacy_abi(text: &str) -> (entries: Result<String, serde_json::Error>)
    ensures
        match entries {
            Ok(written) => legacy_abi_json(text@) == Some(written@),
            Err(_) => legacy_abi_json(text@) is None,
        },
{
    let entries: Vec<starknet_core::types::LegacyContractAbiEntry> = serde_json::from_str(text)?;
    serde_json::to_string(&entries)
}

} // verus!
