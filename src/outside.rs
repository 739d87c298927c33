//! The library's dependence on outside crates: declared types, the names of
//! what outside functions compute, and the calls themselves.
use vstd::prelude::*;

verus! {

#[verifier::external_type_specification]
#[verifier::external_body]
pub struct ExValue(serde_json::Value);

#[verifier::external_type_specification]
#[verifier::external_body]
pub struct ExJsonError(serde_json::Error);

#[verifier::external_type_specification]
#[verifier::external_body]
pub struct ExClient(reqwest::Client);

#[verifier::external_type_specification]
#[verifier::external_body]
pub struct ExClientBuilder(reqwest::ClientBuilder);

#[verifier::external_type_specification]
#[verifier::external_body]
pub struct ExProxy(reqwest::Proxy);

#[verifier::external_type_specification]
#[verifier::external_body]
pub struct ExHttpError(reqwest::Error);

/// Whether `serde_json` reads the text as one JSON document.
pub uninterp spec fn parses_as_json(text: Seq<char>) -> bool;

/// Whether `reqwest` accepts the text as a proxy URL.
pub uninterp spec fn accepted_proxy_url(url: Seq<char>) -> bool;

/// Relies on serde_json::from_str into a `Value`: it succeeds exactly on text
/// that serde_json reads as JSON, which depends on the text alone.
#[verifier::external_body]
pub(crate) fn parse_json(text: &str) -> (r: Result<serde_json::Value, serde_json::Error>)
    ensures
        r is Ok <==> parses_as_json(text@),
{
    serde_json::from_str::<serde_json::Value>(text)
}

/// The unsigned integer that serde_json finds under `key` in the JSON object
/// that `text` holds, if there is one.
pub uninterp spec fn json_u64_member(text: Seq<char>, key: Seq<char>) -> Option<u64>;

/// The boolean that serde_json finds under `key` in the JSON object that
/// `text` holds, if there is one.
pub uninterp spec fn json_bool_member(text: Seq<char>, key: Seq<char>) -> Option<bool>;

/// The string that serde_json finds under `key` in the JSON object that `text`
/// holds, if there is one.
pub uninterp spec fn json_str_member(text: Seq<char>, key: Seq<char>) -> Option<Seq<char>>;

/// Relies on serde_json::from_str into a `Value`, then `Value::get` and
/// `Value::as_u64`: the member `key` as an unsigned integer, which depends on
/// the text and the key alone.
#[verifier::external_body]
pub(crate) fn u64_member(text: &str, key: &str) -> (r: Option<u64>)
    ensures
        r == json_u64_member(text@, key@),
{
    serde_json::from_str::<serde_json::Value>(text).ok().and_then(|v| v.get(key).and_then(|m| m.as_u64()))
}

/// Relies on serde_json::from_str into a `Value`, then `Value::get` and
/// `Value::as_bool`: the member `key` as a boolean, which depends on the text
/// and the key alone.
#[verifier::external_body]
pub(crate) fn bool_member(text: &str, key: &str) -> (r: Option<bool>)
    ensures
        r == json_bool_member(text@, key@),
{
    serde_json::from_str::<serde_json::Value>(text).ok().and_then(|v| v.get(key).and_then(|m| m.as_bool()))
}

/// Relies on serde_json::from_str into a `Value`, then `Value::get` and
/// `Value::as_str`: the member `key` as a string, which depends on the text and
/// the key alone.
#[verifier::external_body]
pub(crate) fn str_member(text: &str, key: &str) -> (r: Option<String>)
    ensures
        r is Some <==> json_str_member(text@, key@) is Some,
        r matches Some(t) ==> json_str_member(text@, key@) == Some(t@),
{
    serde_json::from_str::<serde_json::Value>(text).ok().and_then(|v| v.get(key).and_then(|m| m.as_str().map(|t| t.to_string())))
}

/// Relies on reqwest::Proxy::all: a proxy for all traffic, built when the URL
/// parses; the parse depends on the text alone.
#[verifier::external_body]
pub(crate) fn proxy_for_all(url: &str) -> (r: Result<reqwest::Proxy, reqwest::Error>)
    ensures
        r is Ok <==> accepted_proxy_url(url@),
{
    reqwest::Proxy::all(url)
}

/// A client builder with reqwest's defaults.
pub assume_specification[ reqwest::Client::builder ]() -> reqwest::ClientBuilder;

/// Adds a proxy to the builder.
pub assume_specification[ reqwest::ClientBuilder::proxy ](
    b: reqwest::ClientBuilder,
    proxy: reqwest::Proxy,
) -> reqwest::ClientBuilder;

/// Builds the client; it fails when a TLS backend cannot be initialized or the
/// resolver cannot load the system configuration.
pub assume_specification[ reqwest::ClientBuilder::build ](
    b: reqwest::ClientBuilder,
) -> Result<reqwest::Client, reqwest::Error>;

} // verus!
