//! Reading the registry's reply for one package.
//!
//! The request itself is the caller's business. What came back is handed in as
//! a `RegistryReply`; this module says where to ask and reads the list of
//! published versions out of the reply's JSON document.

use vstd::prelude::*;
use vstd::string::*;

verus! {

/// A JSON document of the `serde_json` crate, carried through as it is.
#[verifier::external_type_specification]
#[verifier::external_body]
pub struct ExValue(serde_json::Value);

/// The error of the `serde_json` crate.
#[verifier::external_type_specification]
#[verifier::external_body]
pub struct ExJsonError(serde_json::Error);

/// What `serde_json::from_slice` makes of a body: the document, or `None`
/// where the body is not JSON.
pub uninterp spec fn decoded_json(body: Seq<u8>) -> Option<serde_json::Value>;

/// What indexing a document with a key gives: the member under that key, or
/// the null document where `doc` is no object or has no such member.
pub uninterp spec fn json_member(doc: serde_json::Value, key: Seq<char>) -> serde_json::Value;

/// The elements of a document that is an array; `None` for any other.
pub uninterp spec fn json_array(doc: serde_json::Value) -> Option<Seq<serde_json::Value>>;

/// The text of a document that is a string; `None` for any other.
pub uninterp spec fn json_string(doc: serde_json::Value) -> Option<Seq<char>>;

/// Why the versions of a package could not be had.
#[derive(Debug, Clone, Copy, PartialEq, Eq, Structural)]
pub enum LookupError {
    /// The request did not get through.
    Transport,
    /// The body of the reply is not JSON.
    Decode,
    /// The document has no array under `versions`.
    MissingVersions,
}

/// What came back from the registry for one package.
#[derive(Debug, Clone)]
pub enum RegistryReply {
    /// The request failed before any status arrived.
    Unreachable,
    /// The registry answered with a status other than success.
    Refused,
    /// The registry answered with success and this body.
    Body(Vec<u8>),
}

/// The texts of a sequence of strings.
pub open spec fn texts(strings: Seq<String>) -> Seq<Seq<char>> {
    strings.map_values(|s: String| s@)
}

/// The version numbers that the entries of the `versions` array hold, in the
/// array's order. An entry without a string under `num` contributes nothing.
pub open spec fn listed_numbers(entries: Seq<serde_json::Value>) -> Seq<Seq<char>>
    decreases entries.len(),
{
    if entries.len() == 0 {
        Seq::empty()
    } else {
        let front = listed_numbers(entries.drop_last());
        match json_string(json_member(entries.last(), "num"@)) {
            Some(number) => front.push(number),
            None => front,
        }
    }
}

/// The published versions that a registry document lists.
pub open spec fn versions_of_document(doc: serde_json::Value) -> Result<
    Seq<Seq<char>>,
    LookupError,
> {
    match json_array(json_member(doc, "versions"@)) {
        Some(entries) => Ok(listed_numbers(entries)),
        None => Err(LookupError::MissingVersions),
    }
}

/// The published versions that a reply stands for. A refusal counts as a
/// package without versions, not as an error.
pub open spec fn versions_of_reply(reply: RegistryReply) -> Result<Seq<Seq<char>>, LookupError> {
    match reply {
        RegistryReply::Unreachable => Err(LookupError::Transport),
        RegistryReply::Refused => Ok(Seq::empty()),
        RegistryReply::Body(body) => match decoded_json(body@) {
            Some(doc) => versions_of_document(doc),
            None => Err(LookupError::Decode),
        },
    }
}

/// Calls `serde_json::from_slice` for a `serde_json::Value`. The contract
/// claims that the outcome depends on the bytes alone, and names it.
#[verifier::external_body]
pub(crate) fn decode_json(body: &[u8]) -> (decoded: Result<serde_json::Value, serde_json::Error>)
    ensures
        match decoded {
            Ok(doc) => decoded_json(body@) == Some(doc),
            Err(_) => decoded_json(body@) is None,
        },
{
    serde_json::from_slice::<serde_json::Value>(body)
}

/// Indexes a `serde_json::Value` with a string key, which never fails: a
/// missing member reads as null. The contract names the member.
#[verifier::external_body]
pub(crate) fn member<'a>(doc: &'a serde_json::Value, key: &str) -> (found: &'a serde_json::Value)
    ensures
        *found == json_member(*doc, key@),
{
    &doc[key]
}

/// Calls `serde_json::Value::as_array`. The contract names the elements.
#[verifier::external_body]
pub(crate) fn as_array(doc: &serde_json::Value) -> (entries: Option<&Vec<serde_json::Value>>)
    ensures
        match entries {
            Some(list) => json_array(*doc) == Some(list@),
            None => json_array(*doc) is None,
        },
{
    doc.as_array()
}

/// Calls `serde_json::Value::as_str`. The contract names the text.
#[verifier::external_body]
pub(crate) fn as_text(doc: &serde_json::Value) -> (text: Option<&str>)
    ensures
        match text {
            Some(s) => json_string(*doc) == Some(s@),
            None => json_string(*doc) is None,
        },
{
    doc.as_str()
}

/// The name under which requests are sent.
pub fn user_agent() -> (agent: &'static str)
    ensures
        agent@ == "cargo-deps-analyzer"@,
{
    "cargo-deps-analyzer"
}

/// Where the registry is asked about the package `name`. The name goes into
/// the path as it is.
pub fn crate_url(name: &str) -> (url: String)
    ensures
        url@ == "https://crates.io/api/v1/crates/"@ + name@,
{
    String::from_str("https://crates.io/api/v1/crates/").concat(name)
}

/// Reads the published versions out of a registry document: the `num` string
/// of each entry of the `versions` array, in the array's order. Entries
/// without such a string are passed over; a document without the array is an
/// error.
pub fn versions_in_document(doc: &serde_json::Value) -> (listed: Result<Vec<String>, LookupError>)
    ensures
        match listed {
            Ok(versions) => versions_of_document(*doc) == Ok::<Seq<Seq<char>>, LookupError>(
                texts(versions@),
            ),
            Err(e) => versions_of_document(*doc) == Err::<Seq<Seq<char>>, LookupError>(e),
        },
{
    let entries: &Vec<serde_json::Value> = match as_array(member(doc, "versions")) {
        Some(entries) => entries,
        None => {
            return Err(LookupError::MissingVersions);
        },
    };
    let mut versions: Vec<String> = Vec::new();
    let mut i: usize = 0;
    assert(texts(versions@) =~= Seq::<Seq<char>>::empty());
    while i < entries.len()
        invariant
            i <= entries@.len(),
            texts(versions@) == listed_numbers(entries@.subrange(0, i as int)),
        decreases entries@.len() - i,
    {
        let ghost before = versions@;
        let number = as_text(member(&entries[i], "num"));
        proof {
            let next = entries@.subrange(0, i + 1);
            assert(next.drop_last() =~= entries@.subrange(0, i as int));
            assert(next.last() == entries@[i as int]);
        }
        match number {
            Some(text) => {
                versions.push(String::from_str(text));
                assert(texts(versions@) =~= texts(before).push(text@));
            },
            None => {},
        }
        i = i + 1;
    }
    assert(entries@.subrange(0, i as int) =~= entries@);
    Ok(versions)
}

/// The published versions of a package, newest first as the registry lists
/// them, from the reply to the request for it. A refusal gives an empty list;
/// a request that failed, a body that is not JSON and a document without a
/// `versions` array are errors.
pub fn get_crate_versions(reply: &RegistryReply) -> (listed: Result<Vec<String>, LookupError>)
    ensures
        match listed {
            Ok(versions) => versions_of_reply(*reply) == Ok::<Seq<Seq<char>>, LookupError>(
                texts(versions@),
            ),
            Err(e) => versions_of_reply(*reply) == Err::<Seq<Seq<char>>, LookupError>(e),
        },
        *reply is Refused ==> (listed matches Ok(versions) && versions@.len() == 0),
        *reply is Unreachable ==> listed == Err::<Vec<String>, LookupError>(
            LookupError::Transport,
        ),
{
    match reply {
        RegistryReply::Unreachable => Err(LookupError::Transport),
        RegistryReply::Refused => {
            let none: Vec<String> = Vec::new();
            assert(texts(none@) =~= Seq::<Seq<char>>::empty());
            Ok(none)
        },
        RegistryReply::Body(body) => match decode_json(body.as_slice()) {
            Ok(doc) => versions_in_document(&doc),
            Err(_) => Err(LookupError::Decode),
        },
    }
}

} // verus!
