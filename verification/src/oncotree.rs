//! The classification-tree API source: its identity, the reader that takes
//! the latest version out of the versions endpoint's JSON response, and its
//! URL scheme. The JSON document itself is interpreted by `serde_json`
//! behind trusted wrappers; what they hand back is named by an abstract
//! document model, and the logic over that model is verified.

use vstd::prelude::*;

use crate::errors::FetchError;
use crate::versioning::DataVersion;

verus! {

/// The source publishing a disease-classification tree over a JSON API.
pub struct OncoTreeData {}

/// Declares serde_json::Value, the parsed JSON document the wrappers below
/// hand around; it is opaque here, and `json_view` names what it holds.
#[verifier::external_type_specification]
#[verifier::external_body]
pub struct ExJsonValue(serde_json::Value);

/// Declares serde_json::Error, the JSON library's parse error; it is
/// mapped to this library's own error right after the parsing call.
#[verifier::external_type_specification]
#[verifier::external_body]
pub struct ExJsonError(serde_json::Error);

/// An abstract JSON document, as far as this library reads one: arrays,
/// objects and strings are distinguished; every other kind of value is one
/// opaque case.
pub enum JsonDoc {
    Arr(Seq<JsonDoc>),
    Obj(Map<Seq<char>, JsonDoc>),
    Str(Seq<char>),
    Other,
}

/// The document a text parses to, if it is valid JSON: the result of
/// serde_json's parser on that text, named; it depends on the text alone.
pub uninterp spec fn json_doc_of(s: Seq<char>) -> Option<JsonDoc>;

/// The abstract document a parsed serde_json value holds.
pub uninterp spec fn json_view(v: serde_json::Value) -> JsonDoc;

/// Relies on serde_json::from_str: parses one JSON document, succeeding
/// exactly on valid JSON and returning the value whose content is the
/// text's document.
#[verifier::external_body]
fn json_from_str(s: &str) -> (r: Result<serde_json::Value, serde_json::Error>)
    ensures
        (r is Ok) == (json_doc_of(s@) is Some),
        r matches Ok(v) ==> Some(json_view(v)) == json_doc_of(s@),
{
    serde_json::from_str(s)
}

/// Relies on serde_json::Value::as_array: the elements exactly when the
/// value is a JSON array, element by element.
#[verifier::external_body]
fn json_as_array(v: &serde_json::Value) -> (r: Option<&Vec<serde_json::Value>>)
    ensures
        (r is Some) == (json_view(*v) is Arr),
        r matches Some(a) ==> json_view(*v) == JsonDoc::Arr(
            a@.map_values(|e: serde_json::Value| json_view(e)),
        ),
{
    v.as_array()
}

/// Relies on serde_json::Value::get with a string key: the member of that
/// name exactly when the value is a JSON object carrying one.
#[verifier::external_body]
fn json_member<'a>(v: &'a serde_json::Value, key: &str) -> (r: Option<&'a serde_json::Value>)
    ensures
        (r is Some) == (json_view(*v) matches JsonDoc::Obj(m) && m.dom().contains(key@)),
        r matches Some(e) ==> (json_view(*v) matches JsonDoc::Obj(m) && m.dom().contains(key@)
            && json_view(*e) == m[key@]),
{
    v.get(key)
}

/// Relies on serde_json::Value::as_str: the content exactly when the value
/// is a JSON string.
#[verifier::external_body]
fn json_as_string(v: &serde_json::Value) -> (r: Option<String>)
    ensures
        (r is Some) == (json_view(*v) is Str),
        r matches Some(s) ==> json_view(*v) == JsonDoc::Str(s@),
{
    match v.as_str() {
        Some(s) => Some(s.to_owned()),
        None => None,
    }
}

/// The release date a versions document reports: the string member
/// `release_date` of the first element of the array, where the document
/// has that shape.
pub open spec fn first_release_date(doc: JsonDoc) -> Option<Seq<char>> {
    match doc {
        JsonDoc::Arr(items) => {
            if items.len() == 0 {
                None
            } else {
                match items[0] {
                    JsonDoc::Obj(m) => {
                        if m.dom().contains("release_date"@) {
                            match m["release_date"@] {
                                JsonDoc::Str(s) => Some(s),
                                _ => None,
                            }
                        } else {
                            None
                        }
                    },
                    _ => None,
                }
            }
        },
        _ => None,
    }
}

/// How a versions response resolves: a text that is no valid JSON is
/// `UnexpectedResponse`; an empty array — the source answers but lists
/// nothing — is `NotFound`; any other document without a first-element
/// string member `release_date` is `UnexpectedResponse`; and a document
/// carrying one succeeds with exactly that string.
pub open spec fn versions_response_spec(body: Seq<char>, r: Result<String, FetchError>) -> bool {
    match json_doc_of(body) {
        None => r == Err::<String, FetchError>(FetchError::UnexpectedResponse),
        Some(doc) => match first_release_date(doc) {
            Some(s) => r matches Ok(v) && v@ == s,
            None => if doc matches JsonDoc::Arr(items) && items.len() == 0 {
                r == Err::<String, FetchError>(FetchError::NotFound)
            } else {
                r == Err::<String, FetchError>(FetchError::UnexpectedResponse)
            },
        },
    }
}

impl OncoTreeData {
    pub fn src_name(&self) -> (r: &'static str)
        ensures
            r@ == "oncotree"@,
    {
        "oncotree"
    }

    pub fn file_type(&self) -> (r: &'static str)
        ensures
            r@ == "json"@,
    {
        "json"
    }

    pub fn get_versioner(&self) -> (r: DataVersion)
        ensures
            r == DataVersion::Wildcard,
    {
        DataVersion::Wildcard
    }

    /// The URL of the endpoint listing the published versions.
    pub fn versions_url(&self) -> (r: &'static str)
        ensures
            r@ == "http://oncotree.info/api/versions"@,
    {
        "http://oncotree.info/api/versions"
    }

    /// The download URL for one version of the classification tree.
    pub fn download_url(&self, version: &str) -> (r: String)
        ensures
            r@ == "http://oncotree.info/api/tumorTypes/tree?version="@ + version@,
    {
        let mut s = "http://oncotree.info/api/tumorTypes/tree?version=".to_owned();
        s.append(version);
        s
    }

    /// Reads the latest version out of the versions endpoint's response:
    /// the `release_date` member of the first element of the JSON array,
    /// exactly as `versions_response_spec` states it.
    pub fn parse_latest_version(&self, body: &str) -> (r: Result<String, FetchError>)
        ensures
            versions_response_spec(body@, r),
    {
        let document = match json_from_str(body) {
            Ok(v) => v,
            Err(_) => {
                return Err(FetchError::UnexpectedResponse);
            },
        };
        let ghost doc = json_view(document);
        let releases = match json_as_array(&document) {
            Some(a) => a,
            None => {
                return Err(FetchError::UnexpectedResponse);
            },
        };
        let ghost items = releases@.map_values(|e: serde_json::Value| json_view(e));
        if releases.len() == 0 {
            return Err(FetchError::NotFound);
        }
        proof {
            assert(items[0] == json_view(releases@[0]));
        }
        let date = match json_member(&releases[0], "release_date") {
            Some(v) => v,
            None => {
                return Err(FetchError::UnexpectedResponse);
            },
        };
        match json_as_string(date) {
            Some(s) => Ok(s),
            None => Err(FetchError::UnexpectedResponse),
        }
    }
}

} // verus!
