//! The one request that a run sends: a fixed query to the vendor's metrics
//! endpoint, with the two keys in header fields of their own.

use vstd::prelude::*;
use vstd::string::*;
use vstd::utf8::*;

use crate::credentials::{is_valid_key, Credentials, CredentialsModel};

verus! {

/// Why no list of metrics came back.
#[derive(Clone, Copy, Debug, PartialEq, Eq, Structural)]
pub enum FetchError {
    /// The request could not be made or sent, or no readable body came back.
    Transport,
    /// The body is not the JSON document that was expected.
    Decode,
}

/// The address of the metrics catalog.
pub const METRICS_ENDPOINT: &'static str = "https://api.datadoghq.com/api/v2/metrics";

/// The query: metrics with the fixed source tag that were queried in the last
/// fourteen days, given in seconds.
pub const METRICS_QUERY: &'static str =
    "window[seconds]=1209600&filter[queried]=true&filter[tags]=source:ephemera-org-example-custom-metric";

/// The name of the header field that carries the API key.
pub const API_KEY_HEADER: &'static str = "DD-API-KEY";

/// The name of the header field that carries the application key.
pub const APP_KEY_HEADER: &'static str = "DD-APPLICATION-KEY";

/// The name of the header field that asks for a format.
pub const ACCEPT_HEADER: &'static str = "Accept";

/// The format that is asked for.
pub const ACCEPT_JSON: &'static str = "application/json";

/// A header field.
#[derive(Debug, PartialEq, Eq)]
pub struct Header {
    pub name: String,
    pub value: String,
}

/// What a [`Header`] holds, as mathematical strings.
pub struct HeaderModel {
    pub name: Seq<char>,
    pub value: Seq<char>,
}

impl View for Header {
    type V = HeaderModel;

    open spec fn view(&self) -> HeaderModel {
        HeaderModel { name: self.name@, value: self.value@ }
    }
}

/// A GET request: where it goes and the header fields that it carries.
#[derive(Debug, PartialEq, Eq)]
pub struct MetricsRequest {
    pub url: String,
    pub headers: Vec<Header>,
}

/// What a [`MetricsRequest`] holds, as mathematical values.
pub struct MetricsRequestModel {
    pub url: Seq<char>,
    pub headers: Seq<HeaderModel>,
}

impl View for MetricsRequest {
    type V = MetricsRequestModel;

    open spec fn view(&self) -> MetricsRequestModel {
        MetricsRequestModel {
            url: self.url@,
            headers: Seq::new(self.headers@.len(), |i: int| self.headers@[i]@),
        }
    }
}

/// Whether a header value may hold the byte `b`: a tab, or anything from the
/// space upwards but the delete character.
pub open spec fn is_header_byte(b: u8) -> bool {
    (b >= 32 && b != 127) || b == 9
}

/// Whether `bytes` can be the value of a header field.
pub open spec fn is_header_value(bytes: Seq<u8>) -> bool {
    forall|i: int| 0 <= i < bytes.len() ==> is_header_byte(#[trigger] bytes[i])
}

/// The request for the metrics catalog on behalf of `credentials`.
pub open spec fn request_for(credentials: CredentialsModel) -> MetricsRequestModel {
    MetricsRequestModel {
        url: METRICS_ENDPOINT@ + seq!['?'] + METRICS_QUERY@,
        headers: seq![
            HeaderModel { name: API_KEY_HEADER@, value: credentials.api_key },
            HeaderModel { name: APP_KEY_HEADER@, value: credentials.app_key },
            HeaderModel { name: ACCEPT_HEADER@, value: ACCEPT_JSON@ },
        ],
    }
}

/// Asks `reqwest` whether `value` can be the value of a header field. This is
/// `reqwest::header::HeaderValue::from_str`, which goes through the bytes of its
/// argument and refuses it at the first byte below the space other than the
/// tab, or equal to the delete character.
#[verifier::external_body]
fn header_value_parses(value: &str) -> (r: bool)
    ensures
        r == is_header_value(value.spec_bytes()),
{
    reqwest::header::HeaderValue::from_str(value).is_ok()
}

/// Builds the request for the metrics catalog. A key that cannot be the value of
/// a header field is a transport failure; the request is then not built. With
/// usable keys it always is.
pub fn build_request(credentials: &Credentials) -> (r: Result<MetricsRequest, FetchError>)
    ensures
        credentials@.is_valid() ==> r is Ok,
        match r {
            Ok(request) => {
                &&& is_header_value(encode_utf8(credentials@.api_key))
                &&& is_header_value(encode_utf8(credentials@.app_key))
                &&& request@ == request_for(credentials@)
            },
            Err(e) => {
                &&& e == FetchError::Transport
                &&& !(is_header_value(encode_utf8(credentials@.api_key)) && is_header_value(
                    encode_utf8(credentials@.app_key),
                ))
            },
        },
{
    proof {
        if credentials@.is_valid() {
            lemma_valid_key_is_header_value(credentials@.api_key);
            lemma_valid_key_is_header_value(credentials@.app_key);
        }
    }
    if !header_value_parses(credentials.api_key.as_str()) {
        return Err(FetchError::Transport);
    }
    if !header_value_parses(credentials.app_key.as_str()) {
        return Err(FetchError::Transport);
    }
    proof {
        reveal_strlit("?");
    }
    let mut url = String::from_str(METRICS_ENDPOINT);
    url.append("?");
    url.append(METRICS_QUERY);
    let mut headers: Vec<Header> = Vec::new();
    headers.push(
        Header { name: String::from_str(API_KEY_HEADER), value: credentials.api_key.clone() },
    );
    headers.push(
        Header { name: String::from_str(APP_KEY_HEADER), value: credentials.app_key.clone() },
    );
    headers.push(
        Header { name: String::from_str(ACCEPT_HEADER), value: String::from_str(ACCEPT_JSON) },
    );
    let request = MetricsRequest { url, headers };
    assert(request@.url =~= request_for(credentials@).url);
    assert(request@.headers =~= request_for(credentials@).headers);
    Ok(request)
}

/// A usable key can be the value of a header field.
pub proof fn lemma_valid_key_is_header_value(key: Seq<char>)
    requires
        is_valid_key(key),
    ensures
        is_header_value(encode_utf8(key)),
{
    assert(is_ascii_chars(key));
    is_ascii_chars_encode_utf8(key);
    let bytes = encode_utf8(key);
    assert forall|i: int| 0 <= i < bytes.len() implies is_header_byte(#[trigger] bytes[i]) by {
        assert(bytes[i] == key[i] as u8);
    }
}

} // verus!
