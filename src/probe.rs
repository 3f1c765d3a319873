//! What the two protocol probes conclude from a response body.
use vstd::prelude::*;
use vstd::string::StringSliceAdditionalSpecFns;
use crate::types::{GatewayDetection, GatewayType, Mac, MacParseError, parse_mac_bytes};

verus! {

/// Why a probe found no gateway in a response.
#[derive(Clone, Copy, Debug, PartialEq, Eq, Structural)]
pub enum ProbeError {
    /// The body is no JSON, the status code is not 200, or the address field
    /// is missing or not a string.
    ProtocolMismatch,
    /// The address field holds text that is no hardware address.
    MalformedHardwareAddress(MacParseError),
    /// The request failed or its answer could not be read.
    Request,
}

/// Path of the status query, sent as a `POST`.
pub const G1_PATH: &'static str = "/cgi-bin/cgic-statusget";

/// `Authorization` header of the status query: the fixed credential.
pub const G1_AUTHORIZATION: &'static str = "Basic YWRtaW46";

/// JSON body of the status query.
pub const G1_REQUEST_BODY: &'static str = "{\"header\":{\"version\":1}}";

/// Path of the plain `GET` probe.
pub const MG3_PATH: &'static str = "/hello";

/// Status code that the status query answers with on success.
pub const STATUS_OK: u64 = 200;

/// JSON pointer to the code in a status answer.
pub const G1_CODE_POINTER: &'static str = "/header/code";

/// JSON pointer to the hardware address in a status answer.
pub const G1_MAC_POINTER: &'static str = "/body/gateway/status/mac";

/// JSON pointer to the hardware address in a `/hello` answer.
pub const MG3_MAC_POINTER: &'static str = "/mac";

/// A probe result with the detection seen as plain values.
pub open spec fn probe_result_view(r: Result<GatewayDetection, ProbeError>) -> Result<
    (u32, GatewayType, Seq<u8>),
    ProbeError,
> {
    match r {
        Ok(d) => Ok((d.ip, d.gateway, d.mac.bytes@)),
        Err(e) => Err(e),
    }
}

/// The bytes of an optional text.
pub open spec fn text_bytes(t: Option<&str>) -> Option<Seq<u8>> {
    match t {
        Some(s) => Some(s.spec_bytes()),
        None => None,
    }
}

/// What a probe of kind `g` at `ip` concludes from the address field `text`.
pub open spec fn detection_from_text(ip: u32, g: GatewayType, text: Option<Seq<u8>>) -> Result<
    (u32, GatewayType, Seq<u8>),
    ProbeError,
> {
    match text {
        None => Err(ProbeError::ProtocolMismatch),
        Some(t) => match parse_mac_bytes(t) {
            Ok(b) => Ok((ip, g, b)),
            Err(e) => Err(ProbeError::MalformedHardwareAddress(e)),
        },
    }
}

/// Whether the bytes are one well-formed JSON value.
pub uninterp spec fn is_json(body: Seq<u8>) -> bool;

/// The unsigned integer (one that fits a `u64`) at a JSON pointer in the
/// document `body`; nothing when `body` is no JSON, nothing is there, or what
/// is there is no such number.
pub uninterp spec fn u64_at_pointer(body: Seq<u8>, pointer: Seq<char>) -> Option<u64>;

/// The string at a JSON pointer in the document `body`; nothing when `body`
/// is no JSON, nothing is there, or what is there is no string.
pub uninterp spec fn text_at_pointer(body: Seq<u8>, pointer: Seq<char>) -> Option<Seq<char>>;

/// The characters of an optional string.
pub open spec fn opt_string_view(t: Option<String>) -> Option<Seq<char>> {
    match t {
        Some(s) => Some(s@),
        None => None,
    }
}

/// The UTF-8 bytes of an optional text.
pub open spec fn opt_utf8(t: Option<Seq<char>>) -> Option<Seq<u8>> {
    match t {
        Some(c) => Some(vstd::utf8::encode_utf8(c)),
        None => None,
    }
}

/// Relies on serde_json::from_slice into a `Value`: whether it succeeds.
#[verifier::external_body]
fn json_is_valid(body: &[u8]) -> (r: bool)
    ensures
        r == is_json(body@),
{
    serde_json::from_slice::<serde_json::Value>(body).is_ok()
}

/// Relies on serde_json::from_slice into a `Value`, then Value::pointer and
/// Value::as_u64: the number at `pointer`, nothing on a parse error.
#[verifier::external_body]
fn json_u64_at(body: &[u8], pointer: &str) -> (r: Option<u64>)
    ensures
        r == u64_at_pointer(body@, pointer@),
{
    match serde_json::from_slice::<serde_json::Value>(body) {
        Ok(v) => match v.pointer(pointer) {
            Some(x) => x.as_u64(),
            None => None,
        },
        Err(_) => None,
    }
}

/// Relies on serde_json::from_slice into a `Value`, then Value::pointer and
/// Value::as_str: the string at `pointer`, nothing on a parse error.
#[verifier::external_body]
fn json_text_at(body: &[u8], pointer: &str) -> (r: Option<String>)
    ensures
        opt_string_view(r) == text_at_pointer(body@, pointer@),
{
    match serde_json::from_slice::<serde_json::Value>(body) {
        Ok(v) => match v.pointer(pointer) {
            Some(x) => x.as_str().map(String::from),
            None => None,
        },
        Err(_) => None,
    }
}

/// The borrowed text of an optional string.
fn as_text(t: &Option<String>) -> (r: Option<&str>)
    ensures
        text_bytes(r) == opt_utf8(opt_string_view(*t)),
{
    match t {
        Some(s) => Some(s.as_str()),
        None => None,
    }
}

/// Builds a detection of kind `g` at `ip` from the text of the address field.
pub fn detection_from(ip: u32, g: GatewayType, text: Option<&str>) -> (r: Result<
    GatewayDetection,
    ProbeError,
>)
    ensures
        probe_result_view(r) == detection_from_text(ip, g, text_bytes(text)),
{
    match text {
        None => Err(ProbeError::ProtocolMismatch),
        Some(t) => match Mac::from_str(t) {
            Ok(mac) => Ok(GatewayDetection { ip, gateway: g, mac }),
            Err(e) => Err(ProbeError::MalformedHardwareAddress(e)),
        },
    }
}

/// The status query's verdict, given the code and the address field found in
/// its answer: a detection only when the code is 200.
pub fn g1_decision(ip: u32, code: Option<u64>, mac: Option<&str>) -> (r: Result<
    GatewayDetection,
    ProbeError,
>)
    ensures
        code == Some(STATUS_OK) ==> probe_result_view(r) == detection_from_text(
            ip,
            GatewayType::G1,
            text_bytes(mac),
        ),
        code != Some(STATUS_OK) ==> r is Err && r->Err_0 == ProbeError::ProtocolMismatch,
{
    match code {
        Some(c) => {
            if c == STATUS_OK {
                detection_from(ip, GatewayType::G1, mac)
            } else {
                Err(ProbeError::ProtocolMismatch)
            }
        },
        None => Err(ProbeError::ProtocolMismatch),
    }
}

/// The `/hello` probe's verdict, given the address field found in its answer.
pub fn mg3_decision(ip: u32, mac: Option<&str>) -> (r: Result<GatewayDetection, ProbeError>)
    ensures
        probe_result_view(r) == detection_from_text(ip, GatewayType::MG3, text_bytes(mac)),
{
    detection_from(ip, GatewayType::MG3, mac)
}

/// Reads the answer to the status query sent to `ip`: no JSON, or a code
/// other than 200, is a mismatch; otherwise the address field decides.
pub fn filter_addr_g1(ip: u32, body: &[u8]) -> (r: Result<GatewayDetection, ProbeError>)
    ensures
        !is_json(body@) ==> r is Err && r->Err_0 == ProbeError::ProtocolMismatch,
        is_json(body@) ==> probe_result_view(r) == (if u64_at_pointer(body@, G1_CODE_POINTER@)
            == Some(STATUS_OK) {
            detection_from_text(
                ip,
                GatewayType::G1,
                opt_utf8(text_at_pointer(body@, G1_MAC_POINTER@)),
            )
        } else {
            Err(ProbeError::ProtocolMismatch)
        }),
{
    if !json_is_valid(body) {
        return Err(ProbeError::ProtocolMismatch);
    }
    let code = json_u64_at(body, G1_CODE_POINTER);
    let mac = json_text_at(body, G1_MAC_POINTER);
    g1_decision(ip, code, as_text(&mac))
}

/// Reads the answer to `GET /hello` sent to `ip`: no JSON is a mismatch;
/// otherwise the address field decides.
pub fn filter_addr_mg3(ip: u32, body: &[u8]) -> (r: Result<GatewayDetection, ProbeError>)
    ensures
        !is_json(body@) ==> r is Err && r->Err_0 == ProbeError::ProtocolMismatch,
        is_json(body@) ==> probe_result_view(r) == detection_from_text(
            ip,
            GatewayType::MG3,
            opt_utf8(text_at_pointer(body@, MG3_MAC_POINTER@)),
        ),
{
    if !json_is_valid(body) {
        return Err(ProbeError::ProtocolMismatch);
    }
    let mac = json_text_at(body, MG3_MAC_POINTER);
    mg3_decision(ip, as_text(&mac))
}

} // verus!
