//! Core types of the QR login flow and the mapping from poll responses
//! to typed outcomes.

use vstd::prelude::*;

use crate::json::i64_at;
use crate::json::is_json;
use crate::json::json_i64_field;
use crate::json::json_parses;
use crate::json::json_str_field;
use crate::json::json_u64_field;
use crate::json::str_at;
use crate::json::u64_at;
use vstd::string::StringExecFns;

verus! {

/// Server status code on a poll response meaning that the QR code expired.
pub const CODE_EXPIRED: u64 = 86038;

/// Server status code meaning that the code was scanned but not confirmed.
pub const CODE_UNCONFIRMED: u64 = 86090;

/// Server status code meaning that the code was not scanned yet.
pub const CODE_UNSCANNED: u64 = 86101;

/// Payload of a successful QR generation request: the login page URL
/// (which encodes the key) and the opaque key used to poll the scan
/// status.
#[derive(Debug, Clone, PartialEq, Eq)]
pub struct QrGenResponse {
    pub url: String,
    pub qrcode_key: String,
}

/// Outcome of one poll of the status endpoint.
#[derive(Debug, Clone, PartialEq, Eq)]
pub enum QrScanStatus {
    /// The user confirmed the login: the server reported code 0, a login
    /// timestamp, and set the `bili_jct` session cookie (the CSRF token).
    Success { timestamp: u64, csrf: String },
    /// The QR code expired and a new one must be generated.
    Expired,
    /// The code was scanned but not yet confirmed in the app.
    Unconfirmed,
    /// The code was not scanned yet.
    Unscanned,
}

/// Mathematical model of a [`QrScanStatus`], with the CSRF token as a
/// sequence of characters.
pub ghost enum StatusModel {
    Success { timestamp: u64, csrf: Seq<char> },
    Expired,
    Unconfirmed,
    Unscanned,
}

impl View for QrScanStatus {
    type V = StatusModel;

    open spec fn view(&self) -> StatusModel {
        match self {
            QrScanStatus::Success { timestamp, csrf } => StatusModel::Success {
                timestamp: *timestamp,
                csrf: csrf@,
            },
            QrScanStatus::Expired => StatusModel::Expired,
            QrScanStatus::Unconfirmed => StatusModel::Unconfirmed,
            QrScanStatus::Unscanned => StatusModel::Unscanned,
        }
    }
}

impl QrScanStatus {
    /// A poller stops on `Success` (the login completed) and on `Expired`
    /// (further polls of the same key are pointless); the two remaining
    /// statuses call for another poll.
    pub fn is_terminal(&self) -> (r: bool)
        ensures
            r <==> (self@ is Success || self@ is Expired),
    {
        match self {
            QrScanStatus::Success { .. } => true,
            QrScanStatus::Expired => true,
            QrScanStatus::Unconfirmed => false,
            QrScanStatus::Unscanned => false,
        }
    }
}

/// A poll response that breaks the protocol: a field the flow needs is
/// absent or ill-typed, or the status code is outside the known set.
#[derive(Debug, Clone, PartialEq, Eq)]
pub enum ProtocolViolation {
    /// `data.code` is absent from the poll response, or is not an
    /// unsigned integer.
    MissingCode,
    /// The poll response reports code 0 but `data.timestamp` is absent
    /// or not an unsigned integer.
    MissingTimestamp,
    /// The poll response reports code 0 but no `bili_jct` cookie came
    /// with it, so there is no CSRF token to hand back.
    MissingCsrf,
    /// The status code is none of the four the protocol defines.
    UnknownCode(u64),
}

impl ProtocolViolation {
    /// The name of the offending field of the poll response.
    pub fn offending_field(&self) -> (r: String)
        ensures
            *self is MissingCode ==> r@ == "data.code"@,
            *self is MissingTimestamp ==> r@ == "data.timestamp"@,
            *self is MissingCsrf ==> r@ == "bili_jct"@,
            *self is UnknownCode ==> r@ == "data.code"@,
    {
        match self {
            ProtocolViolation::MissingCode => "data.code".to_owned(),
            ProtocolViolation::MissingTimestamp => "data.timestamp".to_owned(),
            ProtocolViolation::MissingCsrf => "bili_jct".to_owned(),
            ProtocolViolation::UnknownCode(_) => "data.code".to_owned(),
        }
    }
}

/// Why a step of the login flow failed.
#[derive(Debug, Clone, PartialEq, Eq)]
pub enum QrError {
    /// The network call itself failed; the transport's description is
    /// carried unchanged.
    Transport(String),
    /// A response body did not decode as the expected JSON shape.
    Decode,
    /// A response decoded but broke the protocol.
    Protocol(ProtocolViolation),
}

/// Mathematical model of a [`QrError`], with the transport description
/// as a sequence of characters.
pub ghost enum ErrorModel {
    Transport(Seq<char>),
    Decode,
    Protocol(ProtocolViolation),
}

impl View for QrError {
    type V = ErrorModel;

    open spec fn view(&self) -> ErrorModel {
        match self {
            QrError::Transport(msg) => ErrorModel::Transport(msg@),
            QrError::Decode => ErrorModel::Decode,
            QrError::Protocol(v) => ErrorModel::Protocol(*v),
        }
    }
}

/// Model of a poll result: either a status or the error that the
/// response deserves.
pub open spec fn poll_result_view(r: Result<QrScanStatus, QrError>) -> Result<
    StatusModel,
    ErrorModel,
> {
    match r {
        Ok(status) => Ok(status@),
        Err(err) => Err(err@),
    }
}

/// What one poll of the status endpoint must come to, given the status
/// code, the timestamp (when one decoded), and the `bili_jct` cookie
/// (when one came with the response):
///
/// * code 0 with a timestamp and a cookie is a confirmed login, and the
///   timestamp and token are handed back exactly as received;
/// * code 0 without a timestamp, or without the cookie, breaks the
///   protocol — in particular it must never pass as a `Success` with an
///   invented token;
/// * the three documented waiting codes map to their statuses whatever
///   else the response carries;
/// * any other code breaks the protocol.
pub open spec fn poll_spec(code: u64, timestamp: Option<u64>, csrf: Option<Seq<char>>) -> Result<
    StatusModel,
    ErrorModel,
> {
    if code == 0 {
        if timestamp is None {
            Err(ErrorModel::Protocol(ProtocolViolation::MissingTimestamp))
        } else if csrf is None {
            Err(ErrorModel::Protocol(ProtocolViolation::MissingCsrf))
        } else {
            Ok(StatusModel::Success { timestamp: timestamp->0, csrf: csrf->0 })
        }
    } else if code == CODE_EXPIRED {
        Ok(StatusModel::Expired)
    } else if code == CODE_UNCONFIRMED {
        Ok(StatusModel::Unconfirmed)
    } else if code == CODE_UNSCANNED {
        Ok(StatusModel::Unscanned)
    } else {
        Err(ErrorModel::Protocol(ProtocolViolation::UnknownCode(code)))
    }
}

/// Law: a poll response with code 0, a timestamp `t` and a CSRF cookie
/// `v` comes to `Success` carrying exactly `t` and `v`.
pub proof fn lemma_confirmed_poll_succeeds(t: u64, v: Seq<char>)
    ensures
        poll_spec(0, Some(t), Some(v)) == Ok::<StatusModel, ErrorModel>(
            StatusModel::Success { timestamp: t, csrf: v },
        ),
{
}

/// Law: a poll response with code 0 but no CSRF cookie never passes as
/// a success — whatever the timestamp, the outcome is a protocol error,
/// never a `Success` with an invented token.
pub proof fn lemma_no_success_without_csrf(timestamp: Option<u64>)
    ensures
        poll_spec(0, timestamp, None) is Err,
        poll_spec(0, timestamp, None) == Err::<StatusModel, ErrorModel>(
            ErrorModel::Protocol(
                if timestamp is None {
                    ProtocolViolation::MissingTimestamp
                } else {
                    ProtocolViolation::MissingCsrf
                },
            ),
        ),
{
}

/// Law: the three waiting codes map to `Expired`, `Unconfirmed` and
/// `Unscanned` whatever timestamp or cookie came alongside.
pub proof fn lemma_waiting_codes(timestamp: Option<u64>, csrf: Option<Seq<char>>)
    ensures
        poll_spec(CODE_EXPIRED, timestamp, csrf) == Ok::<StatusModel, ErrorModel>(
            StatusModel::Expired,
        ),
        poll_spec(CODE_UNCONFIRMED, timestamp, csrf) == Ok::<StatusModel, ErrorModel>(
            StatusModel::Unconfirmed,
        ),
        poll_spec(CODE_UNSCANNED, timestamp, csrf) == Ok::<StatusModel, ErrorModel>(
            StatusModel::Unscanned,
        ),
{
}

/// Law: a status code outside the known set breaks the protocol, and
/// the error carries the offending code.
pub proof fn lemma_unknown_code_rejected(code: u64, timestamp: Option<u64>, csrf: Option<Seq<char>>)
    requires
        code != 0,
        code != CODE_EXPIRED,
        code != CODE_UNCONFIRMED,
        code != CODE_UNSCANNED,
    ensures
        poll_spec(code, timestamp, csrf) == Err::<StatusModel, ErrorModel>(
            ErrorModel::Protocol(ProtocolViolation::UnknownCode(code)),
        ),
{
}

/// Maps a poll response's status code, decoded timestamp and captured
/// CSRF cookie to the typed outcome that [`poll_spec`] prescribes.
pub fn classify_poll(code: u64, timestamp: Option<u64>, csrf: Option<String>) -> (r: Result<
    QrScanStatus,
    QrError,
>)
    ensures
        poll_result_view(r) == poll_spec(code, timestamp, csrf.deep_view()),
{
    if code == 0 {
        match (timestamp, csrf) {
            (Some(timestamp), Some(csrf)) => Ok(QrScanStatus::Success { timestamp, csrf }),
            (None, _) => Err(QrError::Protocol(ProtocolViolation::MissingTimestamp)),
            (Some(_), None) => Err(QrError::Protocol(ProtocolViolation::MissingCsrf)),
        }
    } else if code == CODE_EXPIRED {
        Ok(QrScanStatus::Expired)
    } else if code == CODE_UNCONFIRMED {
        Ok(QrScanStatus::Unconfirmed)
    } else if code == CODE_UNSCANNED {
        Ok(QrScanStatus::Unscanned)
    } else {
        Err(QrError::Protocol(ProtocolViolation::UnknownCode(code)))
    }
}

/// The fixed URL a QR code is requested from.
pub open spec fn generate_endpoint() -> Seq<char> {
    "https://passport.bilibili.com/x/passport-login/web/qrcode/generate"@
}

/// Returns the URL a QR code is requested from.
pub fn generate_url() -> (r: String)
    ensures
        r@ == generate_endpoint(),
{
    "https://passport.bilibili.com/x/passport-login/web/qrcode/generate".to_owned()
}

/// The URL polled for a key: the fixed status endpoint with the key
/// interpolated as the `qrcode_key` query parameter.
pub open spec fn poll_endpoint(qrcode_key: Seq<char>) -> Seq<char> {
    "https://passport.bilibili.com/x/passport-login/web/qrcode/poll?qrcode_key="@ + qrcode_key
}

/// Builds the URL polled for a key.
pub fn poll_url(qrcode_key: &str) -> (r: String)
    ensures
        r@ == poll_endpoint(qrcode_key@),
{
    let mut url: String =
        "https://passport.bilibili.com/x/passport-login/web/qrcode/poll?qrcode_key=".to_owned();
    url.append(qrcode_key);
    url
}

/// Whether a body has the envelope shape the generate endpoint answers
/// with: `{ code: integer, message: string, ttl: integer, data: { url:
/// string, qrcode_key: string } }`.
pub open spec fn envelope_ok(body: Seq<char>) -> bool {
    &&& is_json(body)
    &&& i64_at(body, "/code"@) is Some
    &&& str_at(body, "/message"@) is Some
    &&& u64_at(body, "/ttl"@) is Some
    &&& str_at(body, "/data/url"@) is Some
    &&& str_at(body, "/data/qrcode_key"@) is Some
}

/// Decodes the body of a generate response. On a body of the envelope
/// shape the result carries the `url` and `qrcode_key` of the `data`
/// object exactly as they stand in the body; any other body is a decode
/// error.
pub fn decode_generate_response(body: &str) -> (r: Result<QrGenResponse, QrError>)
    ensures
        r is Ok <==> envelope_ok(body@),
        r matches Ok(g) ==> Some(g.url@) == str_at(body@, "/data/url"@) && Some(g.qrcode_key@)
            == str_at(body@, "/data/qrcode_key"@),
        r matches Err(e) ==> e@ == ErrorModel::Decode,
{
    if !json_parses(body) {
        return Err(QrError::Decode);
    }
    if json_i64_field(body, "/code").is_none() {
        return Err(QrError::Decode);
    }
    if json_str_field(body, "/message").is_none() {
        return Err(QrError::Decode);
    }
    if json_u64_field(body, "/ttl").is_none() {
        return Err(QrError::Decode);
    }
    let url = json_str_field(body, "/data/url");
    let qrcode_key = json_str_field(body, "/data/qrcode_key");
    match (url, qrcode_key) {
        (Some(url), Some(qrcode_key)) => Ok(QrGenResponse { url, qrcode_key }),
        _ => Err(QrError::Decode),
    }
}

/// Decodes the body of one poll response and maps it, together with the
/// `bili_jct` cookie captured from the same response, to the typed
/// outcome. A body that is not JSON is a decode error; a JSON body
/// without an unsigned `data.code` breaks the protocol; otherwise the
/// outcome is exactly what [`poll_spec`] prescribes for the decoded
/// code, the decoded `data.timestamp`, and the cookie.
pub fn decode_poll_response(body: &str, csrf: Option<String>) -> (r: Result<QrScanStatus, QrError>)
    ensures
        !is_json(body@) ==> poll_result_view(r) == Err::<StatusModel, ErrorModel>(
            ErrorModel::Decode,
        ),
        is_json(body@) && u64_at(body@, "/data/code"@) is None ==> poll_result_view(r)
            == Err::<StatusModel, ErrorModel>(
            ErrorModel::Protocol(ProtocolViolation::MissingCode),
        ),
        is_json(body@) ==> (u64_at(body@, "/data/code"@) matches Some(code) ==> poll_result_view(r)
            == poll_spec(code, u64_at(body@, "/data/timestamp"@), csrf.deep_view())),
{
    if !json_parses(body) {
        return Err(QrError::Decode);
    }
    let code = match json_u64_field(body, "/data/code") {
        Some(code) => code,
        None => {
            return Err(QrError::Protocol(ProtocolViolation::MissingCode));
        },
    };
    let timestamp = json_u64_field(body, "/data/timestamp");
    classify_poll(code, timestamp, csrf)
}

} // verus!

