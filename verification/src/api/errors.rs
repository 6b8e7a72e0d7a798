//! Errors of API handlers and the reply each one is answered with.
use vstd::prelude::*;

use crate::api::output::ApiResp;
use sea_orm::DbErr;

verus! {

#[verifier::external_type_specification]
#[verifier::external_body]
pub struct ExDbErr(DbErr);

#[verifier::external_type_specification]
#[verifier::external_body]
pub struct ExStrumParseError(strum::ParseError);

#[verifier::external_type_specification]
#[verifier::external_body]
pub struct ExSerdeJsonError(serde_json::Error);

#[verifier::external_type_specification]
#[verifier::external_body]
pub struct ExAnyhowError(anyhow::Error);

#[verifier::external_type_specification]
#[verifier::external_body]
pub struct ExIoError(std::io::Error);

/// The text that `ToString::to_string` gives of an `anyhow::Error`: its outermost
/// message.
pub uninterp spec fn anyhow_text(e: anyhow::Error) -> Seq<char>;

/// `ToString::to_string` of an `anyhow::Error`: the text of its outermost message.
#[verifier::external_body]
fn anyhow_to_string(err: &anyhow::Error) -> (s: String)
    ensures
        s@ == anyhow_text(*err),
{
    err.to_string()
}

/// Whether a database error is `DbErr::RecordNotUpdated`.
pub uninterp spec fn db_err_record_not_updated(e: DbErr) -> bool;

/// Tells `DbErr::RecordNotUpdated` apart from every other database error.
#[verifier::external_body]
fn db_err_is_record_not_updated(err: &DbErr) -> (b: bool)
    ensures
        b == db_err_record_not_updated(*err),
{
    match err {
        DbErr::RecordNotUpdated => true,
        _ => false,
    }
}

/// An error with its own reply code.
#[derive(Debug)]
pub struct ApiErrorInner {
    pub code: i32,
    pub msg: String,
}

impl ApiErrorInner {
    /// An error with the given code and message.
    pub fn new(code: i32, msg: String) -> (e: ApiErrorInner)
        ensures
            e.code == code,
            e.msg == msg,
    {
        ApiErrorInner { code, msg }
    }
}

/// The error that a device of the Mi-IoT platform reports when it is asked for a
/// Mi-IoT operation that it does not support.
#[derive(Debug, Clone)]
pub struct NotSupportMiotDeviceError;

/// Why an API request failed.
#[derive(Debug)]
pub enum ApiError {
    ParseError(strum::ParseError),
    DbErr(DbErr),
    Msg(String),
    StrMsg(&'static str),
    SerdeJsonError(serde_json::Error),
    MiotDeviceError(NotSupportMiotDeviceError),
    /// A failure of the BLE adapter, by its description.
    BtlePlugError(String),
    BadRequest(String),
    ApiErrorInner(ApiErrorInner),
}

/// Reply text for a database update that matched no record.
pub open spec fn record_not_updated_text() -> Seq<char> {
    "记录未更新,可能数据不存在"@
}

/// Reply text for any other database error.
pub open spec fn database_error_text() -> Seq<char> {
    "数据库错误"@
}

/// Reply text for an internal failure.
pub open spec fn server_error_text() -> Seq<char> {
    "服务器异常"@
}

/// The reply to a database error, by whether it is a failed update of a missing record.
pub fn db_err_resp(record_not_updated: bool) -> (r: ApiResp<()>)
    ensures
        r.code == -1,
        r.data is None,
        r.total is None,
        r.msg@ == (if record_not_updated {
            record_not_updated_text()
        } else {
            database_error_text()
        }),
{
    if record_not_updated {
        ApiResp::with_err("记录未更新,可能数据不存在")
    } else {
        ApiResp::with_err("数据库错误")
    }
}

impl ApiError {
    /// An error carrying the message `msg`.
    pub fn msg(msg: String) -> (e: ApiError)
        ensures
            e matches ApiError::Msg(m) && m == msg,
    {
        ApiError::Msg(msg)
    }

    /// The error for a device that does not support a Mi-IoT operation.
    pub fn from_miot_device_error(value: NotSupportMiotDeviceError) -> (e: ApiError)
        ensures
            e is MiotDeviceError,
    {
        ApiError::MiotDeviceError(value)
    }

    /// The error for a failure reported through `anyhow`: a message error carrying
    /// the failure's text.
    pub fn from_anyhow(value: anyhow::Error) -> (e: ApiError)
        ensures
            e matches ApiError::Msg(m) && m@ == anyhow_text(value),
    {
        ApiError::Msg(anyhow_to_string(&value))
    }

    /// The error for an I/O failure: the message `io error`.
    pub fn from_io_error(value: std::io::Error) -> (e: ApiError)
        ensures
            e matches ApiError::Msg(m) && m@ == "io error"@,
    {
        ApiError::Msg(String::from_str("io error"))
    }

    /// The reply to this error. A message error (`Msg`, `StrMsg`, `BadRequest`) is
    /// answered with code -1 and its message; an `ApiErrorInner` with its own code and
    /// message; a database error with code -1 and a database message; everything else
    /// with code -1 and a generic server-failure message.
    pub fn into_resp(self) -> (r: ApiResp<()>)
        ensures
            r.data is None,
            r.total is None,
            match self {
                ApiError::Msg(m) => r.code == -1 && r.msg@ == m@,
                ApiError::StrMsg(m) => r.code == -1 && r.msg@ == m@,
                ApiError::BadRequest(m) => r.code == -1 && r.msg@ == m@,
                ApiError::ApiErrorInner(inner) => r.code == inner.code && r.msg == inner.msg,
                ApiError::DbErr(err) => r.code == -1 && r.msg@ == (if db_err_record_not_updated(
                    err,
                ) {
                    record_not_updated_text()
                } else {
                    database_error_text()
                }),
                _ => r.code == -1 && r.msg@ == server_error_text(),
            },
    {
        match self {
            ApiError::Msg(msg) => ApiResp::with_err(msg.as_str()),
            ApiError::StrMsg(msg) => ApiResp::with_err(msg),
            ApiError::BadRequest(msg) => ApiResp::with_err(msg.as_str()),
            ApiError::ApiErrorInner(inner) => ApiResp::with_code(inner.code, inner.msg),
            ApiError::DbErr(err) => db_err_resp(db_err_is_record_not_updated(&err)),
            _ => ApiResp::with_err("服务器异常"),
        }
    }
}

} // verus!
