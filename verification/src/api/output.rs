//! The envelope of every API reply.
use vstd::prelude::*;

use crate::api::errors::ApiError;

verus! {

broadcast use vstd::string::to_string_from_display_ensures_for_str;

/// The result of an API handler.
pub type ApiResult<T> = Result<ApiResp<T>, ApiError>;

/// An API reply: status code, optional data, optional total count and a message.
#[derive(Debug)]
pub struct ApiResp<T> {
    pub code: i32,
    pub data: Option<T>,
    pub total: Option<u64>,
    pub msg: String,
}

/// A reply body already rendered as JSON, kept for later inspection.
#[derive(Debug, Clone)]
pub struct ResJsonString(pub String);

/// The HTTP answer to an API reply: status, content type, body, and the JSON text
/// kept beside the answer when serialization succeeded.
#[derive(Debug)]
pub struct HttpReply {
    pub status: u16,
    pub content_type: &'static str,
    pub body: String,
    pub json: Option<ResJsonString>,
}

/// The HTTP answer to an API reply, given the outcome of rendering it as JSON: the
/// JSON text with status 200, or the serializer's error text with status 500. Both
/// are marked as JSON; only a rendered reply keeps its text beside the answer.
pub fn http_reply(rendered: Result<String, String>) -> (r: HttpReply)
    ensures
        r.content_type@ == "application/json"@,
        match rendered {
            Ok(json) => r.status == 200 && r.body@ == json@ && (r.json matches Some(
                ResJsonString(kept),
            ) && kept@ == json@),
            Err(e) => r.status == 500 && r.body@ == e@ && r.json is None,
        },
{
    match rendered {
        Ok(json) => {
            let kept = ResJsonString(json.clone());
            HttpReply { status: 200, content_type: "application/json", body: json, json: Some(kept) }
        },
        Err(e) => HttpReply { status: 500, content_type: "application/json", body: e, json: None },
    }
}

/// A failed reply carrying the message `str`.
pub fn err_msg_string<T>(str: String) -> (r: ApiResult<T>)
    ensures
        r matches Err(ApiError::Msg(m)) && m == str,
{
    Err(ApiError::Msg(str))
}

/// A failed reply carrying the message `str`.
pub fn output_err_msg<T>(str: String) -> (r: ApiResult<T>)
    ensures
        r matches Err(ApiError::Msg(m)) && m == str,
{
    Err(ApiError::Msg(str))
}

/// A failed reply carrying the static message `str`.
pub fn err_msg<T>(str: &'static str) -> (r: ApiResult<T>)
    ensures
        r matches Err(ApiError::StrMsg(m)) && m == str,
{
    Err(ApiError::StrMsg(str))
}

/// A successful reply with `data`: code 200, message "success", no total.
pub fn ok_data<T>(data: T) -> (r: ApiResult<T>)
    ensures
        r matches Ok(resp) && resp.code == 200 && resp.data == Some(data) && resp.total is None
            && resp.msg@ == "success"@,
{
    Ok(ApiResp { code: 200, data: Some(data), total: None, msg: "success".to_string() })
}

impl ApiResp<()> {
    /// A failure reply: code -1 and the message `err`.
    pub fn with_err(err: &str) -> (r: Self)
        ensures
            r.code == -1,
            r.data is None,
            r.total is None,
            r.msg@ == err@,
    {
        ApiResp { code: -1, data: None, total: None, msg: err.to_string() }
    }

    /// A reply with code 200, no data and the message `msg`.
    pub fn with_msg(msg: &str) -> (r: Self)
        ensures
            r.code == 200,
            r.data is None,
            r.total is None,
            r.msg@ == msg@,
    {
        ApiResp { code: 200, data: None, total: None, msg: msg.to_string() }
    }

    /// A reply with the given code and message and no data.
    pub fn with_code(code: i32, msg: String) -> (r: Self)
        ensures
            r.code == code,
            r.data is None,
            r.total is None,
            r.msg == msg,
    {
        ApiResp { code, data: None, total: None, msg }
    }
}

impl<T> ApiResp<T> {
    /// A page of a list: code 200, the data, the total count and message "success".
    pub fn with_list_data(data: T, total: u64) -> (r: Self)
        ensures
            r.code == 200,
            r.data == Some(data),
            r.total == Some(total),
            r.msg@ == "success"@,
    {
        ApiResp { code: 200, data: Some(data), total: Some(total), msg: "success".to_string() }
    }

    /// A successful reply with `data`: code 200, message "success", no total.
    pub fn with_data(data: T) -> (r: Self)
        ensures
            r.code == 200,
            r.data == Some(data),
            r.total is None,
            r.msg@ == "success"@,
    {
        ApiResp { code: 200, data: Some(data), total: None, msg: "success".to_string() }
    }

    /// A successful reply with `data` and the message `msg`: code 200, no total.
    pub fn with_data_msg(data: T, msg: &str) -> (r: Self)
        ensures
            r.code == 200,
            r.data == Some(data),
            r.total is None,
            r.msg@ == msg@,
    {
        ApiResp { code: 200, data: Some(data), total: None, msg: msg.to_string() }
    }
}

} // verus!
