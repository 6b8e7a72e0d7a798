use homelink::api::errors::{db_err_resp, ApiError, ApiErrorInner, NotSupportMiotDeviceError};
use homelink::api::output::{err_msg, err_msg_string, http_reply, ok_data, output_err_msg, ApiResp, ResJsonString};

#[test]
fn resp_builders() {
    let r = ApiResp::with_err("boom");
    assert_eq!((r.code, r.data, r.total, r.msg.as_str()), (-1, None, None, "boom"));
    let r = ApiResp::with_msg("done");
    assert_eq!((r.code, r.data, r.total, r.msg.as_str()), (200, None, None, "done"));
    let r = ApiResp::with_list_data(vec![1, 2, 3], 10);
    assert_eq!((r.code, r.data, r.total, r.msg.as_str()), (200, Some(vec![1, 2, 3]), Some(10), "success"));
    let r = ApiResp::with_data("x");
    assert_eq!((r.code, r.data, r.total, r.msg.as_str()), (200, Some("x"), None, "success"));
    let r = ApiResp::with_data_msg(5u8, "fine");
    assert_eq!((r.code, r.data, r.total, r.msg.as_str()), (200, Some(5u8), None, "fine"));
    let r = ApiResp::with_code(7, "seven".to_string());
    assert_eq!((r.code, r.data, r.total, r.msg.as_str()), (7, None, None, "seven"));
    let j = ResJsonString("{}".to_string());
    assert_eq!(j.0, "{}");
}

#[test]
fn result_helpers() {
    let ok = ok_data(3).unwrap();
    assert_eq!((ok.code, ok.data, ok.total, ok.msg.as_str()), (200, Some(3), None, "success"));
    assert!(matches!(err_msg_string::<()>("a".to_string()), Err(ApiError::Msg(m)) if m == "a"));
    assert!(matches!(output_err_msg::<()>("b".to_string()), Err(ApiError::Msg(m)) if m == "b"));
    assert!(matches!(err_msg::<()>("c"), Err(ApiError::StrMsg("c"))));
    assert!(matches!(ApiError::msg("d".to_string()), ApiError::Msg(m) if m == "d"));
}

#[test]
fn error_replies() {
    let r = ApiError::Msg("bad".to_string()).into_resp();
    assert_eq!((r.code, r.msg.as_str()), (-1, "bad"));
    let r = ApiError::StrMsg("static").into_resp();
    assert_eq!((r.code, r.msg.as_str()), (-1, "static"));
    let r = ApiError::BadRequest("req".to_string()).into_resp();
    assert_eq!((r.code, r.msg.as_str()), (-1, "req"));
    let r = ApiError::ApiErrorInner(ApiErrorInner::new(1, "模板不存在".to_string())).into_resp();
    assert_eq!((r.code, r.msg.as_str()), (1, "模板不存在"));
    let r = ApiError::DbErr(sea_orm::DbErr::RecordNotUpdated).into_resp();
    assert_eq!((r.code, r.msg.as_str()), (-1, "记录未更新,可能数据不存在"));
    let r = ApiError::DbErr(sea_orm::DbErr::Custom("x".to_string())).into_resp();
    assert_eq!((r.code, r.msg.as_str()), (-1, "数据库错误"));
    let r = ApiError::ParseError(strum::ParseError::VariantNotFound).into_resp();
    assert_eq!((r.code, r.msg.as_str()), (-1, "服务器异常"));
    let r = ApiError::from_miot_device_error(NotSupportMiotDeviceError).into_resp();
    assert_eq!((r.code, r.msg.as_str()), (-1, "服务器异常"));
    let json_err = serde_json::from_str::<u8>("x").unwrap_err();
    let r = ApiError::SerdeJsonError(json_err).into_resp();
    assert_eq!((r.code, r.msg.as_str()), (-1, "服务器异常"));
    assert!(r.data.is_none() && r.total.is_none());
}

#[test]
fn db_error_reply_texts() {
    assert_eq!(db_err_resp(true).msg, "记录未更新,可能数据不存在");
    assert_eq!(db_err_resp(false).msg, "数据库错误");
}

#[test]
fn rendered_reply_is_json_with_kept_text() {
    let r = http_reply(Ok("{\"code\":200}".to_string()));
    assert_eq!(r.status, 200);
    assert_eq!(r.content_type, "application/json");
    assert_eq!(r.body, "{\"code\":200}");
    assert_eq!(r.json.map(|j| j.0), Some("{\"code\":200}".to_string()));
}

#[test]
fn unrendered_reply_is_server_error() {
    let r = http_reply(Err("key must be a string".to_string()));
    assert_eq!(r.status, 500);
    assert_eq!(r.content_type, "application/json");
    assert_eq!(r.body, "key must be a string");
    assert!(r.json.is_none());
}
