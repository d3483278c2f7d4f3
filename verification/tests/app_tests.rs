use onebot_connect::app::compat::data::{
    file_seg_refused, mk_missing_file, ob11_seg_plan, ob12_seg_plan, plan_action, plan_refusal, resp_conversion,
    trace_upload, unknown_get_file_type, upload_kind_from_request, ActionConverted, ActionPlan, BotStatus,
    RequestUpload, RespConversion, SegPlan,
};
use onebot_connect::app::compat::http::{
    bearer, check_ob11_response, ob11_status_outcome, post_side_action_refused, Ob11RespData, OB11PostConf,
};
use onebot_connect::app::compat::text_eq;
use onebot_connect::app::compat::ws::{classify_frame, FrameKind};
use onebot_connect::app::http::{http_status_error, EventBuffer, PollSettings};
use onebot_connect::app::webhook::{
    active_action_refused, release_permission, to_webhook_actions, ActionArgs, EventContext,
};
use onebot_connect::app::{echo_from_draws, generate_echo, random_echo, ACTION_ECHO_CHARSET};
use onebot_connect::interface::upload::{UploadError, UploadKind};
use onebot_connect::interface::Error;
use onebot_connect::model::{ActionDetail, BotSelf, RespStatus, RetCode};
use serde_value::Value;

#[test]
fn random_echo_shape() {
    for len in [0usize, 1, 8, 32] {
        let e = random_echo(len);
        assert_eq!(e.chars().count(), len);
        assert!(e.chars().all(|c| ACTION_ECHO_CHARSET.contains(c)));
    }
}

#[test]
fn generate_echo_avoids_taken() {
    let taken = |s: &str| s.starts_with('a');
    for _ in 0..50 {
        let e = generate_echo(8, &taken).expect("an echo is found");
        assert_eq!(e.len(), 8);
        assert!(!e.starts_with('a'));
    }
    let none_taken = |_: &str| false;
    assert_eq!(generate_echo(0, &none_taken), Some(String::new()));
}

#[test]
fn text_equality() {
    assert!(text_eq("abc", "abc"));
    assert!(!text_eq("abc", "abd"));
    assert!(text_eq("", ""));
}

#[test]
fn missing_file_response() {
    match mk_missing_file() {
        ActionConverted::Respond(a) => {
            assert_eq!(a.status, RespStatus::Failed);
            assert_eq!(a.retcode, RetCode::FilesystemError(33404));
            assert_eq!(a.message, "cannot find specified file");
            assert_eq!(a.data, Value::Option(None));
        }
        ActionConverted::Send(_) => panic!("a missing file is answered at once"),
    }
}

#[test]
fn bot_status_updates() {
    let mut s = BotStatus::new();
    assert_eq!(s, BotStatus { online: true, good: true });
    assert!(!s.update(true, true));
    assert!(s.update(false, true));
    assert_eq!(s, BotStatus { online: false, good: true });
    assert!(!s.update(false, true));
    assert!(s.update(false, false));
}

#[test]
fn action_plans() {
    assert_eq!(plan_action("send_message"), ActionPlan::ConvertMessage);
    assert_eq!(plan_action("get_status"), ActionPlan::ReportStatus);
    assert_eq!(plan_action("delete_message"), ActionPlan::ConvertDirect);
    assert_eq!(plan_action("leave_group"), ActionPlan::ConvertDirect);
    assert_eq!(plan_action("get_latest_events"), ActionPlan::RejectPolling);
    assert_eq!(plan_action("get_supported_actions"), ActionPlan::ReportSupportedActions);
    assert_eq!(plan_action("get_file"), ActionPlan::GetFile);
    assert_eq!(plan_action("get_file_fragmented"), ActionPlan::GetFileFragmented);
    assert_eq!(plan_action("upload_file"), ActionPlan::UploadFile);
    assert_eq!(plan_action("upload_file_fragmented"), ActionPlan::UploadFileFragmented);
    assert_eq!(plan_action("get_guild_list"), ActionPlan::Unsupported);
    assert_eq!(plan_action("leave_channel"), ActionPlan::Unsupported);
    assert_eq!(plan_action("send_group_forward_msg"), ActionPlan::ForwardOther);
}

#[test]
fn action_refusals() {
    assert!(matches!(plan_refusal(ActionPlan::RejectPolling, "get_latest_events"),
        Some(Error::NotSupported(m)) if m == "please poll events with HTTP POST"));
    assert!(matches!(plan_refusal(ActionPlan::Unsupported, "get_guild_list"),
        Some(Error::NotSupported(m)) if m == "unsupported action: get_guild_list"));
    assert!(plan_refusal(ActionPlan::ConvertDirect, "delete_message").is_none());
    assert!(matches!(unknown_get_file_type("ftp"), Error::Other(m) if m == "unknown `get_file` type: ftp"));
}

#[test]
fn response_conversions() {
    assert_eq!(resp_conversion("send_msg"), RespConversion::MessageResp);
    assert_eq!(resp_conversion("send_group_msg"), RespConversion::MessageResp);
    assert_eq!(resp_conversion("get_login_info"), RespConversion::UserInfo);
    assert_eq!(resp_conversion("get_group_member_info"), RespConversion::UserInfo);
    assert_eq!(resp_conversion("get_friend_list"), RespConversion::UserInfoList);
    assert_eq!(resp_conversion("get_group_info"), RespConversion::GroupInfo);
    assert_eq!(resp_conversion("get_group_list"), RespConversion::GroupInfoList);
    assert_eq!(resp_conversion("get_version_info"), RespConversion::Passthrough);
}

#[test]
fn upload_requests() {
    let u = upload_kind_from_request(RequestUpload::Url { headers: None, url: "http://a".to_string() });
    assert!(matches!(u, Ok(UploadKind::Url(x)) if x.url == "http://a"));
    assert!(matches!(upload_kind_from_request(RequestUpload::Path { path: "/p".to_string() }), Ok(UploadKind::Path(p)) if p == "/p"));
    assert!(matches!(upload_kind_from_request(RequestUpload::Data { data: vec![1] }), Ok(UploadKind::Data(d)) if d == vec![1]));
    assert!(matches!(upload_kind_from_request(RequestUpload::Other { kind: "magnet".to_string() }),
        Err(UploadError::Unsupported(m)) if m == "upload type `magnet`"));
    assert!(matches!(trace_upload(Some("http://f".to_string())), Ok(UploadKind::Url(x)) if x.url == "http://f" && x.headers.is_none()));
    assert!(matches!(trace_upload(None), Err(UploadError::Unsupported(m)) if m == "send file"));
}

#[test]
fn segment_plans() {
    assert_eq!(ob12_seg_plan("text"), SegPlan::Direct);
    assert_eq!(ob12_seg_plan("mention_all"), SegPlan::Direct);
    assert_eq!(ob12_seg_plan("image"), SegPlan::ResolveFile);
    assert_eq!(ob12_seg_plan("voice"), SegPlan::ResolveFile);
    assert_eq!(ob12_seg_plan("file"), SegPlan::Refuse);
    assert_eq!(ob12_seg_plan("qq.face"), SegPlan::ParseExtension);
    assert_eq!(ob11_seg_plan("record"), Some(SegPlan::TraceFile));
    assert_eq!(ob11_seg_plan("reply"), Some(SegPlan::FetchReply));
    assert_eq!(ob11_seg_plan("face"), Some(SegPlan::Direct));
    assert_eq!(ob11_seg_plan("json"), Some(SegPlan::Direct));
    assert_eq!(ob11_seg_plan("mention"), None);
    assert!(matches!(file_seg_refused(), Error::NotSupported(m) if m == "`file` message seg conversion not supported"));
}

#[test]
fn ob11_http_statuses() {
    assert!(ob11_status_outcome(200, "send_msg").is_ok());
    let e = ob11_status_outcome(404, "nope").unwrap_err();
    assert_eq!(e.retcode, RetCode::UnsupportedAction);
    assert_eq!(e.message, "unsupported action: `nope`");
    let e = ob11_status_outcome(400, "x").unwrap_err();
    assert_eq!(e.retcode, RetCode::BadParam);
    assert_eq!(e.message, "post body error");
    let e = ob11_status_outcome(502, "x").unwrap_err();
    assert_eq!(e.retcode, RetCode::OtherError(502));
    assert_eq!(e.message, "http error");
    assert!(e.echo.is_none());
}

fn ob11(retcode: i64) -> Ob11RespData {
    Ob11RespData { status: "x".to_string(), retcode, data: Value::I64(5), echo: Some("e".to_string()) }
}

#[test]
fn ob11_responses() {
    assert_eq!(check_ob11_response(ob11(0)).ok(), Some(Value::I64(5)));
    assert_eq!(check_ob11_response(ob11(1)).ok(), Some(Value::I64(5)));
    let e = check_ob11_response(ob11(100)).unwrap_err();
    assert_eq!(e.retcode, RetCode::OtherError(100));
    assert_eq!(e.message, "OneBot 11 error");
    assert_eq!(e.echo.as_deref(), Some("e"));
    assert!(matches!(post_side_action_refused(), Error::NotSupported(m) if m == "http post, send action"));
    assert_eq!(bearer("t0k"), "Bearer t0k");
    assert!(OB11PostConf::new().secret.is_none());
    assert_eq!(OB11PostConf::with_secret("s".to_string()).secret.as_deref(), Some("s"));
}

#[test]
fn frame_kinds() {
    assert_eq!(classify_frame(true, true), Ok(FrameKind::Response));
    assert_eq!(classify_frame(true, false), Ok(FrameKind::Response));
    assert_eq!(classify_frame(false, true), Ok(FrameKind::Event));
    assert_eq!(classify_frame(false, false), Err("unknown data type".to_string()));
}

#[test]
fn poll_settings() {
    assert_eq!(PollSettings::new(), PollSettings { timeout: 0, limit: 0, interval_ms: 500 });
    assert_eq!(PollSettings::with_setting(3, 10, 20), PollSettings { timeout: 3, limit: 10, interval_ms: 20 });
}

#[test]
fn event_buffer_order() {
    let mut b = EventBuffer::new();
    assert_eq!(b.pop_buffered(), None);
    assert_eq!(b.accept_batch(vec![]), None);
    assert_eq!(b.accept_batch(vec![1, 2, 3]), Some(1));
    assert_eq!(b.pop_buffered(), Some(2));
    assert_eq!(b.accept_batch(vec![4, 5]), Some(4));
    assert_eq!(b.pop_buffered(), Some(3));
    assert_eq!(b.pop_buffered(), Some(5));
    assert_eq!(b.pop_buffered(), None);
}

#[test]
fn http_statuses_of_ob12() {
    assert!(http_status_error(200).is_none());
    assert!(http_status_error(204).is_none());
    match http_status_error(500) {
        Some(Error::Resp(e)) => {
            assert_eq!(e.retcode, RetCode::OtherError(500));
            assert_eq!(e.message, "");
            assert!(e.echo.is_none());
        }
        _ => panic!("an error status is a response error"),
    }
}

fn args(name: &str) -> ActionArgs {
    ActionArgs {
        action: ActionDetail { action: name.to_string(), params: Value::Unit },
        self_: Some(BotSelf { platform: "qq".to_string(), user_id: "1".to_string() }),
    }
}

#[test]
fn webhook_answers() {
    let out = to_webhook_actions(vec![args("a"), args("b"), args("c")]);
    let names: Vec<&str> = out.iter().map(|a| a.action.action.as_str()).collect();
    assert_eq!(names, vec!["a", "b", "c"]);
    assert!(out.iter().all(|a| a.echo.is_none() && a.self_.is_some()));
    assert!(to_webhook_actions(vec![]).is_empty());
}

#[test]
fn webhook_event_context() {
    let mut c = EventContext::new();
    assert!(matches!(c.take_event(), Err(Error::NotSupported(m)) if m == "send action actively not supported"));
    c.set_event("ev1".to_string());
    assert_eq!(c.take_event().ok().as_deref(), Some("ev1"));
    assert!(c.take_event().is_err());
    assert!(release_permission(true).is_ok());
    assert!(matches!(release_permission(false), Err(Error::NotSupported(m)) if m == "`release` not supported for non-owner"));
    assert!(matches!(active_action_refused(), Error::NotSupported(m) if m == "send action actively"));
}

#[test]
fn echo_spelt_from_draws() {
    assert_eq!(echo_from_draws(&vec![0, 26, 61, 25]), "aA9z");
    assert_eq!(echo_from_draws(&Vec::new()), "");
}
