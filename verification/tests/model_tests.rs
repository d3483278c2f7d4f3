use onebot_connect::interface::{decode_action_response, process_resp, require_response, Error, RespArgs};
use onebot_connect::model::{RespData, RespError, RespStatus, RetCode};
use serde_value::Value;

#[test]
fn ret_code_numbers() {
    assert_eq!(RetCode::Success.code(), 0);
    assert_eq!(RetCode::BadRequest.code(), 10001);
    assert_eq!(RetCode::UnsupportedAction.code(), 10002);
    assert_eq!(RetCode::BadParam.code(), 10003);
    assert_eq!(RetCode::UnknownSelf.code(), 10102);
    assert_eq!(RetCode::InternalHandlerError.code(), 20002);
    assert_eq!(RetCode::FilesystemError(33404).code(), 33404);
    assert_eq!(RetCode::OtherError(7).code(), 7);
}

#[test]
fn ret_code_read_from_numbers() {
    assert_eq!(RetCode::from_code(0), RetCode::Success);
    assert_eq!(RetCode::from_code(10003), RetCode::BadParam);
    assert_eq!(RetCode::from_code(10101), RetCode::WhoAmI);
    assert_eq!(RetCode::from_code(31001), RetCode::DatabaseError(31001));
    assert_eq!(RetCode::from_code(32999), RetCode::FilesystemError(32999));
    assert_eq!(RetCode::from_code(33404), RetCode::NetworkError(33404));
    assert_eq!(RetCode::from_code(36000), RetCode::IAmTired(36000));
    assert_eq!(RetCode::from_code(10008), RetCode::OtherError(10008));
    assert_eq!(RetCode::from_http_status(500), RetCode::OtherError(500));
    assert_eq!(RetCode::from_http_status(404), RetCode::OtherError(404));
}

#[test]
fn ret_code_round_trip_on_values() {
    for c in [0u32, 10001, 10007, 10102, 20001, 31500, 32000, 33999, 34000, 35123, 36999, 99, 40000] {
        assert_eq!(RetCode::from_code(c).code(), c);
    }
    for r in [RetCode::LogicError(35000), RetCode::PlatformError(34001), RetCode::OtherError(1)] {
        assert_eq!(RetCode::from_code(r.code()), r);
    }
}

fn resp(status: RespStatus, retcode: RetCode, message: &str, echo: Option<&str>) -> RespData {
    RespData {
        status,
        retcode,
        data: Value::U8(1),
        message: message.to_string(),
        echo: echo.map(|e| e.to_string()),
    }
}

#[test]
fn resp_data_success_flag() {
    assert!(resp(RespStatus::Success, RetCode::Success, "", None).is_success());
    assert!(!resp(RespStatus::Failed, RetCode::BadParam, "x", None).is_success());
    let d = RespData::success(Value::Bool(true), Some("e1".to_string()));
    assert!(d.is_success());
    assert_eq!(d.retcode, RetCode::Success);
    assert_eq!(d.data, Value::Bool(true));
    assert_eq!(d.message, "");
    assert_eq!(d.echo.as_deref(), Some("e1"));
}

#[test]
fn resp_error_from_response() {
    let e = RespError::from_resp_data(resp(RespStatus::Failed, RetCode::BadHandler, "boom", Some("7")));
    assert_eq!(e.retcode, RetCode::BadHandler);
    assert_eq!(e.message, "boom");
    assert_eq!(e.echo.as_deref(), Some("7"));
    let n = RespError::new(RetCode::BadParam, "p".to_string());
    assert_eq!(n.retcode, RetCode::BadParam);
    assert_eq!(n.message, "p");
    assert!(n.echo.is_none());
}

#[test]
fn resp_args_failed_and_into_result() {
    let a = RespArgs::failed(RetCode::FilesystemError(33404), "cannot find specified file".to_string());
    assert_eq!(a.status, RespStatus::Failed);
    assert_eq!(a.data, Value::Option(None));
    match a.into_result(Some("echo".to_string())) {
        Err(e) => {
            assert_eq!(e.retcode, RetCode::FilesystemError(33404));
            assert_eq!(e.message, "cannot find specified file");
            assert_eq!(e.echo.as_deref(), Some("echo"));
        }
        Ok(_) => panic!("failed arguments must give an error"),
    }
}

#[test]
fn resp_args_success_and_into_result() {
    let a = RespArgs::success(Value::String("data".to_string()));
    assert_eq!(a.status, RespStatus::Success);
    assert_eq!(a.retcode, RetCode::Success);
    assert_eq!(a.message, "");
    match a.into_result(None) {
        Ok(v) => assert_eq!(v, Value::String("data".to_string())),
        Err(_) => panic!("successful arguments must give their data"),
    }
}

#[test]
fn resp_args_round_trip_through_response() {
    let a = RespArgs::failed(RetCode::BadParam, "bad".to_string());
    let d = a.clone().into_resp_data(Some("x".to_string()));
    assert_eq!(d.status, RespStatus::Failed);
    assert_eq!(d.echo.as_deref(), Some("x"));
    let back = RespArgs::from_resp_data(d);
    assert_eq!(back.status, a.status);
    assert_eq!(back.retcode, a.retcode);
    assert_eq!(back.data, a.data);
    assert_eq!(back.message, a.message);
}

#[test]
fn process_resp_cases() {
    assert_eq!(process_resp(Some(3)).ok(), Some(3));
    match process_resp::<u8>(None) {
        Err(Error::NotSupported(m)) => assert_eq!(m, "action response not supported"),
        _ => panic!("missing response must be unsupported"),
    }
    assert_eq!(require_response(Some(4)).ok(), Some(4));
    match require_response::<u8>(None) {
        Err(Error::Missing(m)) => assert_eq!(m, "response"),
        _ => panic!("missing response must be reported missing"),
    }
}

#[test]
fn decode_action_response_cases() {
    match decode_action_response(Some(resp(RespStatus::Success, RetCode::Success, "", None))) {
        Ok(Some(v)) => assert_eq!(v, Value::U8(1)),
        _ => panic!("success gives data"),
    }
    match decode_action_response(Some(resp(RespStatus::Failed, RetCode::UnsupportedAction, "no", Some("e")))) {
        Err(Error::Resp(e)) => {
            assert_eq!(e.retcode, RetCode::UnsupportedAction);
            assert_eq!(e.message, "no");
            assert_eq!(e.echo.as_deref(), Some("e"));
        }
        _ => panic!("failure gives the response error"),
    }
    assert!(matches!(decode_action_response(None), Ok(None)));
}

#[test]
fn error_constructors() {
    assert!(matches!(Error::other("a".to_string()), Error::Other(m) if m == "a"));
    assert!(matches!(Error::serialize("b".to_string()), Error::Serialize(m) if m == "b"));
    assert!(matches!(Error::deserialize("c".to_string()), Error::Deserialize(m) if m == "c"));
    assert!(matches!(Error::not_supported("d".to_string()), Error::NotSupported(m) if m == "d"));
    assert!(matches!(Error::closed("e".to_string()), Error::Closed(m) if m == "e"));
    assert!(matches!(Error::missing("f".to_string()), Error::Missing(m) if m == "f"));
    assert!(matches!(
        onebot_connect::interface::unknown_config_key("k".to_string()),
        Error::Config(onebot_connect::interface::ConfigError::UnknownKey(k)) if k == "k"
    ));
}
