use onebot_connect::imp::http::{assign_echo, is_get_latest_events, EventQueue};
use onebot_connect::imp::webhook::WebhookCreate;
use onebot_connect::interface::imp::ActionEcho;
use onebot_connect::interface::Error;
use onebot_connect::model::{RespData, RespStatus, RetCode};
use onebot_connect::recv::RecvError;
use onebot_connect::wrap::bridge::{bridge_response, forwards_actions};
use serde_value::Value;

fn queue(items: &[u32]) -> EventQueue<u32> {
    let mut q = EventQueue::new();
    for i in items {
        q.push(*i);
    }
    q
}

#[test]
fn event_queue_takes_all_for_zero_limit() {
    let mut q = queue(&[1, 2, 3]);
    let t = q.take(0).unwrap();
    assert_eq!(t.into_iter().collect::<Vec<_>>(), vec![1, 2, 3]);
    assert_eq!(q.len(), 0);
    assert!(q.take(0).is_none());
}

#[test]
fn event_queue_takes_oldest_up_to_limit() {
    let mut q = queue(&[1, 2, 3, 4]);
    let t = q.take(3).unwrap();
    assert_eq!(t.into_iter().collect::<Vec<_>>(), vec![1, 2, 3]);
    assert_eq!(q.len(), 1);
    let t = q.take(1).unwrap();
    assert_eq!(t.into_iter().collect::<Vec<_>>(), vec![4]);
    assert!(q.take(5).is_none());
}

#[test]
fn echoes_for_actions() {
    let free = |_: &ActionEcho| false;
    assert_eq!(assign_echo(Some("app".to_string()), &free), Some(ActionEcho::Outer("app".to_string())));
    let e = assign_echo(None, &free).unwrap();
    assert!(matches!(e, ActionEcho::Inner(_)));
    let taken_even = |e: &ActionEcho| matches!(e, ActionEcho::Inner(n) if n % 2 == 0);
    for _ in 0..20 {
        assert!(matches!(assign_echo(None, &taken_even), Some(ActionEcho::Inner(n)) if n % 2 == 1));
    }
    assert_eq!(ActionEcho::Outer("x".to_string()).outer(), Some("x".to_string()));
    assert_eq!(ActionEcho::Inner(3).outer(), None);
    assert!(is_get_latest_events("get_latest_events"));
    assert!(!is_get_latest_events("get_status"));
}

#[test]
fn webhook_create_settings() {
    let w = WebhookCreate::new("http://host/hook".to_string());
    assert_eq!(w.url(), "http://host/hook");
    let h = w.request_headers().unwrap();
    assert_eq!(
        h,
        vec![
            ("user-agent".to_string(), "OneBot/12 (Webhook) OneBot-Connect-Rust/0.1.0".to_string()),
            ("X-OneBot-Version".to_string(), "12".to_string()),
            ("X-Impl".to_string(), "rs".to_string()),
        ]
    );
    let w = WebhookCreate::with_config("u".to_string(), "agent".to_string(), "impl".to_string()).with_authorization("tk");
    let h = w.request_headers().unwrap();
    assert_eq!(h[0], ("authorization".to_string(), "Bearer tk".to_string()));
    assert_eq!(h[1], ("user-agent".to_string(), "agent".to_string()));
    assert_eq!(h[3], ("X-Impl".to_string(), "impl".to_string()));
    let bad = WebhookCreate::with_config("u".to_string(), "bad\nagent".to_string(), "i".to_string());
    assert!(matches!(bad.request_headers(), Err(Error::Other(m)) if m == "failed to parse header value"));
}

#[test]
fn bridge_answers() {
    let d = RespData {
        status: RespStatus::Failed,
        retcode: RetCode::BadParam,
        data: Value::U8(2),
        message: "m".to_string(),
        echo: Some("e".to_string()),
    };
    let a = bridge_response(Some(d));
    assert_eq!(a.status, RespStatus::Failed);
    assert_eq!(a.retcode, RetCode::BadParam);
    assert_eq!(a.data, Value::U8(2));
    assert_eq!(a.message, "m");
    let a = bridge_response(None);
    assert_eq!(a.status, RespStatus::Success);
    assert_eq!(a.retcode, RetCode::Success);
    assert_eq!(a.data, Value::Unit);
    assert_eq!(a.message, "");
    assert!(forwards_actions(false));
    assert!(!forwards_actions(true));
}

#[test]
fn recv_error_invalid_data() {
    assert!(matches!(RecvError::invalid_data("expected object".to_string()), RecvError::InvalidData(m) if m == "expected object"));
}
