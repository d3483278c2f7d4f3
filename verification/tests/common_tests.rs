use onebot_connect::common::http_s::{
    bytes_equal, check_access, check_content_type, check_request, check_signature, check_signature_header, ws_token_accepted, HttpConfig,
    HttpResponse, Rejection,
};
use onebot_connect::common::storage::{
    hashmap_to_headers, FragmentStep, FsError, OBFileStorage, PathLookup, UploadFileReq,
};
use onebot_connect::common::util::{LossyPoll, LossyState};
use onebot_connect::common::ws::{close_outcome, combine_close};
use onebot_connect::common::ConnState;
use onebot_connect::interface::upload::{StoreState, UploadError, UploadKind, UrlUpload};
use onebot_connect::interface::ClosedReason;

fn ready(p: LossyPoll<u32>) -> Option<u32> {
    match p {
        LossyPoll::Ready(v) => v,
        LossyPoll::Pending => panic!("expected a ready poll"),
    }
}

#[test]
fn lossy_fifo_order() {
    let mut s = LossyState::new(4);
    assert!(s.send(1).is_ok());
    assert!(s.send(2).is_ok());
    assert!(s.send(3).is_ok());
    assert_eq!(ready(s.poll()), Some(1));
    assert_eq!(ready(s.poll()), Some(2));
    assert_eq!(ready(s.poll()), Some(3));
    assert!(matches!(s.poll(), LossyPoll::Pending));
}

#[test]
fn lossy_drops_oldest_when_full() {
    let mut s = LossyState::new(2);
    for i in 1..=5 {
        assert!(s.send(i).is_ok());
    }
    assert_eq!(ready(s.poll()), Some(4));
    assert_eq!(ready(s.poll()), Some(5));
    assert!(matches!(s.poll(), LossyPoll::Pending));
}

#[test]
fn lossy_capacity_zero_keeps_everything() {
    let mut s = LossyState::new(0);
    for i in 0..10 {
        assert!(s.send(i).is_ok());
    }
    for i in 0..10 {
        assert_eq!(ready(s.poll()), Some(i));
    }
}

#[test]
fn lossy_closed_receiver_refuses() {
    let mut s = LossyState::new(3);
    s.close_receiver();
    assert_eq!(s.send(9), Err(9));
}

#[test]
fn lossy_no_senders_ends() {
    let mut s = LossyState::new(3);
    assert!(s.send(1).is_ok());
    s.add_sender();
    s.remove_sender();
    assert_eq!(ready(s.poll()), Some(1));
    s.remove_sender();
    assert!(s.send(2).is_ok());
    assert_eq!(ready(s.poll()), None);
}

#[test]
fn conn_state_flag() {
    let mut c = ConnState::new();
    assert!(c.is_active());
    c.set_active(false);
    assert!(!c.is_active());
    c.set_active(true);
    assert!(c.is_active());
}

#[test]
fn close_outcomes() {
    assert!(matches!(close_outcome(false, false), Ok(ClosedReason::Partial(m)) if m == "signal channel closed"));
    assert!(matches!(close_outcome(true, false), Ok(ClosedReason::Partial(m)) if m == "close callback closed"));
    assert_eq!(close_outcome(true, true), Ok(ClosedReason::Clean));
    assert_eq!(combine_close(Ok(ClosedReason::Clean), Err("x".to_string())), Err("x".to_string()));
    assert_eq!(combine_close(Err("a".to_string()), Ok(ClosedReason::Clean)), Err("a".to_string()));
    assert_eq!(combine_close(Ok(ClosedReason::Clean), Ok(ClosedReason::Clean)), Ok(ClosedReason::Clean));
}

#[test]
fn http_config_token() {
    let c = HttpConfig::with_access_token("abc".to_string());
    assert_eq!(c.authorization, Some(("Bearer abc".to_string(), "abc".to_string())));
    assert!(HttpConfig::new().authorization.is_none());
}

#[test]
fn bytes_compare() {
    assert!(bytes_equal(b"abc", b"abc"));
    assert!(!bytes_equal(b"abc", b"abd"));
    assert!(!bytes_equal(b"abc", b"ab"));
    assert!(bytes_equal(b"", b""));
}

fn token(t: &str) -> Option<Result<String, String>> {
    Some(Ok(t.to_string()))
}

#[test]
fn access_checks() {
    let auth = HttpConfig::with_access_token("tok".to_string()).authorization;
    assert!(check_access(&None, None, &None).is_ok());
    assert!(check_access(&None, Some(b"Bearer bad"), &token("bad")).is_ok());
    assert!(check_access(&auth, Some(b"Bearer tok"), &None).is_ok());
    assert!(matches!(check_access(&auth, Some(b"Bearer bad"), &token("tok")), Err(Rejection::Forbidden)));
    assert!(check_access(&auth, None, &token("tok")).is_ok());
    assert!(matches!(check_access(&auth, None, &token("nope")), Err(Rejection::Forbidden)));
    assert!(matches!(check_access(&auth, None, &None), Err(Rejection::Unauthorized)));
    match check_access(&auth, None, &Some(Err("missing field `access_token`".to_string()))) {
        Err(Rejection::InvalidQuery(m)) => assert_eq!(m, "missing field `access_token`"),
        _ => panic!("a query that cannot be read is refused"),
    }
}

#[test]
fn content_type_checks() {
    assert!(check_content_type(Some(b"application/json")).is_ok());
    assert!(matches!(check_content_type(Some(b"text/plain")), Err(Rejection::NotAcceptable)));
    assert!(matches!(check_content_type(None), Err(Rejection::MissingContentType)));
    match check_content_type(Some(&[0xe4, 0xb8, 0xad])) {
        Err(Rejection::InvalidContentType(m)) => assert_eq!(m, "failed to convert header to a str"),
        _ => panic!("non-ascii content type is invalid"),
    }
}

#[test]
fn request_checks_in_order() {
    let auth = HttpConfig::with_access_token("t".to_string()).authorization;
    assert!(matches!(check_request(&auth, None, &None, None), Err(Rejection::Unauthorized)));
    assert!(matches!(check_request(&auth, Some(b"Bearer t"), &None, None), Err(Rejection::MissingContentType)));
    assert!(check_request(&auth, Some(b"Bearer t"), &None, Some(b"application/json")).is_ok());
}

#[test]
fn rejection_statuses_and_bodies() {
    assert_eq!(Rejection::Forbidden.status(), 403);
    assert_eq!(Rejection::Unauthorized.status(), 401);
    assert_eq!(Rejection::NotAcceptable.status(), 406);
    assert_eq!(Rejection::SignatureMismatch.status(), 401);
    assert_eq!(Rejection::MissingContentType.status(), 400);
    assert_eq!(Rejection::InvalidQuery("e".to_string()).body().as_deref(), Some("invalid request query: e"));
    assert_eq!(Rejection::MissingContentType.body().as_deref(), Some("missing header `Content-Type`"));
    assert_eq!(Rejection::MissingSignature.body().as_deref(), Some("missing signature"));
    assert_eq!(Rejection::InvalidSignature.body().as_deref(), Some("invalid signature"));
    assert_eq!(Rejection::SignatureMismatch.body().as_deref(), Some("signature check failed"));
    assert_eq!(Rejection::Forbidden.body(), None);
    let r: HttpResponse<u8> = HttpResponse::Other { status: 204 };
    assert!(matches!(r, HttpResponse::Other { status: 204 }));
}

#[test]
fn ws_tokens() {
    assert!(ws_token_accepted(None, None));
    assert!(ws_token_accepted(Some("k"), Some(b"Bearer k")));
    assert!(!ws_token_accepted(Some("k"), Some(b"Bearer x")));
    assert!(!ws_token_accepted(Some("k"), None));
    assert!(!ws_token_accepted(Some("k"), Some(&[0xff])));
}

#[test]
fn signature_checks() {
    // HMAC-SHA1("key", "The quick brown fox jumps over the lazy dog")
    let body = b"The quick brown fox jumps over the lazy dog";
    let hex = "de7c9b85b8b78aa6bc8a7a36f70a90701c9db4d9";
    assert!(check_signature(None, None, body).is_ok());
    assert!(matches!(check_signature(Some("key"), None, body), Err(Rejection::MissingSignature)));
    assert!(matches!(check_signature(Some("key"), Some(&[0xc3, 0xa9, 0x41, 0x42]), body), Err(Rejection::InvalidSignature)));
    let good = format!("sha1{hex}");
    assert!(check_signature(Some("key"), Some(good.as_bytes()), body).is_ok());
    let usual = format!("sha1={hex}");
    assert!(matches!(check_signature(Some("key"), Some(usual.as_bytes()), body), Err(Rejection::SignatureMismatch)));
    let wrong = format!("sha1{}", "0".repeat(40));
    assert!(matches!(check_signature(Some("key"), Some(wrong.as_bytes()), body), Err(Rejection::SignatureMismatch)));
}

#[test]
fn header_pairs_checks() {
    let ok = vec![("x-a".to_string(), "1".to_string()), ("Content-Type".to_string(), "text/plain".to_string())];
    assert_eq!(
        hashmap_to_headers(&ok),
        Ok(vec![("x-a".to_string(), "1".to_string()), ("content-type".to_string(), "text/plain".to_string())])
    );
    let token = vec![("X-Token".to_string(), "abc".to_string())];
    assert_eq!(hashmap_to_headers(&token), Ok(vec![("x-token".to_string(), "abc".to_string())]));
    let bad_name = vec![("x-a".to_string(), "1".to_string()), ("bad name".to_string(), "v".to_string())];
    assert_eq!(hashmap_to_headers(&bad_name), Err("invalid HTTP header name".to_string()));
    let bad_value = vec![("x-a".to_string(), "line\nbreak".to_string())];
    assert_eq!(hashmap_to_headers(&bad_value), Err("failed to parse header value".to_string()));
    assert_eq!(hashmap_to_headers(&Vec::new()), Ok(Vec::new()));
}

#[test]
fn fs_error_other() {
    assert!(matches!(FsError::other("disk".to_string()), FsError::Other(m) if m == "disk"));
}

#[test]
fn storage_file_paths() {
    let s = OBFileStorage::with_settings(true, "/tmp/up".to_string());
    assert_eq!(s.mk_file_path("id1", "a.png"), "/tmp/up/id1.png");
    assert_eq!(s.mk_file_path("id2", "noext"), "/tmp/up/id2.upload");
    assert_eq!(s.mk_file_path("id3", "dir/b.tar.gz"), "/tmp/up/id3.gz");
    let d = OBFileStorage::new();
    assert_eq!(d.mk_file_path("x", "y.txt"), "/x.txt");
    let (id, path) = s.random_file("c.jpg");
    assert_eq!(id.len(), 36);
    assert_eq!(path, format!("/tmp/up/{id}.jpg"));
}

fn url(u: &str) -> UrlUpload {
    UrlUpload { url: u.to_string(), headers: None }
}

#[test]
fn storage_uploads_and_queries() {
    let mut s = OBFileStorage::with_settings(false, "/b".to_string());
    assert!(s.needs_download(&UploadKind::Url(url("http://x"))));
    assert!(!s.needs_download(&UploadKind::Path("/p".to_string())));
    let lazy = OBFileStorage::new();
    assert!(!lazy.needs_download(&UploadKind::Url(url("http://x"))));

    let id = s.commit_upload("u1".to_string(), "f.txt".to_string(), "/b/u1.txt".to_string(), UploadKind::Url(url("http://x")));
    assert_eq!(id, "u1");
    assert!(matches!(s.get_store_state("u1"), Ok(StoreState::Cached(p)) if p == "/b/u1.txt"));
    assert!(matches!(s.is_cached("u1"), Ok(true)));
    match s.get_url("u1") {
        Ok(Some(info)) => {
            assert_eq!(info.name, "f.txt");
            assert_eq!(info.inner.url, "http://x");
        }
        _ => panic!("url record has a url"),
    }

    s.commit_upload("p1".to_string(), "g.bin".to_string(), "/b/p1.bin".to_string(), UploadKind::Path("/local/g.bin".to_string()));
    assert!(matches!(s.get_store_state("p1"), Ok(StoreState::Cached(p)) if p == "/local/g.bin"));
    assert!(matches!(s.get_url("p1"), Err(UploadError::Unsupported(m)) if m == "cannot get url from path"));
    assert!(matches!(s.locate("p1"), PathLookup::Ready(info) if info.inner == "/local/g.bin" && info.name == "g.bin"));

    s.commit_upload("d1".to_string(), "h".to_string(), "/b/d1.upload".to_string(), UploadKind::Data(vec![1, 2]));
    assert!(matches!(s.get_store_state("d1"), Err(UploadError::NotExists(m)) if m == "d1"));
    assert!(matches!(s.is_cached("nope"), Err(UploadError::NotExists(m)) if m == "nope"));
    assert!(matches!(s.get_url("nope"), Ok(None)));
    assert!(matches!(s.locate("nope"), PathLookup::Missing));
}

#[test]
fn storage_record_download() {
    let mut s = OBFileStorage::with_settings(true, "/b".to_string());
    s.commit_upload("u".to_string(), "n.txt".to_string(), "/b/u.txt".to_string(), UploadKind::Url(url("http://y")));
    assert!(s.record_download("u", "/b/other.txt".to_string()).is_ok());
    assert!(matches!(s.get_store_state("u"), Ok(StoreState::Cached(p)) if p == "/b/other.txt"));
    s.commit_upload("p".to_string(), "n".to_string(), "/b/p".to_string(), UploadKind::Path("/x".to_string()));
    assert!(matches!(s.record_download("p", "/b/p".to_string()), Err(UploadError::Other(m)) if m == "`p`: expected `UploadSource::Url`"));
    assert!(matches!(s.record_download("z", "/b/z".to_string()), Err(UploadError::NotExists(m)) if m == "z"));
}

#[test]
fn storage_fragmented_lifecycle() {
    let mut s = OBFileStorage::with_settings(true, "/f".to_string());
    let id = match s.upload_fragmented(UploadFileReq::Prepare { name: "big.dat".to_string(), total_size: 10 }) {
        Ok(FragmentStep::Prepared(id)) => id,
        _ => panic!("prepare opens an upload"),
    };
    assert_eq!(id.len(), 36);
    match s.upload_fragmented(UploadFileReq::Transfer { file_id: id.clone(), offset: 5, data: vec![9] }) {
        Ok(FragmentStep::Write { path, offset, data }) => {
            assert_eq!(path, format!("/f/{id}.dat"));
            assert_eq!(offset, 5);
            assert_eq!(data, vec![9]);
        }
        _ => panic!("transfer tells where to write"),
    }
    let stored = match s.upload_fragmented(UploadFileReq::Finish { file_id: id.clone(), sha256: None }) {
        Ok(FragmentStep::Finished(n)) => n,
        _ => panic!("finish stores the file"),
    };
    assert_ne!(stored, id);
    assert!(matches!(s.get_store_state(&stored), Ok(StoreState::Cached(p)) if p == format!("/f/{id}.dat")));
    assert!(matches!(
        s.upload_fragmented(UploadFileReq::Finish { file_id: id.clone(), sha256: None }),
        Err(UploadError::NotExists(m)) if m == id
    ));
    assert!(matches!(
        s.upload_fragmented(UploadFileReq::Transfer { file_id: "missing".to_string(), offset: 0, data: vec![] }),
        Err(UploadError::NotExists(m)) if m == "missing"
    ));
}

#[test]
fn storage_lazy_url_is_recorded_with_its_path() {
    let mut s = OBFileStorage::with_settings(true, "/q".to_string());
    s.commit_upload("k".to_string(), "a.txt".to_string(), "/q/k.txt".to_string(), UploadKind::Url(url("http://z")));
    assert!(matches!(s.locate("k"), PathLookup::Ready(info) if info.inner == "/q/k.txt"));
    assert!(matches!(s.is_cached("k"), Ok(true)));
}

#[test]
fn signature_header_checks() {
    assert!(check_signature_header(None, None).is_ok());
    assert!(matches!(check_signature_header(Some("key"), None), Err(Rejection::MissingSignature)));
    assert!(matches!(check_signature_header(Some("key"), Some(&[0xe4, 0xb8, 0xad])), Err(Rejection::InvalidSignature)));
    assert!(check_signature_header(Some("key"), Some(b"sha1=00")).is_ok());
}
