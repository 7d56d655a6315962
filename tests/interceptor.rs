use std::sync::Arc;

use grpc_auth::composite::{
    apply_all, interceptors, share_members, CompositeInterceptor, Interceptor,
};
use grpc_auth::credential::{APIKeyClientInterceptor, BearerTokenInterceptor, X_API_KEY};
use grpc_auth::error::ErrorKind;

fn ascii(req: &tonic::Request<()>, key: &str) -> Vec<String> {
    req.metadata()
        .get_all(key)
        .iter()
        .map(|v| v.to_str().unwrap().to_string())
        .collect()
}

#[test]
fn test_api_key_header_none() {
    let test_object = APIKeyClientInterceptor {
        api_key: "key".to_string(),
        header_name: None,
    };

    assert_eq!("key", test_object.api_key);
    assert_eq!(X_API_KEY, test_object.header_key());
}

#[test]
fn test_api_key_header_some() {
    let test_object = APIKeyClientInterceptor {
        api_key: "key".to_string(),
        header_name: Some(String::from("alternative-key")),
    };

    assert_eq!("key", test_object.api_key);
    assert_eq!("alternative-key", test_object.header_key());
}

#[test]
fn test_macro() {
    let interceptors = interceptors(vec![
        Interceptor::ApiKey(APIKeyClientInterceptor {
            api_key: "key".to_string(),
            header_name: None,
        }),
        Interceptor::BearerToken(BearerTokenInterceptor {
            token: "token".to_string(),
        }),
    ]);

    assert_eq!(2, interceptors.lock().unwrap().len());
}

#[test]
fn test_bearer_token() {
    let test_object = BearerTokenInterceptor::new("test-token".to_string());

    assert_eq!("test-token", test_object.token);
}

#[test]
fn new_api_key_has_no_override() {
    let i = APIKeyClientInterceptor::new("secret".to_string());
    assert_eq!(i.api_key, "secret");
    assert!(i.header_name.is_none());
    assert_eq!(i.header_key(), "x-api-key");
}

#[test]
fn invalid_override_falls_back_to_default() {
    for bad in ["bad key", "", "trace-bin", "TRACE-BIN", "caf\u{e9}"] {
        let i = APIKeyClientInterceptor {
            api_key: "k".to_string(),
            header_name: Some(bad.to_string()),
        };
        assert_eq!(i.header_key(), "x-api-key", "override {bad:?}");
    }
}

#[test]
fn upper_case_override_is_folded() {
    let i = APIKeyClientInterceptor {
        api_key: "k".to_string(),
        header_name: Some("X-Custom-Key".to_string()),
    };
    assert_eq!(i.header_key(), "x-custom-key");
}

#[test]
fn api_key_is_inserted_under_resolved_header() {
    let i = APIKeyClientInterceptor {
        api_key: "s3cret value".to_string(),
        header_name: Some("My-Key".to_string()),
    };
    let mut req = tonic::Request::new(());
    req.metadata_mut().insert("other", "kept".parse().unwrap());
    req.metadata_mut().insert("my-key", "old".parse().unwrap());
    req.metadata_mut().append("my-key", "older".parse().unwrap());
    let out = i.call(req).unwrap();
    assert_eq!(ascii(&out, "my-key"), vec!["s3cret value".to_string()]);
    assert_eq!(ascii(&out, "other"), vec!["kept".to_string()]);
    assert_eq!(out.metadata().len(), 2);
}

#[test]
fn api_key_with_control_character_is_invalid_argument() {
    let i = APIKeyClientInterceptor::new("bad\nkey".to_string());
    let err = i.call(tonic::Request::new(())).unwrap_err();
    assert_eq!(err.kind, ErrorKind::InvalidArgument);
    assert_eq!(err.message, "Error while setting additional metadata");
}

#[test]
fn bearer_value_is_prefixed_token() {
    let b = BearerTokenInterceptor::new("abc.def".to_string());
    let out = b.call(tonic::Request::new(())).unwrap();
    assert_eq!(ascii(&out, "authorization"), vec!["Bearer abc.def".to_string()]);
    assert_eq!(out.metadata().len(), 1);
}

#[test]
fn bearer_with_delete_character_is_invalid_argument() {
    let b = BearerTokenInterceptor::new("tok\u{7f}en".to_string());
    let err = b.call(tonic::Request::new(())).unwrap_err();
    assert_eq!(err.kind, ErrorKind::InvalidArgument);
    assert_eq!(err.message, "Invalid Token");
}

#[test]
fn composite_sets_both_credentials() {
    let shared = interceptors(vec![
        Interceptor::ApiKey(APIKeyClientInterceptor::new("key".to_string())),
        Interceptor::BearerToken(BearerTokenInterceptor::new("token".to_string())),
    ]);
    let composite = CompositeInterceptor::new(shared);
    let out = composite.call(tonic::Request::new(())).unwrap();
    assert_eq!(out.metadata().len(), 2);
    assert_eq!(ascii(&out, "x-api-key"), vec!["key".to_string()]);
    assert_eq!(ascii(&out, "authorization"), vec!["Bearer token".to_string()]);
}

#[test]
fn empty_composite_returns_request_unchanged() {
    let composite = CompositeInterceptor::new(interceptors(vec![]));
    let mut req = tonic::Request::new(());
    req.metadata_mut().insert("a", "b".parse().unwrap());
    let out = composite.call(req).unwrap();
    assert_eq!(out.metadata().len(), 1);
    assert_eq!(ascii(&out, "a"), vec!["b".to_string()]);
}

#[test]
fn composite_stops_at_first_failure() {
    let members = share_members(vec![
        Interceptor::ApiKey(APIKeyClientInterceptor::new("key".to_string())),
        Interceptor::BearerToken(BearerTokenInterceptor::new("bad\ttoken\u{1}".to_string())),
        Interceptor::ApiKey(APIKeyClientInterceptor::new("bad\u{0}".to_string())),
    ]);
    let err = apply_all(&members, tonic::Request::new(())).unwrap_err();
    assert_eq!(err.kind, ErrorKind::InvalidArgument);
    assert_eq!(err.message, "Invalid Token");
}

#[test]
fn later_members_overwrite_earlier_ones() {
    let members = share_members(vec![
        Interceptor::ApiKey(APIKeyClientInterceptor::new("first".to_string())),
        Interceptor::ApiKey(APIKeyClientInterceptor::new("second".to_string())),
    ]);
    let out = apply_all(&members, tonic::Request::new(())).unwrap();
    assert_eq!(ascii(&out, "x-api-key"), vec!["second".to_string()]);
}

#[test]
fn shared_members_keep_order() {
    let members = share_members(vec![
        Interceptor::BearerToken(BearerTokenInterceptor::new("a".to_string())),
        Interceptor::ApiKey(APIKeyClientInterceptor::new("b".to_string())),
        Interceptor::BearerToken(BearerTokenInterceptor::new("c".to_string())),
    ]);
    assert_eq!(members.len(), 3);
    assert!(matches!(&*members[0], Interceptor::BearerToken(t) if t.token == "a"));
    assert!(matches!(&*members[1], Interceptor::ApiKey(k) if k.api_key == "b"));
    assert!(matches!(&*members[2], Interceptor::BearerToken(t) if t.token == "c"));
}

#[test]
fn membership_change_is_seen_by_next_call() {
    let shared = interceptors(vec![]);
    let composite = CompositeInterceptor::new(Arc::clone(&shared));
    shared
        .lock()
        .unwrap()
        .push(Arc::new(Interceptor::BearerToken(BearerTokenInterceptor::new("t".to_string()))));
    let out = composite.call(tonic::Request::new(())).unwrap();
    assert_eq!(ascii(&out, "authorization"), vec!["Bearer t".to_string()]);
}

fn request_with_keys(n: usize) -> tonic::Request<()> {
    let mut req = tonic::Request::new(());
    for i in 0..n {
        let key = tonic::metadata::MetadataKey::from_bytes(format!("k{i}").as_bytes()).unwrap();
        req.metadata_mut().insert(key, "v".parse().unwrap());
    }
    req
}

#[test]
fn resolve_reports_fallback() {
    let bad = APIKeyClientInterceptor {
        api_key: "k".to_string(),
        header_name: Some("no spaces".to_string()),
    };
    assert_eq!(bad.resolve_header_key(), ("x-api-key".to_string(), true));
    let good = APIKeyClientInterceptor {
        api_key: "k".to_string(),
        header_name: Some("Alt".to_string()),
    };
    assert_eq!(good.resolve_header_key(), ("alt".to_string(), false));
    let none = APIKeyClientInterceptor::new("k".to_string());
    assert_eq!(none.resolve_header_key(), ("x-api-key".to_string(), false));
}

#[test]
fn full_request_is_resource_exhausted() {
    let req = request_with_keys(6554);
    let err = BearerTokenInterceptor::new("t".to_string()).call(req).unwrap_err();
    assert_eq!(err.kind, ErrorKind::ResourceExhausted);
    assert_eq!(err.message, "Too many metadata keys");
    let req = request_with_keys(6554);
    let err = APIKeyClientInterceptor::new("k".to_string()).call(req).unwrap_err();
    assert_eq!(err.kind, ErrorKind::ResourceExhausted);
}

#[test]
fn request_at_the_bound_takes_one_more() {
    let req = request_with_keys(6553);
    let out = BearerTokenInterceptor::new("t".to_string()).call(req).unwrap();
    assert_eq!(out.metadata().keys_len(), 6554);
    assert_eq!(ascii(&out, "authorization"), vec!["Bearer t".to_string()]);
}

#[test]
fn binary_metadata_is_kept() {
    let mut req = tonic::Request::new(());
    req.metadata_mut()
        .insert_bin("trace-bin", tonic::metadata::MetadataValue::from_bytes(b"\x00\x01"));
    let out = APIKeyClientInterceptor::new("k".to_string()).call(req).unwrap();
    assert_eq!(
        out.metadata().get_bin("trace-bin").unwrap().to_bytes().unwrap().as_ref(),
        b"\x00\x01"
    );
}

#[test]
fn builder_keeps_members_in_order() {
    let shared = interceptors(vec![
        Interceptor::BearerToken(BearerTokenInterceptor::new("a".to_string())),
        Interceptor::ApiKey(APIKeyClientInterceptor::new("b".to_string())),
    ]);
    let members = shared.lock().unwrap();
    assert!(matches!(&*members[0], Interceptor::BearerToken(t) if t.token == "a"));
    assert!(matches!(&*members[1], Interceptor::ApiKey(k) if k.api_key == "b"));
}
