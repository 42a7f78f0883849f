use preview1_adapter::http::{
    body_status, chunk_len, same_bytes, scheme_from_name, DefaultClient, HttpCall, Method,
    MethodKind, Request, RequestOptions, Scheme, StreamStatus,
};

#[test]
fn methods_by_name() {
    let cases: [(&str, MethodKind); 9] = [
        ("GET", MethodKind::Get),
        ("POST", MethodKind::Post),
        ("PUT", MethodKind::Put),
        ("DELETE", MethodKind::Delete),
        ("PATCH", MethodKind::Patch),
        ("CONNECT", MethodKind::Connect),
        ("TRACE", MethodKind::Trace),
        ("HEAD", MethodKind::Head),
        ("OPTIONS", MethodKind::Options),
    ];
    for (name, kind) in cases.iter() {
        let method = Method::from_name(&name.as_bytes().to_vec());
        assert_eq!(method.map(|m| m.0), Some(*kind));
    }
    for name in ["", "get", "Get", "GE", "GETS", "PROPFIND", "OPTION", "HEAD "] {
        assert!(Method::from_name(&name.as_bytes().to_vec()).is_none());
    }
}

#[test]
fn schemes_by_name() {
    assert_eq!(scheme_from_name(&b"http".to_vec()), Some(Scheme::Http));
    assert_eq!(scheme_from_name(&b"https".to_vec()), Some(Scheme::Https));
    assert_eq!(scheme_from_name(&b"".to_vec()), None);
    assert_eq!(scheme_from_name(&b"ftp".to_vec()), None);
    assert_eq!(scheme_from_name(&b"HTTP".to_vec()), None);
    assert_eq!(scheme_from_name(&b"httpss".to_vec()), None);
}

#[test]
fn bytes_compare() {
    assert!(same_bytes(&Vec::new(), &Vec::new()));
    assert!(same_bytes(&vec![1, 2, 3], &vec![1, 2, 3]));
    assert!(!same_bytes(&vec![1, 2, 3], &vec![1, 2]));
    assert!(!same_bytes(&vec![1, 2, 3], &vec![1, 2, 4]));
    assert!(!same_bytes(&vec![0, 2, 3], &vec![1, 2, 3]));
}

#[test]
fn client_handles_a_request() {
    let options = RequestOptions {
        connect_timeout_ms: Some(100),
        first_byte_timeout_ms: None,
        between_bytes_timeout_ms: Some(5),
    };
    let client = DefaultClient::new(Some(options));
    let request = Request::new(7, 9);
    assert_eq!(
        client.handle(&request),
        (
            HttpCall::Handle { request: 7, options: Some(options) },
            HttpCall::DropOutputStream { stream: 9 },
            HttpCall::DropOutgoingRequest { request: 7 },
        )
    );
    let plain = DefaultClient::new(None);
    assert_eq!(plain.handle(&request).0, HttpCall::Handle { request: 7, options: None });
}

#[test]
fn body_moves_in_chunks() {
    assert_eq!(chunk_len(100, 30), 30);
    assert_eq!(chunk_len(100, 100), 100);
    assert_eq!(chunk_len(100, 101), 100);
    assert_eq!(chunk_len(0, 10), 0);
    assert_eq!(chunk_len(10, 0), 0);
    assert_eq!(chunk_len(10, u64::MAX), 10);
    assert_eq!(body_status(0, StreamStatus::Open), StreamStatus::Ended);
    assert_eq!(body_status(0, StreamStatus::Ended), StreamStatus::Ended);
    assert_eq!(body_status(1, StreamStatus::Open), StreamStatus::Open);
    assert_eq!(body_status(1, StreamStatus::Ended), StreamStatus::Ended);
}
