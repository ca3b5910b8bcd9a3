use debug_proxy::{HttpVersion, RequestInfo, RequestRecorder, ResponseInfo};

fn request(path: &str) -> RequestInfo {
    RequestInfo {
        method: "GET".to_string(),
        path: path.to_string(),
        version: HttpVersion::H2,
        headers: vec![
            ("x-a".to_string(), b"1".to_vec()),
            ("x-a".to_string(), vec![0xc3, 0xa9]),
        ],
        body: b"body".to_vec(),
        client_addr: "unknown".to_string(),
        truncate_at: 100,
    }
}

fn response(id: &str, status: u16) -> ResponseInfo {
    ResponseInfo {
        request_id: id.to_string(),
        status,
        version: HttpVersion::Http10,
        headers: vec![],
        body: b"ok".to_vec(),
        duration_ms: 7,
        truncate_at: 100,
    }
}

#[test]
fn ring_eviction_scenario() {
    let mut r = RequestRecorder::new(2);
    for p in ["/test0", "/test1", "/test2"] {
        r.record_request(request(p));
    }
    let paths: Vec<String> = r.get_transactions().into_iter().map(|t| t.request.path).collect();
    assert_eq!(paths, vec!["/test1", "/test2"]);
}

#[test]
fn ring_keeps_the_last_min_n_c() {
    for cap in 0..5usize {
        for n in 0..8usize {
            let mut r = RequestRecorder::new(cap);
            for i in 0..n {
                r.record_request(request(&format!("/{}", i)));
            }
            let paths: Vec<String> = r.get_transactions().into_iter().map(|t| t.request.path).collect();
            let keep = n.min(cap);
            let expected: Vec<String> = (n - keep..n).map(|i| format!("/{}", i)).collect();
            assert_eq!(paths, expected);
        }
    }
}

#[test]
fn records_request_fields() {
    let mut r = RequestRecorder::new(4);
    let id = r.record_request(request("/p?q=1"));
    assert_eq!(id.len(), 36);
    let t = &r.get_transactions()[0];
    assert_eq!(t.request.id, id);
    assert_eq!(t.request.version, "HTTP/2.0");
    assert_eq!(t.request.client_addr, "unknown");
    assert_eq!(t.request.path, "/p?q=1");
    assert_eq!(
        t.request.headers,
        vec![("x-a".to_string(), "1".to_string()), ("x-a".to_string(), "<invalid>".to_string())]
    );
    assert!(t.response.is_none() && t.error.is_none());
}

#[test]
fn attach_to_evicted_id_is_a_no_op() {
    let mut r = RequestRecorder::new(1);
    let first = r.record_request(request("/a"));
    let second = r.record_request(request("/b"));
    r.record_response(response(&first, 500));
    r.record_error(&first, "late".to_string());
    let ts = r.get_transactions();
    assert_eq!(ts.len(), 1);
    assert_eq!(ts[0].request.id, second);
    assert!(ts[0].response.is_none());
    assert!(ts[0].error.is_none());
}

#[test]
fn attach_goes_to_the_matching_transaction() {
    let mut r = RequestRecorder::new(3);
    let a = r.record_request(request("/a"));
    let b = r.record_request(request("/b"));
    r.record_response(response(&b, 201));
    r.record_error(&a, "boom".to_string());
    let ts = r.get_transactions();
    assert!(ts[0].response.is_none());
    assert_eq!(ts[0].error.as_deref(), Some("boom"));
    let resp = ts[1].response.as_ref().unwrap();
    assert_eq!(resp.status, 201);
    assert_eq!(resp.id, b);
    assert_eq!(resp.version, "HTTP/1.0");
    assert_eq!(resp.body.preview, "ok");
    assert!(ts[1].error.is_none());
}

#[test]
fn resize_keeps_the_most_recent_and_bounds_later_inserts() {
    let mut r = RequestRecorder::new(5);
    for i in 0..5 {
        r.record_request(request(&format!("/{}", i)));
    }
    r.resize(2);
    let paths: Vec<String> = r.get_transactions().into_iter().map(|t| t.request.path).collect();
    assert_eq!(paths, vec!["/3", "/4"]);
    r.record_request(request("/5"));
    let paths: Vec<String> = r.get_transactions().into_iter().map(|t| t.request.path).collect();
    assert_eq!(paths, vec!["/4", "/5"]);
    r.resize(10);
    assert_eq!(r.get_transactions().len(), 2);
}

#[test]
fn clear_empties_the_ring() {
    let mut r = RequestRecorder::new(3);
    r.record_request(request("/a"));
    r.record_request(request("/b"));
    r.clear();
    assert!(r.get_transactions().is_empty());
}

#[test]
fn recent_transactions_are_the_newest_in_order() {
    let mut r = RequestRecorder::new(5);
    for i in 0..4 {
        r.record_request(request(&format!("/{}", i)));
    }
    let paths: Vec<String> = r.get_recent_transactions(2).into_iter().map(|t| t.request.path).collect();
    assert_eq!(paths, vec!["/2", "/3"]);
    assert_eq!(r.get_recent_transactions(9).len(), 4);
    assert!(r.get_recent_transactions(0).is_empty());
}
