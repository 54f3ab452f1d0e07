use webdav_adapter::body::{Body, DavBody};
use webdav_adapter::config::{dav_dir, dav_file, plan_dispatch, DavConfig, DispatchPlan, FsChoice, LsChoice};
use webdav_adapter::header::HeaderField;
use webdav_adapter::message::CanonicalResponse;
use webdav_adapter::response::{plan_response, BodyEncoding};
use webdav_adapter::version::{NativeVersion, Version};

fn field(name: &str, value: &str) -> HeaderField {
    HeaderField { name: name.as_bytes().to_vec(), value: value.as_bytes().to_vec() }
}

fn response(status: u16, body: Body) -> CanonicalResponse {
    CanonicalResponse {
        status,
        version: Version::H2,
        headers: vec![field("DAV", "1,2"), field("X-Extra", "yes")],
        body,
    }
}

#[test]
fn status_headers_and_version_copied_verbatim() {
    let plan = plan_response(response(207, Body::Empty));
    assert_eq!(plan.status, 207);
    assert_eq!(plan.version, NativeVersion::H2);
    assert_eq!(plan.headers.len(), 2);
    assert_eq!(plan.headers[0].name, b"DAV".to_vec());
    assert_eq!(plan.headers[0].value, b"1,2".to_vec());
    assert_eq!(plan.headers[1].name, b"X-Extra".to_vec());
}

#[test]
fn empty_body_takes_buffered_path() {
    let plan = plan_response(response(200, Body::Empty));
    assert!(matches!(plan.encoding, BodyEncoding::Buffered(None)));
}

#[test]
fn absent_and_empty_buffers_both_buffered() {
    let plan = plan_response(response(200, Body::Bytes(None)));
    assert!(matches!(plan.encoding, BodyEncoding::Buffered(None)));
    let plan = plan_response(response(200, Body::Bytes(Some(b"hello".to_vec()))));
    match plan.encoding {
        BodyEncoding::Buffered(Some(b)) => assert_eq!(b, b"hello".to_vec()),
        other => panic!("expected a buffered body, got {:?}", other),
    }
}

#[test]
fn stream_body_takes_streaming_path() {
    let plan = plan_response(response(200, Body::Stream(DavBody::new())));
    assert!(matches!(plan.encoding, BodyEncoding::Streamed(_)));
}

#[test]
fn status_204_stream_forced_to_buffered_empty() {
    let plan = plan_response(response(204, Body::Stream(DavBody::new())));
    assert!(matches!(plan.encoding, BodyEncoding::Buffered(None)));
    assert_eq!(plan.status, 204);
}

#[test]
fn dav_dir_builds_directory_configuration() {
    let c = dav_dir(b"/srv/files".to_vec(), true, true, None);
    assert_eq!(c.fs, Some(FsChoice::LocalDir(b"/srv/files".to_vec())));
    assert_eq!(c.ls, LsChoice::Fake);
    assert!(c.auto_index);
    assert_eq!(c.index_file, Some(b"index.html".to_vec()));
    assert_eq!(c.prefix, None);
    assert_eq!(c.principal, None);

    let plain = dav_dir(b"/srv/files".to_vec(), false, false, None);
    assert_eq!(plain.index_file, None);
    assert!(!plain.auto_index);
}

#[test]
fn dav_file_builds_single_file_configuration() {
    let c = dav_file(b"/srv/report.pdf".to_vec());
    assert_eq!(c.fs, Some(FsChoice::LocalFile(b"/srv/report.pdf".to_vec())));
    assert_eq!(c.ls, LsChoice::Fake);
    assert_eq!(c.index_file, None);
}

#[test]
fn configured_prefix_wins_over_per_request() {
    let c = DavConfig::new().strip_prefix(b"/mnt".to_vec());
    assert_eq!(plan_dispatch(&c, b"/other/x", b"x"), DispatchPlan::Configured);
}

#[test]
fn per_request_prefix_computed_when_unconfigured() {
    let c = DavConfig::new();
    assert_eq!(
        plan_dispatch(&c, b"/dav/a.txt", b"a.txt"),
        DispatchPlan::PerRequest(Some(b"/dav/".to_vec()))
    );
    assert_eq!(plan_dispatch(&c, b"/a.txt", b"/a.txt"), DispatchPlan::PerRequest(None));
}
