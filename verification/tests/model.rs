use webdav_adapter::body::Body;
use webdav_adapter::header::HeaderField;
use webdav_adapter::prefix::compute_prefix;
use webdav_adapter::request::from_native;
use webdav_adapter::version::{
    version_from_native, version_to_native, AdapterError, NativeVersion, Version,
};

fn field(name: &str, value: &str) -> HeaderField {
    HeaderField { name: name.as_bytes().to_vec(), value: value.as_bytes().to_vec() }
}

#[test]
fn version_round_trip_all_supported() {
    let versions = [Version::H09, Version::H10, Version::H11, Version::H2, Version::H3];
    for v in versions {
        let native = version_to_native(v);
        assert_eq!(version_from_native(native), Ok(v));
    }
}

#[test]
fn unrecognized_version_is_rejected() {
    assert_eq!(
        version_from_native(NativeVersion::Unrecognized),
        Err(AdapterError::UnsupportedVersion)
    );
}

#[test]
fn headers_preserved_exactly() {
    let headers = vec![
        field("X-One", "1"),
        field("x-one", "2"),
        field("X-ONE", "3"),
        field("Content-Type", "text/plain"),
        field("x-one", "2"),
    ];
    let r = from_native(
        "PROPFIND".to_string(),
        "/dav/x".to_string(),
        NativeVersion::H11,
        headers.clone(),
        b"/dav/x",
        b"x",
        Body::Empty,
    )
    .unwrap();
    assert_eq!(r.request.headers.len(), headers.len());
    for (got, expected) in r.request.headers.iter().zip(headers.iter()) {
        assert_eq!(got.name, expected.name);
        assert_eq!(got.value, expected.value);
    }
    assert_eq!(r.request.method, "PROPFIND");
    assert_eq!(r.request.target, "/dav/x");
    assert_eq!(r.request.version, Version::H11);
}

#[test]
fn from_native_rejects_unknown_version() {
    let r = from_native(
        "GET".to_string(),
        "/".to_string(),
        NativeVersion::Unrecognized,
        Vec::new(),
        b"/",
        b"",
        Body::Empty,
    );
    assert!(matches!(r, Err(AdapterError::UnsupportedVersion)));
}

#[test]
fn prefix_plus_tail_is_path() {
    let path = b"/mount/dir/file.txt";
    let tail = b"dir/file.txt";
    let p = compute_prefix(path, tail).unwrap();
    assert_eq!(p, b"/mount/".to_vec());
    let mut rebuilt = p.clone();
    rebuilt.extend_from_slice(tail);
    assert_eq!(rebuilt, path.to_vec());
}

#[test]
fn whole_path_tail_has_no_prefix() {
    assert_eq!(compute_prefix(b"/a/b", b"/a/b"), None);
}

#[test]
fn sole_slash_prefix_collapses() {
    assert_eq!(compute_prefix(b"/abc", b"abc"), None);
}

#[test]
fn empty_tail_keeps_whole_path_as_prefix() {
    assert_eq!(compute_prefix(b"/mnt", b""), Some(b"/mnt".to_vec()));
}

#[test]
fn request_prefix_is_computed() {
    let r = from_native(
        "GET".to_string(),
        "/dav/a.txt".to_string(),
        NativeVersion::H2,
        Vec::new(),
        b"/dav/a.txt",
        b"a.txt",
        Body::Empty,
    )
    .unwrap();
    assert_eq!(r.prefix(), &Some(b"/dav/".to_vec()));

    let root = from_native(
        "GET".to_string(),
        "/a.txt".to_string(),
        NativeVersion::H2,
        Vec::new(),
        b"/a.txt",
        b"/a.txt",
        Body::Empty,
    )
    .unwrap();
    assert_eq!(root.prefix(), &None);
}
