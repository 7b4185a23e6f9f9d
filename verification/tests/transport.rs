use tough::{FilesystemTransport, Location, TransportError, TransportErrorKind};

fn location(text: &str, scheme: &str, path: &str) -> Location {
    Location { text: text.to_string(), scheme: scheme.to_string(), path: path.to_string() }
}

#[test]
fn new_error_holds_what_it_was_given() {
    let e = TransportError::new(
        TransportErrorKind::FileNotFound,
        "file:///tmp/6.root.json",
        "No such file or directory (os error 2)",
    );
    assert_eq!(e.kind, TransportErrorKind::FileNotFound);
    assert_eq!(e.url, "file:///tmp/6.root.json");
    assert_eq!(e.source, "No such file or directory (os error 2)");
    assert_eq!(e.source(), "No such file or directory (os error 2)");
}

#[test]
fn unsupported_url_names_the_url() {
    let e = TransportError::unsupported_url("ftp://example.com/a");
    assert_eq!(e.kind, TransportErrorKind::UnsupportedUrlScheme);
    assert_eq!(e.url, "ftp://example.com/a");
    assert_eq!(e.source, "Transport cannot handle the given URL scheme.");
}

#[test]
fn error_reads_as_one_line() {
    let e = TransportError::new(TransportErrorKind::Failure, "http://example.com/a", "broken pipe");
    assert_eq!(
        e.message(),
        "Transport error 'Failure' for 'http://example.com/a', source: broken pipe"
    );
    assert_eq!(
        TransportError::unsupported_url("ftp://h/a").message(),
        "Transport error 'UnsupportedUrlScheme' for 'ftp://h/a', source: \
         Transport cannot handle the given URL scheme."
    );
}

#[test]
fn kinds_have_their_names() {
    assert_eq!(TransportErrorKind::UnsupportedUrlScheme.name(), "UnsupportedUrlScheme");
    assert_eq!(TransportErrorKind::FileNotFound.name(), "FileNotFound");
    assert_eq!(TransportErrorKind::Failure.name(), "Failure");
    assert_eq!(format!("{:?}", TransportErrorKind::FileNotFound), "FileNotFound");
}

#[test]
fn file_url_names_a_local_path() {
    let url = location("file:///tmp/repo/1.root.json", "file", "/tmp/repo/1.root.json");
    let path = FilesystemTransport.local_path(&url).unwrap();
    assert_eq!(path, "/tmp/repo/1.root.json");
}

#[test]
fn other_scheme_is_not_handled() {
    let url = location("http://example.com/1.root.json", "http", "/1.root.json");
    let e = FilesystemTransport.local_path(&url).unwrap_err();
    assert_eq!(e.kind, TransportErrorKind::UnsupportedUrlScheme);
    assert_eq!(e.url, "http://example.com/1.root.json");
    assert_eq!(e.source, "Transport cannot handle the given URL scheme.");
    let url = location("files:///tmp/a", "files", "/tmp/a");
    assert!(FilesystemTransport.local_path(&url).is_err());
    let url = location("", "", "");
    assert!(FilesystemTransport.local_path(&url).is_err());
}

#[test]
fn missing_file_is_told_apart_from_other_failures() {
    let url = location("file:///tmp/6.root.json", "file", "/tmp/6.root.json");
    let e = FilesystemTransport.open_failed(&url, true, "No such file or directory");
    assert_eq!(e.kind, TransportErrorKind::FileNotFound);
    assert_eq!(e.url, "file:///tmp/6.root.json");
    assert_eq!(e.source, "No such file or directory");
    let e = FilesystemTransport.open_failed(&url, false, "Permission denied");
    assert_eq!(e.kind, TransportErrorKind::Failure);
    assert_eq!(e.url, "file:///tmp/6.root.json");
    assert_eq!(e.source, "Permission denied");
}

#[test]
fn parsed_file_url_has_scheme_and_path() {
    let url = Location::parse("file:///tmp/repo/metadata/1.root.json").unwrap();
    assert_eq!(url.text, "file:///tmp/repo/metadata/1.root.json");
    assert_eq!(url.scheme, "file");
    assert_eq!(url.path, "/tmp/repo/metadata/1.root.json");
    assert_eq!(FilesystemTransport.local_path(&url).unwrap(), "/tmp/repo/metadata/1.root.json");
}

#[test]
fn parsed_url_is_normalised() {
    let url = Location::parse("HTTP://Example.COM/targets/a b.txt?x=1#top").unwrap();
    assert_eq!(url.text, "http://example.com/targets/a%20b.txt?x=1#top");
    assert_eq!(url.scheme, "http");
    assert_eq!(url.path, "/targets/a%20b.txt");
    assert!(FilesystemTransport.local_path(&url).is_err());
}

#[test]
fn text_that_is_no_absolute_url_is_not_parsed() {
    assert!(Location::parse("").is_none());
    assert!(Location::parse("metadata/1.root.json").is_none());
    assert!(Location::parse("/tmp/1.root.json").is_none());
    assert!(Location::parse("http://").is_none());
}
