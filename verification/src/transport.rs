//! What a transport reports when it cannot deliver a file.

use vstd::prelude::*;
use vstd::string::*;

verus! {

/// The kind of error that a transport experienced during a fetch.
///
/// Root rotation has to tell a missing file from every other failure: a
/// missing next root ends the rotation, any other failure aborts the load.
#[derive(Debug, Copy, Clone, PartialEq, Eq, Structural)]
#[non_exhaustive]
pub enum TransportErrorKind {
    /// The transport does not handle the URL's scheme.
    UnsupportedUrlScheme,
    /// The file cannot be found.
    FileNotFound,
    /// The transport failed for any other reason.
    Failure,
}

impl TransportErrorKind {
    /// The variant's name as text.
    pub open spec fn spec_name(self) -> Seq<char> {
        match self {
            TransportErrorKind::UnsupportedUrlScheme => "UnsupportedUrlScheme"@,
            TransportErrorKind::FileNotFound => "FileNotFound"@,
            TransportErrorKind::Failure => "Failure"@,
        }
    }

    /// The variant's name as text.
    pub fn name(&self) -> (r: &'static str)
        ensures
            r@ == self.spec_name(),
    {
        match self {
            TransportErrorKind::UnsupportedUrlScheme => "UnsupportedUrlScheme",
            TransportErrorKind::FileNotFound => "FileNotFound",
            TransportErrorKind::Failure => "Failure",
        }
    }
}

/// The error that a transport returns from a fetch.
#[derive(Debug)]
pub struct TransportError {
    /// The kind of error that occurred.
    pub kind: TransportErrorKind,
    /// The URL that the transport was trying to fetch.
    pub url: String,
    /// A description of the underlying error.
    pub source: String,
}

/// The mathematical content of a [`TransportError`].
pub struct TransportErrorView {
    pub kind: TransportErrorKind,
    pub url: Seq<char>,
    pub source: Seq<char>,
}

impl View for TransportError {
    type V = TransportErrorView;

    open spec fn view(&self) -> TransportErrorView {
        TransportErrorView { kind: self.kind, url: self.url@, source: self.source@ }
    }
}

/// The text that reports an unhandled URL scheme.
pub open spec fn unsupported_url_text() -> Seq<char> {
    "Transport cannot handle the given URL scheme."@
}

/// How a transport error reads as one line of text.
pub open spec fn transport_error_text(e: TransportErrorView) -> Seq<char> {
    "Transport error '"@ + e.kind.spec_name() + "' for '"@ + e.url + "', source: "@ + e.source
}

impl TransportError {
    /// Creates a transport error of the given kind for `url`, caused by `source`.
    pub fn new(kind: TransportErrorKind, url: &str, source: &str) -> (e: TransportError)
        ensures
            e@ == (TransportErrorView { kind, url: url@, source: source@ }),
    {
        TransportError { kind, url: url.to_owned(), source: source.to_owned() }
    }

    /// Creates a transport error that reports an unhandled URL scheme.
    pub fn unsupported_url(url: &str) -> (e: TransportError)
        ensures
            e@ == (TransportErrorView {
                kind: TransportErrorKind::UnsupportedUrlScheme,
                url: url@,
                source: unsupported_url_text(),
            }),
    {
        TransportError::new(
            TransportErrorKind::UnsupportedUrlScheme,
            url,
            "Transport cannot handle the given URL scheme.",
        )
    }

    /// The description of the underlying error.
    pub fn source(&self) -> (r: &str)
        ensures
            r@ == self@.source,
    {
        self.source.as_str()
    }

    /// The error as one line of text.
    pub fn message(&self) -> (r: String)
        ensures
            r@ == transport_error_text(self@),
    {
        let mut text = String::from_str("Transport error '");
        text.append(self.kind.name());
        text.append("' for '");
        text.append(self.url.as_str());
        text.append("', source: ");
        text.append(self.source.as_str());
        text
    }
}

/// The parts of a URL that a transport reads.
#[derive(Debug)]
pub struct Location {
    /// The URL as text.
    pub text: String,
    /// The scheme, in lower case and without the colon.
    pub scheme: String,
    /// The path, percent-encoded.
    pub path: String,
}

/// The mathematical content of a [`Location`].
pub struct LocationView {
    pub text: Seq<char>,
    pub scheme: Seq<char>,
    pub path: Seq<char>,
}

impl View for Location {
    type V = LocationView;

    open spec fn view(&self) -> LocationView {
        LocationView { text: self.text@, scheme: self.scheme@, path: self.path@ }
    }
}

/// The content of a location that may be absent.
pub open spec fn location_view(location: Option<Location>) -> Option<LocationView> {
    match location {
        Some(l) => Some(l@),
        None => None,
    }
}

/// What `url::Url::parse` makes of a text: nothing where it is no absolute
/// URL, else the URL written out again, its scheme and its path.
pub uninterp spec fn parsed_url(input: Seq<char>) -> Option<LocationView>;

/// `url::Url::parse`, with the parts of the URL picked out by `as_str`,
/// `scheme` and `path`.
///
/// Trusted: the result is a function of the text alone, named
/// [`parsed_url`]. Nothing more is claimed of it.
#[verifier::external_body]
fn parse_url(input: &str) -> (r: Option<Location>)
    ensures
        location_view(r) == parsed_url(input@),
{
    match url::Url::parse(input) {
        Ok(url) => Some(
            Location {
                text: url.as_str().to_owned(),
                scheme: url.scheme().to_owned(),
                path: url.path().to_owned(),
            },
        ),
        Err(_) => None,
    }
}

impl Location {
    /// Reads a text as an absolute URL.
    pub fn parse(input: &str) -> (r: Option<Location>)
        ensures
            location_view(r) == parsed_url(input@),
    {
        parse_url(input)
    }
}

/// A transport for local files.
#[derive(Debug, Clone, Copy)]
pub struct FilesystemTransport;

/// The scheme of the URLs that name local files.
pub open spec fn file_scheme() -> Seq<char> {
    "file"@
}

/// What the filesystem transport makes of a URL: for a `file` URL the path
/// of the file to open, for any other the error that reports the scheme.
pub open spec fn local_path_of(url: LocationView) -> Result<Seq<char>, TransportErrorView> {
    if url.scheme == file_scheme() {
        Ok(url.path)
    } else {
        Err(
            TransportErrorView {
                kind: TransportErrorKind::UnsupportedUrlScheme,
                url: url.text,
                source: unsupported_url_text(),
            },
        )
    }
}

/// The path or the error of a result, as mathematical content.
pub open spec fn path_result_view(r: Result<String, TransportError>) -> Result<
    Seq<char>,
    TransportErrorView,
> {
    match r {
        Ok(path) => Ok(path@),
        Err(e) => Err(e@),
    }
}

impl FilesystemTransport {
    /// The path of the local file that `url` names. Only `file` URLs name
    /// one.
    pub fn local_path(&self, url: &Location) -> (r: Result<String, TransportError>)
        ensures
            path_result_view(r) == local_path_of(url@),
    {
        let file = String::from_str("file");
        if !(url.scheme == file) {
            return Err(TransportError::unsupported_url(url.text.as_str()));
        }
        Ok(url.path.clone())
    }

    /// The error for a file that could not be opened: a missing file is
    /// told apart from every other failure.
    pub fn open_failed(&self, url: &Location, not_found: bool, cause: &str) -> (e: TransportError)
        ensures
            e@ == (TransportErrorView {
                kind: if not_found {
                    TransportErrorKind::FileNotFound
                } else {
                    TransportErrorKind::Failure
                },
                url: url@.text,
                source: cause@,
            }),
    {
        let kind = if not_found {
            TransportErrorKind::FileNotFound
        } else {
            TransportErrorKind::Failure
        };
        TransportError::new(kind, url.text.as_str(), cause)
    }
}

} // verus!
