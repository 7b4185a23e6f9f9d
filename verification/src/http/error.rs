//! The errors of the HTTP transport itself.

use vstd::prelude::*;
use vstd::string::*;

verus! {

/// The error type of the HTTP transport.
#[derive(Debug)]
#[non_exhaustive]
pub enum HttpError {
    /// An error occurred that is not tried again.
    FetchFatal { source: String },
    /// The text is no legal value of a header.
    InvalidHeader { header_value: String, source: String },
    /// The request could not be made.
    RequestBuild { source: String },
}

/// The mathematical content of an [`HttpError`].
pub enum HttpErrorView {
    FetchFatal { source: Seq<char> },
    InvalidHeader { header_value: Seq<char>, source: Seq<char> },
    RequestBuild { source: Seq<char> },
}

impl View for HttpError {
    type V = HttpErrorView;

    open spec fn view(&self) -> HttpErrorView {
        match self {
            HttpError::FetchFatal { source } => HttpErrorView::FetchFatal { source: source@ },
            HttpError::InvalidHeader { header_value, source } => HttpErrorView::InvalidHeader {
                header_value: header_value@,
                source: source@,
            },
            HttpError::RequestBuild { source } => HttpErrorView::RequestBuild { source: source@ },
        }
    }
}

/// How an HTTP error reads as one line of text.
pub open spec fn http_error_text(e: HttpErrorView) -> Seq<char> {
    match e {
        HttpErrorView::FetchFatal { source } => "A non-retryable error occurred: "@ + source,
        HttpErrorView::InvalidHeader { header_value, source } => "Invalid header value '"@
            + header_value + "': "@ + source,
        HttpErrorView::RequestBuild { source } => "Unable to create HTTP request: "@ + source,
    }
}

impl HttpError {
    /// The error as one line of text.
    pub fn message(&self) -> (r: String)
        ensures
            r@ == http_error_text(self@),
    {
        match self {
            HttpError::FetchFatal { source } => {
                let mut text = String::from_str("A non-retryable error occurred: ");
                text.append(source.as_str());
                text
            },
            HttpError::InvalidHeader { header_value, source } => {
                let mut text = String::from_str("Invalid header value '");
                text.append(header_value.as_str());
                text.append("': ");
                text.append(source.as_str());
                text
            },
            HttpError::RequestBuild { source } => {
                let mut text = String::from_str("Unable to create HTTP request: ");
                text.append(source.as_str());
                text
            },
        }
    }
}

} // verus!
