//! The request that a try sends: a `GET` for the URL, with a `Range`
//! header once part of the body has been read.

use crate::text::{decimal, decimal_value, is_digit, lemma_decimal_reads_back, push_decimal};
use vstd::prelude::*;
use vstd::string::*;

verus! {

/// A `GET` request, as the values that make it up.
#[derive(Debug)]
pub struct Request {
    /// The URL to get.
    pub url: String,
    /// The value of the `Range` header, if the request has one.
    pub range: Option<String>,
}

/// The mathematical content of a [`Request`].
pub struct RequestView {
    pub url: Seq<char>,
    pub range: Option<Seq<char>>,
}

impl View for Request {
    type V = RequestView;

    open spec fn view(&self) -> RequestView {
        RequestView {
            url: self.url@,
            range: match self.range {
                Some(text) => Some(text@),
                None => None,
            },
        }
    }
}

/// The value of a `Range` header that asks for everything from the byte
/// at `start` on.
pub open spec fn range_text(start: nat) -> Seq<char> {
    "bytes="@ + decimal(start) + "-"@
}

/// The request for a URL of which `next_byte` bytes have been read: with no
/// `Range` header at the start, and asking for the rest later.
pub open spec fn planned_request(next_byte: nat, url: Seq<char>) -> RequestView {
    RequestView {
        url,
        range: if next_byte == 0 {
            None
        } else {
            Some(range_text(next_byte))
        },
    }
}

/// The first byte that a `Range` header value of the form `bytes=N-` asks
/// for, if `text` has that form.
pub open spec fn range_start(text: Seq<char>) -> Option<nat> {
    let number = text.subrange(6, text.len() - 1);
    if text.len() >= 8 && text.subrange(0, 6) == "bytes="@ && text.last() == '-' && (forall|
        i: int,
    | 0 <= i < number.len() ==> is_digit(#[trigger] number[i])) {
        Some(decimal_value(number))
    } else {
        None
    }
}

/// Whether a character may stand in the text of a header value: visible
/// ASCII, a space or a tab.
pub open spec fn is_header_char(c: char) -> bool {
    (32 <= (c as u32) && (c as u32) < 127) || c == '\t'
}

/// Builds a `GET` request. If `next_byte` is greater than zero, the request
/// has a `Range` header for the bytes from `next_byte` on.
pub fn build_request(next_byte: usize, url: &str) -> (request: Request)
    ensures
        request@ == planned_request(next_byte as nat, url@),
{
    if next_byte == 0 {
        Request { url: url.to_owned(), range: None }
    } else {
        let mut header_value = String::from_str("bytes=");
        push_decimal(&mut header_value, next_byte as u64);
        header_value.append("-");
        Request { url: url.to_owned(), range: Some(header_value) }
    }
}

/// The `Range` header of a request names the offset that it was built for,
/// and is legal text for a header value.
pub proof fn lemma_range_names_offset(start: nat)
    ensures
        range_start(range_text(start)) == Some(start),
        forall|i: int|
            0 <= i < range_text(start).len() ==> is_header_char(#[trigger] range_text(start)[i]),
{
    reveal_strlit("bytes=");
    reveal_strlit("-");
    lemma_decimal_reads_back(start);
    let text = range_text(start);
    let digits = decimal(start);
    assert(text.len() == 6 + digits.len() + 1);
    assert(text.subrange(0, 6) =~= "bytes="@);
    assert(text.subrange(6, text.len() - 1) =~= digits);
    assert(text.last() == '-');
    assert forall|i: int| 0 <= i < text.len() implies is_header_char(#[trigger] text[i]) by {
        if 6 <= i < 6 + digits.len() {
            assert(text[i] == digits[i - 6]);
            assert(is_digit(digits[i - 6]));
        }
    }
}

} // verus!
