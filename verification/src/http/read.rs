//! Reading the body of a response, and what to do when a read fails
//! partway.

use super::request::{planned_request, range_start, range_text, lemma_range_names_offset};
use super::retry::RetryState;
use super::settings::ClientSettings;
use crate::text::{contains_bytes, occurs_in};
use vstd::prelude::*;

verus! {

/// The state of a body that is being read: the retry counter, the settings,
/// what the response said of byte ranges, and the URL to ask again.
#[derive(Debug)]
pub struct RetryRead {
    /// The retry counter, which counts the bytes read as well.
    pub retry_state: RetryState,
    /// The settings that the request was made with.
    pub settings: ClientSettings,
    /// The value of the response's `Accept-Ranges` header, if it has one.
    pub accept_ranges: Option<Vec<u8>>,
    /// The URL that is being read.
    pub url: String,
}

/// The mathematical content of a [`RetryRead`].
pub struct RetryReadView {
    pub retry_state: RetryState,
    pub settings: ClientSettings,
    pub accept_ranges: Option<Seq<u8>>,
    pub url: Seq<char>,
}

/// The bytes of a header value that may be absent.
pub open spec fn header_view(header: Option<Vec<u8>>) -> Option<Seq<u8>> {
    match header {
        Some(value) => Some(value@),
        None => None,
    }
}

impl View for RetryRead {
    type V = RetryReadView;

    open spec fn view(&self) -> RetryReadView {
        RetryReadView {
            retry_state: self.retry_state,
            settings: self.settings,
            accept_ranges: header_view(self.accept_ranges),
            url: self.url@,
        }
    }
}

/// What one read of the response's body came back with.
#[derive(Debug)]
pub enum ReadOutcome {
    /// So many bytes were read.
    Data(usize),
    /// The read failed, for the reason given.
    Failed { cause: String },
}

/// The mathematical content of a [`ReadOutcome`].
pub enum ReadOutcomeView {
    Data(usize),
    Failed { cause: Seq<char> },
}

impl View for ReadOutcome {
    type V = ReadOutcomeView;

    open spec fn view(&self) -> ReadOutcomeView {
        match self {
            ReadOutcome::Data(n) => ReadOutcomeView::Data(*n),
            ReadOutcome::Failed { cause } => ReadOutcomeView::Failed { cause: cause@ },
        }
    }
}

/// What to do after one read of the response's body.
#[derive(Debug)]
pub enum ReadStep {
    /// Hand so many bytes to the reader.
    Deliver(usize),
    /// Hand the read's error to the reader.
    Surface { cause: String },
    /// Pause for `wait` milliseconds, then fetch again from the retry state
    /// as it now is, and read on from the new response.
    Resume { wait: u64 },
}

/// The mathematical content of a [`ReadStep`].
pub enum ReadStepView {
    Deliver(usize),
    Surface { cause: Seq<char> },
    Resume { wait: u64 },
}

impl View for ReadStep {
    type V = ReadStepView;

    open spec fn view(&self) -> ReadStepView {
        match self {
            ReadStep::Deliver(n) => ReadStepView::Deliver(*n),
            ReadStep::Surface { cause } => ReadStepView::Surface { cause: cause@ },
            ReadStep::Resume { wait } => ReadStepView::Resume { wait: *wait },
        }
    }
}

/// Whether a byte of a header value is visible ASCII, a space or a tab.
pub open spec fn is_text_byte(b: u8) -> bool {
    (32 <= b && b < 127) || b == 9
}

/// Whether a header value can be read as text.
pub open spec fn is_header_text(value: Seq<u8>) -> bool {
    forall|i: int| 0 <= i < value.len() ==> is_text_byte(#[trigger] value[i])
}

/// The bytes of the word `bytes`.
pub open spec fn bytes_word() -> Seq<u8> {
    seq![98u8, 121u8, 116u8, 101u8, 115u8]
}

/// Whether an `Accept-Ranges` header says that the server takes byte
/// ranges: it is there, it is text, and the text holds the word `bytes`.
pub open spec fn advertises_ranges(accept_ranges: Option<Seq<u8>>) -> bool {
    match accept_ranges {
        Some(value) => is_header_text(value) && occurs_in(bytes_word(), value),
        None => false,
    }
}

/// What a read that came back with `outcome` leads to, and the state that
/// it leaves.
///
/// Bytes that were read are counted and delivered. A failed read is handed
/// on when no try is left, or when the server does not take byte ranges:
/// to start over from the first byte would hand the reader bytes twice.
/// Otherwise the request is made again for the bytes not yet read.
pub open spec fn read_step(read: RetryReadView, outcome: ReadOutcomeView) -> (
    RetryReadView,
    ReadStepView,
) {
    match outcome {
        ReadOutcomeView::Data(n) => (
            RetryReadView {
                retry_state: RetryState {
                    next_byte: (read.retry_state.next_byte + n) as usize,
                    ..read.retry_state
                },
                ..read
            },
            ReadStepView::Deliver(n),
        ),
        ReadOutcomeView::Failed { cause } => if read.retry_state.out_of_tries(read.settings) {
            (read, ReadStepView::Surface { cause })
        } else {
            let counted = RetryReadView {
                retry_state: read.retry_state.incremented(read.settings),
                ..read
            };
            if advertises_ranges(read.accept_ranges) {
                (counted, ReadStepView::Resume { wait: counted.retry_state.wait })
            } else {
                (counted, ReadStepView::Surface { cause })
            }
        },
    }
}

/// `reqwest::header::HeaderValue::to_str`, on the bytes of a header value.
///
/// Trusted: `to_str` succeeds exactly when every byte is visible ASCII, a
/// space or a tab. `HeaderValue::from_bytes`, which makes the value here,
/// refuses only bytes that `to_str` refuses too.
#[verifier::external_body]
fn header_is_text(value: &[u8]) -> (r: bool)
    ensures
        r == is_header_text(value@),
{
    match reqwest::header::HeaderValue::from_bytes(value) {
        Ok(header) => header.to_str().is_ok(),
        Err(_) => false,
    }
}

impl RetryRead {
    /// Whether the response said `Accept-Ranges: bytes`.
    pub fn supports_range(&self) -> (r: bool)
        ensures
            r == advertises_ranges(self@.accept_ranges),
    {
        match &self.accept_ranges {
            Some(value) => {
                if header_is_text(value.as_slice()) {
                    let word: Vec<u8> = vec![98u8, 121u8, 116u8, 101u8, 115u8];
                    assert(word@ =~= bytes_word());
                    contains_bytes(value.as_slice(), word.as_slice())
                } else {
                    false
                }
            },
            None => false,
        }
    }

    /// Hands back the error of a failed read when the server does not take
    /// byte ranges. That is final: the read is not started over from the
    /// first byte.
    pub fn err_if_no_range_support(&self, e: String) -> (r: Result<(), String>)
        ensures
            advertises_ranges(self@.accept_ranges) ==> r == Ok::<(), String>(()),
            !advertises_ranges(self@.accept_ranges) ==> r == Err::<(), String>(e),
    {
        if !self.supports_range() {
            return Err(e);
        }
        Ok(())
    }

    /// Decides what follows one read of the body, counting what was read and
    /// what was tried.
    pub fn read(&mut self, outcome: ReadOutcome) -> (step: ReadStep)
        requires
            outcome matches ReadOutcome::Data(n) ==> old(self).retry_state.next_byte + n
                <= usize::MAX,
        ensures
            (final(self)@, step@) == read_step(old(self)@, outcome@),
    {
        match outcome {
            ReadOutcome::Data(n) => {
                self.retry_state.next_byte += n;
                ReadStep::Deliver(n)
            },
            ReadOutcome::Failed { cause } => {
                let settings = self.settings;
                if self.retry_state.is_out_of_tries(&settings) {
                    // No try is left: the last error is the answer.
                    return ReadStep::Surface { cause };
                }
                self.retry_state.increment(&settings);
                match self.err_if_no_range_support(cause) {
                    Err(cause) => ReadStep::Surface { cause },
                    Ok(()) => ReadStep::Resume { wait: self.retry_state.wait },
                }
            },
        }
    }

    /// Takes over the response of a fetch that resumed this read. The retry
    /// counter stays: the fetch has counted its tries in it already.
    pub fn resume_with(&mut self, fetched: RetryRead)
        ensures
            final(self)@ == (RetryReadView {
                accept_ranges: fetched@.accept_ranges,
                ..old(self)@
            }),
    {
        self.accept_ranges = fetched.accept_ranges;
    }
}

/// A read that fails while tries are left, on a server that takes byte
/// ranges, is followed by a request for the bytes from the offset already
/// read on; on a server that does not, the failure is handed on and no
/// request follows. The bytes read before are counted either way.
pub proof fn lemma_resume_asks_for_the_rest(read: RetryReadView, cause: Seq<char>)
    requires
        !read.retry_state.out_of_tries(read.settings),
    ensures
        ({
            let (after, step) = read_step(read, ReadOutcomeView::Failed { cause });
            let request = planned_request(after.retry_state.next_byte as nat, after.url);
            &&& after.retry_state.next_byte == read.retry_state.next_byte
            &&& after.url == read.url
            &&& advertises_ranges(read.accept_ranges) ==> {
                &&& step is Resume
                &&& read.retry_state.next_byte == 0 ==> request.range is None
                &&& read.retry_state.next_byte > 0 ==> {
                    &&& request.range == Some(range_text(read.retry_state.next_byte as nat))
                    &&& range_start(request.range->0) == Some(read.retry_state.next_byte as nat)
                }
            }
            &&& !advertises_ranges(read.accept_ranges) ==> step == (ReadStepView::Surface {
                cause,
            })
        }),
{
    lemma_range_names_offset(read.retry_state.next_byte as nat);
}

} // verus!
