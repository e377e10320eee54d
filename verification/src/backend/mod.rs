//! Backend selection and the platform modules.
use vstd::prelude::*;
use crate::audio_core::config::StreamConfig;
use crate::audio_core::error::{AudioError, Result};
use crate::audio_core::stream::{new_stream_model, outcome_is, Stream, StreamModel};
use vstd::string::StrSliceExecFns;

pub mod android;
pub mod linux;
pub mod windows;

verus! {

/// Trait for creating streams.
///
/// `N` is what the platform contributes when a stream is created: whether it
/// is present at all, what its runtime probes found, and the native calls
/// that open a device stream. A selector decides, from the request and what
/// `native` answers, which stream (or which error) the caller gets.
pub trait AudioBackend<N> {
    /// The calls into `native` that a request for `config` may make.
    spec fn native_requires(&self, config: StreamConfig, native: N) -> bool;

    /// Create a stream for the given config.
    fn create_stream(&self, config: StreamConfig, native: N) -> Result<Stream>
        requires
            self.native_requires(config, native),
    ;
}

/// The stream a native setup answer gives: on success a new stopped stream
/// with the settings the platform agreed to, otherwise the platform's error.
pub open spec fn opened_model(opened: Result<StreamConfig>) -> Result<StreamModel> {
    match opened {
        Ok(c) => Ok(new_stream_model(c)),
        Err(e) => Err(e),
    }
}

/// Turn a native setup answer into the stream handed to the caller.
pub fn stream_from_native(opened: Result<StreamConfig>) -> (r: Result<Stream>)
    ensures
        outcome_is(r, opened_model(opened)),
{
    match opened {
        Ok(c) => Ok(Stream::new(c)),
        Err(e) => Err(e),
    }
}

/// The outcome of trying `first` and, only when it fails, `second`: the first
/// success, or the first error when both fail.
pub open spec fn fallback<T>(first: Result<T>, second: Result<T>) -> Result<T> {
    match first {
        Ok(_) => first,
        Err(e) => match second {
            Ok(_) => second,
            Err(_) => Err(e),
        },
    }
}

/// Try `first`; when it fails, try `second`. A success is returned as is; when
/// both fail, the error of `first` is returned.
///
/// `second` is run only after `first` has failed: the caller need only allow
/// the call of `second` on that condition.
pub fn create_stream_auto_with<T, A, O>(config: StreamConfig, first: A, second: O) -> (r: Result<T>)
    where
        A: FnOnce(StreamConfig) -> Result<T>,
        O: FnOnce(StreamConfig) -> Result<T>,
    requires
        first.requires((config,)),
        forall|r1: Result<T>| #[trigger] first.ensures((config,), r1) && r1 is Err ==> second.requires((config,)),
    ensures
        exists|r1: Result<T>, r2: Result<T>|
            {
                &&& first.ensures((config,), r1)
                &&& (r1 is Err ==> second.ensures((config,), r2))
                &&& r == fallback(r1, r2)
            },
{
    let first_outcome = first(config);
    let first_error = match first_outcome {
        Ok(stream) => {
            let r = Ok(stream);
            assert(first.ensures((config,), r) && r == fallback(r, r));
            return r;
        },
        Err(error) => error,
    };
    let second_outcome = second(config);
    let ghost r1: Result<T> = Err(first_error);
    match second_outcome {
        Ok(stream) => {
            let r = Ok(stream);
            assert(r == fallback(r1, r));
            r
        },
        Err(e2) => {
            let ghost r2: Result<T> = Err(e2);
            assert(Err::<T, AudioError>(first_error) == fallback(r1, r2));
            Err(first_error)
        },
    }
}

/// The first success wins; the second choice is used only after the first
/// fails; when both fail, the first error is the answer.
pub proof fn lemma_fallback_prefers_first<T>(first: Result<T>, second: Result<T>)
    ensures
        first is Ok ==> fallback(first, second) == first,
        first is Err && second is Ok ==> fallback(first, second) == second,
        first is Err && second is Err ==> fallback(first, second) == first,
{
}

/// Outcomes that match their descriptions combine under `fallback` into an
/// outcome that matches the combined description.
pub proof fn lemma_fallback_outcome(
    r1: Result<Stream>,
    r2: Result<Stream>,
    e1: Result<StreamModel>,
    e2: Result<StreamModel>,
)
    requires
        outcome_is(r1, e1),
        r1 is Err ==> outcome_is(r2, e2),
    ensures
        outcome_is(fallback(r1, r2), fallback(e1, e2)),
{
}

/// Whether `c` has the Unicode `White_Space` property, which is what
/// `char::is_whitespace` and `str::trim` go by.
pub open spec fn is_white_space(c: char) -> bool {
    ||| '\u{9}' <= c <= '\u{d}'
    ||| c == ' '
    ||| c == '\u{85}'
    ||| c == '\u{a0}'
    ||| c == '\u{1680}'
    ||| '\u{2000}' <= c <= '\u{200a}'
    ||| c == '\u{2028}'
    ||| c == '\u{2029}'
    ||| c == '\u{202f}'
    ||| c == '\u{205f}'
    ||| c == '\u{3000}'
}

/// The number of white-space characters that `text` starts with.
pub open spec fn leading_white_space(text: Seq<char>) -> nat
    decreases text.len(),
{
    if text.len() > 0 && is_white_space(text[0]) {
        1 + leading_white_space(text.drop_first())
    } else {
        0
    }
}

/// The number of white-space characters that `text` ends with.
pub open spec fn trailing_white_space(text: Seq<char>) -> nat
    decreases text.len(),
{
    if text.len() > 0 && is_white_space(text.last()) {
        1 + trailing_white_space(text.drop_last())
    } else {
        0
    }
}

/// `text` without its leading and trailing white space.
pub open spec fn trimmed(text: Seq<char>) -> Seq<char> {
    let rest = text.skip(leading_white_space(text) as int);
    rest.take(rest.len() - trailing_white_space(rest))
}

/// Trim white space from both ends of `text` by calling std's `str::trim`,
/// which removes the leading and trailing characters that have the Unicode
/// `White_Space` property.
#[verifier::external_body]
pub(crate) fn trim(text: &str) -> (r: &str)
    ensures
        r@ == trimmed(text@),
{
    text.trim()
}

/// The ASCII lowercase of a character: `'A'..='Z'` become `'a'..='z'`, every
/// other character stays as it is.
pub open spec fn ascii_lower(c: char) -> char {
    if 'A' <= c <= 'Z' {
        ((c as u32) + 32) as char
    } else {
        c
    }
}

/// A text with its ASCII letters lowercased.
pub open spec fn ascii_lowercase(text: Seq<char>) -> Seq<char> {
    text.map_values(|c: char| ascii_lower(c))
}

/// Lowercasing twice is lowercasing once.
pub proof fn lemma_ascii_lowercase_idempotent(text: Seq<char>)
    ensures
        ascii_lowercase(ascii_lowercase(text)) == ascii_lowercase(text),
{
    assert forall|i: int| 0 <= i < text.len() implies #[trigger] ascii_lower(ascii_lower(text[i])) == ascii_lower(
        text[i],
    ) by {
        let c = text[i];
        if 'A' <= c <= 'Z' {
            let d = ((c as u32) + 32) as char;
            assert(d as u32 == (c as u32) + 32);
            assert(!('A' <= d <= 'Z'));
        }
    }
    assert(ascii_lowercase(ascii_lowercase(text)) =~= ascii_lowercase(text));
}

/// Whether `text`, with its ASCII letters lowercased, is exactly `lower`.
pub fn lowercase_equals(text: &str, lower: &str) -> (r: bool)
    ensures
        r == (ascii_lowercase(text@) == lower@),
{
    let n = text.unicode_len();
    let m = lower.unicode_len();
    if n != m {
        proof {
            assert(ascii_lowercase(text@).len() != lower@.len());
        }
        return false;
    }
    let mut i: usize = 0;
    while i < n
        invariant
            n == text@.len(),
            n == lower@.len(),
            0 <= i <= n,
            forall|j: int| 0 <= j < i ==> ascii_lower(#[trigger] text@[j]) == lower@[j],
        decreases n - i,
    {
        let c = text.get_char(i);
        let lc = if 'A' <= c && c <= 'Z' {
            let code = c as u32;
            assert(65 <= code <= 90);
            let shifted = (code + 32) as u8;
            shifted as char
        } else {
            c
        };
        assert(lc == ascii_lower(c)) by {
            if 'A' <= c <= 'Z' {
                assert(((c as u32 + 32) as u8) as char == ((c as u32) + 32) as char);
            }
        }
        if lc != lower.get_char(i) {
            proof {
                assert(ascii_lowercase(text@)[i as int] != lower@[i as int]);
            }
            return false;
        }
        i = i + 1;
    }
    proof {
        assert(ascii_lowercase(text@) =~= lower@);
    }
    true
}

} // verus!
