//! Keeping to one running copy of the program: the port it claims, the
//! message that asks the running copy to quit, and the errors of doing so.
//! The sockets themselves belong to the program around the library.
use vstd::prelude::*;
use vstd::utf8::{decode_utf8, valid_utf8};
use crate::text::{
    chars_of, is_space, lemma_trim_end_is_prefix, lemma_trim_start_is_suffix, push_str,
    same_text, starts_with, trim, trim_start, trimmed, string_from_chars,
};

verus! {

broadcast use vstd::string::group_string_axioms;

#[verifier::external_type_specification]
#[verifier::external_body]
pub struct ExIoError(std::io::Error);

/// The local port whose owner is the running copy.
pub const SINGLE_INSTANCE_PORT: u16 = 8765;

/// What a second copy sends to ask the running one to quit.
pub const SHUTDOWN_MESSAGE: &'static str = "SHUTDOWN";

/// Why this copy could not claim the port or signal the running copy.
#[derive(Debug)]
pub enum SingleInstanceError {
    AlreadyRunning,
    ToggleFailed(std::io::Error),
    ServerError(std::io::Error),
}

/// std's `Display` text of an I/O error. It comes from the operating
/// system, so nothing is promised of it.
#[verifier::external_body]
fn io_error_text(e: &std::io::Error) -> (r: String) {
    e.to_string()
}

impl SingleInstanceError {
    /// The message shown for this error, with `detail` as the system's
    /// account of the I/O error behind it.
    pub fn message_with(&self, detail: &str) -> (r: String)
        ensures
            match self {
                SingleInstanceError::AlreadyRunning => r@ == "Another instance of cihui-tui is already running"@,
                SingleInstanceError::ToggleFailed(_) => r@ == "Failed to send toggle signal: "@ + detail@,
                SingleInstanceError::ServerError(_) => r@ == "Server error: "@ + detail@,
            },
    {
        match self {
            SingleInstanceError::AlreadyRunning => "Another instance of cihui-tui is already running".to_string(),
            SingleInstanceError::ToggleFailed(_) => {
                let mut r = "Failed to send toggle signal: ".to_string();
                push_str(&mut r, detail);
                r
            },
            SingleInstanceError::ServerError(_) => {
                let mut r = "Server error: ".to_string();
                push_str(&mut r, detail);
                r
            },
        }
    }

    /// The message shown for this error: [`Self::message_with`] given the
    /// system's text for the I/O error, which the contract cannot state.
    pub fn message(&self) -> (r: String)
        ensures
            match self {
                SingleInstanceError::AlreadyRunning => r@ == "Another instance of cihui-tui is already running"@,
                SingleInstanceError::ToggleFailed(_) => starts_with(r@, "Failed to send toggle signal: "@),
                SingleInstanceError::ServerError(_) => starts_with(r@, "Server error: "@),
            },
    {
        let detail = match self {
            SingleInstanceError::AlreadyRunning => String::new(),
            SingleInstanceError::ToggleFailed(e) => io_error_text(e),
            SingleInstanceError::ServerError(e) => io_error_text(e),
        };
        let r = self.message_with(detail.as_str());
        proof {
            match self {
                SingleInstanceError::ToggleFailed(_) => {
                    assert(r@.take("Failed to send toggle signal: "@.len() as int)
                        == "Failed to send toggle signal: "@);
                },
                SingleInstanceError::ServerError(_) => {
                    assert(r@.take("Server error: "@.len() as int) == "Server error: "@);
                },
                _ => {},
            }
        }
        r
    }
}

/// std's `String::from_utf8_lossy`: valid UTF-8 decodes to its characters,
/// and any invalid sequence comes out as U+FFFD.
#[verifier::external_body]
fn decode_lossy(bytes: &[u8]) -> (r: String)
    ensures
        valid_utf8(bytes@) ==> r@ == decode_utf8(bytes@),
        !valid_utf8(bytes@) ==> r@.contains('\u{FFFD}'),
{
    String::from_utf8_lossy(bytes).into_owned()
}

/// Whether `bytes`, received on the port, ask the running copy to quit:
/// valid UTF-8 that reads `SHUTDOWN` once surrounding whitespace is gone.
pub open spec fn is_shutdown_request(bytes: Seq<u8>) -> bool {
    valid_utf8(bytes) && trim(decode_utf8(bytes)) == "SHUTDOWN"@
}

/// Every character of `s` that is not whitespace survives trimming.
proof fn lemma_trim_keeps_visible(s: Seq<char>, i: int)
    requires
        0 <= i < s.len(),
        !is_space(s[i]),
    ensures
        trim(s).contains(s[i]),
{
    lemma_trim_start_is_suffix(s);
    let a = trim_start(s);
    let k = s.len() - a.len();
    lemma_trim_end_is_prefix(a);
    assert(i >= k);
    assert(a[i - k] == s[i]);
    assert(trim(s)[i - k] == s[i]);
}

pub fn is_shutdown_message(bytes: &[u8]) -> (r: bool)
    ensures
        r == is_shutdown_request(bytes@),
{
    let text = decode_lossy(bytes);
    let chars = chars_of(text.as_str());
    let t = trimmed(&chars);
    let t_text = string_from_chars(&t);
    let r = same_text(t_text.as_str(), SHUTDOWN_MESSAGE);
    proof {
        reveal_strlit("SHUTDOWN");
        if r && !valid_utf8(bytes@) {
            let i = choose|i: int| 0 <= i < text@.len() && text@[i] == '\u{FFFD}';
            lemma_trim_keeps_visible(text@, i);
            let j = choose|j: int| 0 <= j < trim(text@).len() && trim(text@)[j] == '\u{FFFD}';
            assert(trim(text@)[j] == "SHUTDOWN"@[j]);
        }
    }
    r
}

/// The message a second copy sends is the one the running copy takes as a
/// request to quit.
pub proof fn law_the_sent_message_is_recognised()
    ensures
        is_shutdown_request(vstd::utf8::encode_utf8(SHUTDOWN_MESSAGE@)),
{
    reveal_strlit("SHUTDOWN");
    let s = SHUTDOWN_MESSAGE@;
    vstd::utf8::encode_utf8_valid_utf8(s);
    vstd::utf8::encode_utf8_decode_utf8(s);
    assert(!is_space(s[0]));
    assert(crate::text::trim_start(s) == s);
    assert(!is_space(s.last()));
    assert(crate::text::trim_end(s) == s);
}

} // verus!
