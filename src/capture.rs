use vstd::prelude::*;
use vstd::utf8::{encode_utf8, valid_utf8};

use crate::buffer::{encode_trace_text, report_line, terminated_buffer};

verus! {

/// Relies on `std::backtrace::Backtrace::force_capture` and its `Display`
/// rendering: a capture of the calling thread's stack, symbols resolved
/// whatever the cost. What the text holds depends on the running program, so
/// nothing is stated of it.
#[verifier::external_body]
fn capture_trace_text() -> (r: String) {
    format!("{}", std::backtrace::Backtrace::force_capture())
}

/// Captures the calling thread's stack and returns it as a freshly owned,
/// null-terminated UTF-8 buffer, or `None` where the rendered text holds a
/// zero byte.
///
/// Whatever was captured, a buffer returned is the encoding of some text
/// followed by exactly one terminator, and decodes back to that text.
pub fn stacktracer_get_stacktrace() -> (r: Option<Vec<u8>>)
    ensures
        r matches Some(b) ==> exists|text: Seq<char>|
            #[trigger] terminated_buffer(encode_utf8(text)) == Some(b@),
        r matches Some(b) ==> {
            &&& b@.len() >= 1
            &&& b@.last() == 0u8
            &&& forall|i: int| 0 <= i < b@.len() - 1 ==> b@[i] != 0u8
            &&& valid_utf8(b@.drop_last())
        },
{
    let text = capture_trace_text();
    let r = encode_trace_text(text.as_str());
    proof {
        crate::buffer::lemma_buffer_is_valid_text(text@);
    }
    r
}

/// Captures the calling thread's stack and returns the text to write to the
/// diagnostic stream: the rendered trace followed by a newline.
pub fn stacktrace_report() -> (r: String)
    ensures
        r@.len() >= 1,
        r@.last() == '\n',
        exists|text: Seq<char>| #[trigger] text.push('\n') == r@,
{
    let text = capture_trace_text();
    report_line(text.as_str())
}

} // verus!
