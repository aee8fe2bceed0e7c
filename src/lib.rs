//! Capturing the calling thread's stack as text, and the encoding of that
//! text into a null-terminated byte buffer that a foreign caller can own.
//!
//! The boundary itself (raw handles, the C calling convention, writing to
//! the diagnostic stream) stands outside the verified part: here every
//! operation works on owned, plain values.

pub mod buffer;
pub mod capture;

pub use buffer::{encode_trace_text, report_line};
pub use capture::{stacktrace_report, stacktracer_get_stacktrace};
