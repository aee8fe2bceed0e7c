use vstd::prelude::*;
use vstd::string::StringSliceAdditionalSpecFns;
use vstd::utf8::{decode_utf8, encode_utf8, encode_utf8_decode_utf8, encode_utf8_valid_utf8, valid_utf8};

verus! {

/// The buffer that stands for `bytes` across the boundary: the bytes
/// followed by a single zero terminator, or `None` where a zero byte inside
/// the text would cut it short.
pub open spec fn terminated_buffer(bytes: Seq<u8>) -> Option<Seq<u8>> {
    if bytes.contains(0u8) {
        None
    } else {
        Some(bytes.push(0u8))
    }
}

/// Encodes `text` as UTF-8 followed by one zero byte.
///
/// Returns `None` exactly when the encoded text already holds a zero byte,
/// so that no buffer handed out is ever a truncated rendering of the text.
pub fn encode_trace_text(text: &str) -> (r: Option<Vec<u8>>)
    ensures
        r matches Some(b) ==> terminated_buffer(text.spec_bytes()) == Some(b@),
        r is None <==> terminated_buffer(text.spec_bytes()) is None,
{
    let bytes = text.as_bytes();
    let mut out: Vec<u8> = Vec::new();
    let mut i: usize = 0;
    while i < bytes.len()
        invariant
            bytes@ == text.spec_bytes(),
            i <= bytes@.len(),
            out@ == bytes@.subrange(0, i as int),
            forall|k: int| 0 <= k < i ==> bytes@[k] != 0u8,
        decreases bytes@.len() - i,
    {
        let b = bytes[i];
        if b == 0 {
            assert(bytes@[i as int] == 0u8);
            assert(bytes@.contains(0u8));
            return None;
        }
        out.push(b);
        i = i + 1;
        assert(out@ =~= bytes@.subrange(0, i as int));
    }
    assert(out@ =~= bytes@);
    out.push(0u8);
    Some(out)
}

/// A buffer made from a text is valid UTF-8 up to its terminator, decodes to
/// that very text, and holds no zero byte but the last one.
pub proof fn lemma_buffer_is_valid_text(text: Seq<char>)
    ensures
        terminated_buffer(encode_utf8(text)) matches Some(b) ==> {
            &&& b.len() >= 1
            &&& b.last() == 0u8
            &&& forall|i: int| 0 <= i < b.len() - 1 ==> b[i] != 0u8
            &&& valid_utf8(b.drop_last())
            &&& decode_utf8(b.drop_last()) == text
        },
{
    broadcast use encode_utf8_valid_utf8, encode_utf8_decode_utf8;

    let bytes = encode_utf8(text);
    if !bytes.contains(0u8) {
        let b = bytes.push(0u8);
        assert(b.drop_last() =~= bytes);
        assert forall|i: int| 0 <= i < b.len() - 1 implies b[i] != 0u8 by {
            assert(b[i] == bytes[i]);
        }
    }
}

/// The line written to the diagnostic stream for a captured trace: the text
/// followed by a newline.
pub fn report_line(text: &str) -> (r: String)
    ensures
        r@ == text@.push('\n'),
{
    let mut line = text.to_owned();
    line.append("\n");
    proof {
        reveal_strlit("\n");
    }
    assert(line@ =~= text@.push('\n'));
    line
}

} // verus!
