//! The debug trace of forwarded traffic: each chunk can be rendered as lossy
//! text, tagged with the flow it travelled on, for an operator to read.
//!
//! Rendering is observation only — the chunk itself is forwarded untouched;
//! the copy machinery never looks at the rendered text.

use vstd::prelude::*;
use vstd::string::StringExecFns;

use crate::copy::Flow;

verus! {

/// The lossy-text rendering of a byte sequence: valid UTF-8 as itself,
/// anything else with the replacement character in place of the invalid
/// bytes. It depends on the bytes alone.
pub uninterp spec fn lossy_text_of(bytes: Seq<u8>) -> Seq<char>;

/// Relies on `String::from_utf8_lossy`: renders the bytes as text, replacing
/// invalid UTF-8 with U+FFFD; the result is a function of the bytes alone
/// and the bytes themselves are not modified.
#[verifier::external_body]
fn render_lossy(bytes: &Vec<u8>) -> (r: String)
    ensures
        r@ == lossy_text_of(bytes@),
{
    String::from_utf8_lossy(bytes).into_owned()
}

/// The tag a flow's traffic carries in the log: client bytes one way,
/// server bytes the other.
pub open spec fn flow_tag(flow: Flow) -> Seq<char> {
    match flow {
        Flow::Up => "<< "@,
        Flow::Down => ">> "@,
    }
}

/// The debug log line for one forwarded chunk: the flow's tag, then the
/// chunk rendered as lossy text. The chunk is only read, never changed.
pub fn trace_line(flow: Flow, chunk: &Vec<u8>) -> (line: String)
    ensures
        line@ == flow_tag(flow) + lossy_text_of(chunk@),
{
    let tag: &str = match flow {
        Flow::Up => "<< ",
        Flow::Down => ">> ",
    };
    let text = render_lossy(chunk);
    String::from_str(tag).concat(text.as_str())
}

} // verus!
