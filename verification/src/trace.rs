//! Trace lines: what a session reports at each phase transition, as text.

use crate::codec::QueryKind;
use vstd::prelude::*;
use vstd::string::*;
use vstd::utf8::{decode_utf8, valid_utf8};

verus! {

/// What a trace line reports.
#[derive(Clone, Copy, Debug, PartialEq, Eq, Structural)]
pub enum TraceLabel {
    /// The request was sent.
    Query,
    /// The server answered with a challenge.
    Challenge,
    /// The request is about to be sent again with the token appended.
    QueryChallenge,
    /// The server answered the first request with its response.
    Response,
    /// The server answered the repeated request with its response.
    ChallengedResponse,
}

/// One report of a session: a label and the datagram it speaks of.
#[derive(Clone, Debug, PartialEq, Eq)]
pub struct Trace {
    /// What happened.
    pub label: TraceLabel,
    /// The datagram that was sent or received.
    pub bytes: Vec<u8>,
}

/// A trace as a plain value.
pub struct TraceModel {
    /// What happened.
    pub label: TraceLabel,
    /// The datagram that was sent or received.
    pub bytes: Seq<u8>,
}

impl View for Trace {
    type V = TraceModel;

    open spec fn view(&self) -> TraceModel {
        TraceModel { label: self.label, bytes: self.bytes@ }
    }
}

/// The name under which a kind appears in trace lines.
pub open spec fn kind_name(kind: QueryKind) -> Seq<char> {
    match kind {
        QueryKind::Info => "A2S_INFO"@,
        QueryKind::Player => "A2S_PLAYER"@,
    }
}

/// The words that introduce the datagram in a trace line.
pub open spec fn caption(label: TraceLabel) -> Seq<char> {
    match label {
        TraceLabel::Query => "Query"@,
        TraceLabel::Challenge => "Challenge"@,
        TraceLabel::QueryChallenge => "Query Challenge"@,
        TraceLabel::Response => "Response"@,
        TraceLabel::ChallengedResponse => "Response (Challenged)"@,
    }
}

/// Whether the datagram of a trace is one that the session sends. Sent
/// datagrams are shown as a list of numbers, received ones as text.
pub open spec fn shows_request(label: TraceLabel) -> bool {
    label == TraceLabel::Query || label == TraceLabel::QueryChallenge
}

/// The character of a decimal digit.
pub open spec fn digit_char(digit: int) -> char
    recommends
        0 <= digit <= 9,
{
    if digit == 0 {
        '0'
    } else if digit == 1 {
        '1'
    } else if digit == 2 {
        '2'
    } else if digit == 3 {
        '3'
    } else if digit == 4 {
        '4'
    } else if digit == 5 {
        '5'
    } else if digit == 6 {
        '6'
    } else if digit == 7 {
        '7'
    } else if digit == 8 {
        '8'
    } else {
        '9'
    }
}

/// A natural number in decimal, without leading zeros.
pub open spec fn decimal_text(value: nat) -> Seq<char>
    decreases value,
{
    if value < 10 {
        seq![digit_char(value as int)]
    } else {
        decimal_text(value / 10).push(digit_char((value % 10) as int))
    }
}

/// The numbers of `bytes` in decimal, separated by a comma and a space.
pub open spec fn joined_decimals(bytes: Seq<u8>) -> Seq<char>
    decreases bytes.len(),
{
    if bytes.len() == 0 {
        Seq::empty()
    } else if bytes.len() == 1 {
        decimal_text(bytes[0] as nat)
    } else {
        joined_decimals(bytes.drop_last()) + seq![',', ' '] + decimal_text(bytes.last() as nat)
    }
}

/// A datagram as a bracketed list of decimal numbers, such as `[255, 0, 84]`.
pub open spec fn byte_list_text(bytes: Seq<u8>) -> Seq<char> {
    seq!['['] + joined_decimals(bytes) + seq![']']
}

/// The text that lossy UTF-8 decoding makes of `bytes`: valid sequences
/// decoded, invalid ones replaced.
pub uninterp spec fn lossy_text(bytes: Seq<u8>) -> Seq<char>;

/// The datagram of a trace as it is shown in the line.
pub open spec fn body_text(trace: TraceModel) -> Seq<char> {
    if shows_request(trace.label) {
        byte_list_text(trace.bytes)
    } else {
        lossy_text(trace.bytes)
    }
}

/// A trace line: the address, the kind, the caption, a colon and the body,
/// separated by single spaces.
pub open spec fn line_text(
    address: Seq<char>,
    kind: QueryKind,
    label: TraceLabel,
    body: Seq<char>,
) -> Seq<char> {
    address + seq![' '] + kind_name(kind) + seq![' '] + caption(label) + seq![':', ' '] + body
}

/// The line that reports `trace` for the session of `address` and `kind`.
pub open spec fn trace_text(address: Seq<char>, kind: QueryKind, trace: TraceModel) -> Seq<char> {
    line_text(address, kind, trace.label, body_text(trace))
}

/// The name of `kind` in trace lines.
pub fn kind_label(kind: QueryKind) -> (name: &'static str)
    ensures
        name@ == kind_name(kind),
{
    match kind {
        QueryKind::Info => "A2S_INFO",
        QueryKind::Player => "A2S_PLAYER",
    }
}

/// The caption of `label` in trace lines.
pub fn caption_label(label: TraceLabel) -> (words: &'static str)
    ensures
        words@ == caption(label),
{
    match label {
        TraceLabel::Query => "Query",
        TraceLabel::Challenge => "Challenge",
        TraceLabel::QueryChallenge => "Query Challenge",
        TraceLabel::Response => "Response",
        TraceLabel::ChallengedResponse => "Response (Challenged)",
    }
}

fn digit_text(digit: u8) -> (text: &'static str)
    requires
        digit <= 9,
    ensures
        text@ == seq![digit_char(digit as int)],
{
    proof {
        reveal_strlit("0");
        reveal_strlit("1");
        reveal_strlit("2");
        reveal_strlit("3");
        reveal_strlit("4");
        reveal_strlit("5");
        reveal_strlit("6");
        reveal_strlit("7");
        reveal_strlit("8");
        reveal_strlit("9");
    }
    if digit == 0 {
        "0"
    } else if digit == 1 {
        "1"
    } else if digit == 2 {
        "2"
    } else if digit == 3 {
        "3"
    } else if digit == 4 {
        "4"
    } else if digit == 5 {
        "5"
    } else if digit == 6 {
        "6"
    } else if digit == 7 {
        "7"
    } else if digit == 8 {
        "8"
    } else {
        "9"
    }
}

fn append_decimal(out: &mut String, value: u8)
    ensures
        final(out)@ == old(out)@ + decimal_text(value as nat),
{
    let ones: u8 = value % 10;
    let tens: u8 = (value / 10) % 10;
    let hundreds: u8 = value / 100;
    proof {
        reveal_with_fuel(decimal_text, 3);
    }
    if value >= 100 {
        out.append(digit_text(hundreds));
        out.append(digit_text(tens));
        out.append(digit_text(ones));
    } else if value >= 10 {
        out.append(digit_text(tens));
        out.append(digit_text(ones));
    } else {
        out.append(digit_text(ones));
    }
}

/// Writes a datagram as a bracketed list of decimal numbers.
pub fn byte_list(bytes: &[u8]) -> (text: String)
    ensures
        text@ == byte_list_text(bytes@),
{
    proof {
        reveal_strlit("[");
        reveal_strlit("]");
    }
    let mut text = String::from_str("[");
    let mut i: usize = 0;
    while i < bytes.len()
        invariant
            i <= bytes@.len(),
            text@ == seq!['['] + joined_decimals(bytes@.take(i as int)),
        decreases bytes@.len() - i,
    {
        let ghost before = bytes@.take(i as int);
        let ghost after = bytes@.take(i + 1);
        if i > 0 {
            text.append(", ");
        }
        append_decimal(&mut text, bytes[i]);
        proof {
            reveal_strlit(", ");
            assert(after.drop_last() =~= before);
        }
        i += 1;
    }
    text.append("]");
    proof {
        assert(bytes@.take(i as int) =~= bytes@);
    }
    text
}

/// `String::from_utf8_lossy` of std: the text of `bytes` read as UTF-8, with
/// each invalid sequence replaced. The contract claims that the text depends
/// on the bytes alone, and that bytes which are valid UTF-8 give the text
/// that they encode.
#[verifier::external_body]
fn decode_lossy(bytes: &[u8]) -> (text: String)
    ensures
        text@ == lossy_text(bytes@),
        valid_utf8(bytes@) ==> text@ == decode_utf8(bytes@),
{
    String::from_utf8_lossy(bytes).into_owned()
}

/// Puts a trace line together from its parts.
pub fn compose_line(address: &str, kind: QueryKind, label: TraceLabel, body: &str) -> (line:
    String)
    ensures
        line@ == line_text(address@, kind, label, body@),
{
    proof {
        reveal_strlit(" ");
        reveal_strlit(": ");
    }
    let mut line = String::from_str(address);
    line.append(" ");
    line.append(kind_label(kind));
    line.append(" ");
    line.append(caption_label(label));
    line.append(": ");
    line.append(body);
    line
}

/// Renders the line that reports `trace` for the session of `address` and
/// `kind`. A datagram that was sent is listed byte by byte; one that was
/// received is read as text.
pub fn render_trace(address: &str, kind: QueryKind, trace: &Trace) -> (line: String)
    ensures
        line@ == trace_text(address@, kind, trace@),
        !shows_request(trace@.label) && valid_utf8(trace@.bytes) ==> line@ == line_text(
            address@,
            kind,
            trace@.label,
            decode_utf8(trace@.bytes),
        ),
{
    let body = match trace.label {
        TraceLabel::Query | TraceLabel::QueryChallenge => byte_list(trace.bytes.as_slice()),
        _ => decode_lossy(trace.bytes.as_slice()),
    };
    compose_line(address, kind, trace.label, body.as_str())
}

} // verus!
