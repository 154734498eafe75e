use a2s_query::codec::{build_request, QueryKind};
use a2s_query::trace::{
    byte_list, caption_label, compose_line, kind_label, render_trace, Trace, TraceLabel,
};

#[test]
fn kinds_have_their_protocol_names() {
    assert_eq!(kind_label(QueryKind::Info), "A2S_INFO");
    assert_eq!(kind_label(QueryKind::Player), "A2S_PLAYER");
}

#[test]
fn labels_have_their_captions() {
    assert_eq!(caption_label(TraceLabel::Query), "Query");
    assert_eq!(caption_label(TraceLabel::Challenge), "Challenge");
    assert_eq!(caption_label(TraceLabel::QueryChallenge), "Query Challenge");
    assert_eq!(caption_label(TraceLabel::Response), "Response");
    assert_eq!(caption_label(TraceLabel::ChallengedResponse), "Response (Challenged)");
}

#[test]
fn an_empty_datagram_is_an_empty_list() {
    assert_eq!(byte_list(&[]), "[]");
}

#[test]
fn a_single_byte_is_listed_without_separator() {
    assert_eq!(byte_list(&[0]), "[0]");
    assert_eq!(byte_list(&[7]), "[7]");
    assert_eq!(byte_list(&[10]), "[10]");
    assert_eq!(byte_list(&[99]), "[99]");
    assert_eq!(byte_list(&[100]), "[100]");
    assert_eq!(byte_list(&[109]), "[109]");
    assert_eq!(byte_list(&[200]), "[200]");
    assert_eq!(byte_list(&[255]), "[255]");
}

#[test]
fn bytes_are_separated_by_comma_and_space() {
    assert_eq!(byte_list(&[255, 0, 84]), "[255, 0, 84]");
    assert_eq!(byte_list(&[1, 2]), "[1, 2]");
    assert_eq!(byte_list(&[0, 0, 0, 0]), "[0, 0, 0, 0]");
}

#[test]
fn byte_list_agrees_with_debug_formatting_on_every_byte() {
    for value in 0..=255u8 {
        assert_eq!(byte_list(&[value]), format!("{:?}", [value]));
    }
    let all: Vec<u8> = (0..=255u8).collect();
    assert_eq!(byte_list(&all), format!("{:?}", all));
    let request = build_request(QueryKind::Info);
    assert_eq!(byte_list(&request), format!("{:?}", request));
}

#[test]
fn compose_line_joins_its_parts_with_single_spaces() {
    assert_eq!(
        compose_line("10.0.0.1:27015", QueryKind::Info, TraceLabel::Response, "hello"),
        "10.0.0.1:27015 A2S_INFO Response: hello"
    );
    assert_eq!(
        compose_line("host:1", QueryKind::Player, TraceLabel::ChallengedResponse, ""),
        "host:1 A2S_PLAYER Response (Challenged): "
    );
    assert_eq!(
        compose_line("", QueryKind::Info, TraceLabel::QueryChallenge, "[1]"),
        " A2S_INFO Query Challenge: [1]"
    );
}

#[test]
fn a_query_trace_lists_the_request_bytes() {
    let trace = Trace { label: TraceLabel::Query, bytes: build_request(QueryKind::Info) };
    assert_eq!(
        render_trace("138.201.130.250:27017", QueryKind::Info, &trace),
        "138.201.130.250:27017 A2S_INFO Query: [255, 255, 255, 255, 84, 83, 111, 117, 114, 99, \
         101, 32, 69, 110, 103, 105, 110, 101, 32, 81, 117, 101, 114, 121, 0]"
    );
}

#[test]
fn a_query_challenge_trace_lists_the_bytes_with_the_token() {
    let mut bytes = build_request(QueryKind::Player);
    bytes.extend_from_slice(&[0xAA, 0xBB, 0xCC, 0xDD]);
    let trace = Trace { label: TraceLabel::QueryChallenge, bytes };
    assert_eq!(
        render_trace("192.168.1.100:27017", QueryKind::Player, &trace),
        "192.168.1.100:27017 A2S_PLAYER Query Challenge: [255, 255, 255, 255, 85, 83, 111, 117, \
         114, 99, 101, 32, 69, 110, 103, 105, 110, 101, 32, 81, 117, 101, 114, 121, 0, 170, 187, \
         204, 221]"
    );
}

#[test]
fn a_response_trace_shows_the_payload_as_text() {
    let trace = Trace { label: TraceLabel::Response, bytes: b"Ihello world".to_vec() };
    assert_eq!(
        render_trace("s:1", QueryKind::Info, &trace),
        "s:1 A2S_INFO Response: Ihello world"
    );
}

#[test]
fn invalid_sequences_in_a_response_are_replaced() {
    let trace = Trace {
        label: TraceLabel::Response,
        bytes: vec![0xFF, 0xFF, 0xFF, 0xFF, 0x49, b'o', b'k', 0x00],
    };
    assert_eq!(
        render_trace("s:1", QueryKind::Info, &trace),
        "s:1 A2S_INFO Response: \u{FFFD}\u{FFFD}\u{FFFD}\u{FFFD}Iok\0"
    );
}

#[test]
fn a_challenge_trace_shows_the_datagram_as_text() {
    let trace = Trace {
        label: TraceLabel::Challenge,
        bytes: vec![0xFF, 0xFF, 0xFF, 0xFF, 0x41, b'a', b'b', b'c', b'd'],
    };
    assert_eq!(
        render_trace("s:1", QueryKind::Player, &trace),
        "s:1 A2S_PLAYER Challenge: \u{FFFD}\u{FFFD}\u{FFFD}\u{FFFD}Aabcd"
    );
}

#[test]
fn a_challenged_response_trace_has_its_own_caption() {
    let trace = Trace { label: TraceLabel::ChallengedResponse, bytes: "D\u{e9}j\u{e0}".as_bytes().to_vec() };
    assert_eq!(
        render_trace("s:1", QueryKind::Player, &trace),
        "s:1 A2S_PLAYER Response (Challenged): D\u{e9}j\u{e0}"
    );
}

#[test]
fn received_text_agrees_with_lossy_decoding() {
    let samples: Vec<Vec<u8>> = vec![
        Vec::new(),
        vec![0x80],
        vec![0xC3],
        vec![0xC3, 0xA9],
        vec![0xE2, 0x82],
        vec![0xF0, 0x9F, 0x98, 0x80],
        vec![b'a', 0xFF, b'b'],
    ];
    for bytes in samples {
        let expected = format!("a A2S_INFO Response: {}", String::from_utf8_lossy(&bytes));
        let trace = Trace { label: TraceLabel::Response, bytes };
        assert_eq!(render_trace("a", QueryKind::Info, &trace), expected);
    }
}

/// The text that a response trace shows for `bytes`.
fn shown(bytes: &[u8]) -> String {
    let trace = Trace { label: TraceLabel::Response, bytes: bytes.to_vec() };
    let line = render_trace("h", QueryKind::Info, &trace);
    line.strip_prefix("h A2S_INFO Response: ").expect("the line has its prefix").to_string()
}

#[test]
fn received_bytes_that_are_valid_show_as_the_text_they_encode() {
    assert_eq!(shown(b""), "");
    assert_eq!(shown(b"de_dust2"), "de_dust2");
    assert_eq!(shown("na\u{ef}ve \u{1F600}".as_bytes()), "na\u{ef}ve \u{1F600}");
    assert_eq!(shown(&[0x00, 0x7F]), "\0\u{7f}");
}

#[test]
fn received_bytes_that_are_not_valid_are_replaced() {
    assert_eq!(shown(&[0xFF]), "\u{FFFD}");
    assert_eq!(shown(&[b'a', 0x80, b'b']), "a\u{FFFD}b");
    assert_eq!(shown(&[0xC0, 0x80]), "\u{FFFD}\u{FFFD}");
    assert_eq!(shown(&[0xED, 0xA0, 0x80]), "\u{FFFD}\u{FFFD}\u{FFFD}");
    assert_eq!(shown(&[0xE2, 0x82]), "\u{FFFD}");
}
