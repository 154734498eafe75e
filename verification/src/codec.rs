//! The query codec: the bytes of a request, and what a received datagram is.
//!
//! A request is the four-byte simple-response header, one byte that names
//! the kind, the text `Source Engine Query` and a zero byte. A server may
//! answer with a challenge, a datagram of nine bytes whose last four are a
//! token; the request then goes out again with the token appended.

use vstd::prelude::*;
use vstd::slice::slice_to_vec;

verus! {

/// The request families this library can issue.
#[derive(Clone, Copy, Debug, PartialEq, Eq, Structural)]
pub enum QueryKind {
    /// Server metadata (A2S_INFO).
    Info,
    /// Connected players (A2S_PLAYER).
    Player,
}

/// The four bytes that a server hands out in a challenge datagram and
/// expects back at the end of the repeated request.
#[derive(Clone, Copy, Debug, PartialEq, Eq)]
pub struct ChallengeToken {
    /// The token bytes in wire order.
    pub bytes: [u8; 4],
}

impl View for ChallengeToken {
    type V = Seq<u8>;

    open spec fn view(&self) -> Seq<u8> {
        self.bytes@
    }
}

/// What a received datagram turned out to be.
#[derive(Clone, Debug, PartialEq, Eq)]
pub enum Classified {
    /// The server asks for the request to be repeated with this token.
    Challenge(ChallengeToken),
    /// The server answered; the payload is the entire datagram.
    Final(Vec<u8>),
}

/// A classified datagram as a plain value.
pub enum ClassifiedModel {
    /// A challenge with this token.
    Challenge(Seq<u8>),
    /// A final response with this payload.
    Final(Seq<u8>),
}

impl View for Classified {
    type V = ClassifiedModel;

    open spec fn view(&self) -> ClassifiedModel {
        match self {
            Classified::Challenge(token) => ClassifiedModel::Challenge(token@),
            Classified::Final(payload) => ClassifiedModel::Final(payload@),
        }
    }
}

/// Length in bytes of an unchallenged request.
pub const REQUEST_LEN: usize = 25;

/// Length in bytes of a challenge datagram.
pub const CHALLENGE_LEN: usize = 9;

/// Offset of the token inside a challenge datagram.
pub const TOKEN_OFFSET: usize = 5;

/// Length in bytes of a challenge token.
pub const TOKEN_LEN: usize = 4;

/// The byte that tells the request families apart on the wire: `T` for
/// info, `U` for players.
pub open spec fn kind_byte(kind: QueryKind) -> u8 {
    match kind {
        QueryKind::Info => 0x54,
        QueryKind::Player => 0x55,
    }
}

/// The ASCII text `Source Engine Query` that every request carries.
pub open spec fn payload_text() -> Seq<u8> {
    seq![
        0x53u8, 0x6f, 0x75, 0x72, 0x63, 0x65, 0x20, 0x45, 0x6e, 0x67, 0x69, 0x6e, 0x65, 0x20,
        0x51, 0x75, 0x65, 0x72, 0x79,
    ]
}

/// The bytes of an unchallenged request: the four-byte simple-response
/// header, the byte of the kind, the query text and a zero terminator.
pub open spec fn request_bytes(kind: QueryKind) -> Seq<u8> {
    seq![0xffu8, 0xff, 0xff, 0xff] + seq![kind_byte(kind)] + payload_text() + seq![0x00u8]
}

/// The bytes of a request repeated in answer to a challenge: the request
/// followed by the token.
pub open spec fn challenged_bytes(request: Seq<u8>, token: Seq<u8>) -> Seq<u8> {
    request + token
}

/// The classification rule: a datagram of exactly nine bytes is a
/// challenge, whatever it holds; every other one is a final response.
pub open spec fn is_challenge(response: Seq<u8>) -> bool {
    response.len() == CHALLENGE_LEN
}

/// The token that a challenge datagram carries: its bytes 5 to 8.
pub open spec fn token_bytes(response: Seq<u8>) -> Seq<u8>
    recommends
        is_challenge(response),
{
    response.subrange(TOKEN_OFFSET as int, TOKEN_OFFSET + TOKEN_LEN)
}

/// What a received datagram is: a challenge with its token, or a final
/// response whose payload is the whole datagram.
pub open spec fn classification(response: Seq<u8>) -> ClassifiedModel {
    if is_challenge(response) {
        ClassifiedModel::Challenge(token_bytes(response))
    } else {
        ClassifiedModel::Final(response)
    }
}

/// The request of a kind is one fixed sequence of 25 bytes, the two kinds
/// differ in the fifth byte alone, and no request is mistaken for a
/// challenge.
pub proof fn lemma_request_layout(kind: QueryKind)
    ensures
        request_bytes(kind).len() == REQUEST_LEN,
        request_bytes(QueryKind::Info) == seq![
            0xffu8, 0xff, 0xff, 0xff, 0x54, 0x53, 0x6f, 0x75, 0x72, 0x63, 0x65, 0x20, 0x45, 0x6e,
            0x67, 0x69, 0x6e, 0x65, 0x20, 0x51, 0x75, 0x65, 0x72, 0x79, 0x00,
        ],
        request_bytes(QueryKind::Player) == request_bytes(QueryKind::Info).update(4, 0x55u8),
        !is_challenge(request_bytes(kind)),
{
}

/// A request with a token appended is four bytes longer than the request,
/// begins with the request and ends with the token.
pub proof fn lemma_challenged_layout(request: Seq<u8>, token: Seq<u8>)
    requires
        token.len() == TOKEN_LEN,
    ensures
        challenged_bytes(request, token).len() == request.len() + TOKEN_LEN,
        challenged_bytes(request, token).subrange(0, request.len() as int) == request,
        challenged_bytes(request, token).subrange(
            request.len() as int,
            request.len() + TOKEN_LEN,
        ) == token,
{
}

/// The token of a challenge is its last four bytes, and a request that
/// carries it is itself no challenge.
pub proof fn lemma_token_layout(kind: QueryKind, challenge: Seq<u8>)
    requires
        is_challenge(challenge),
    ensures
        token_bytes(challenge).len() == TOKEN_LEN,
        forall|i: int|
            0 <= i < TOKEN_LEN ==> token_bytes(challenge)[i] == challenge[TOKEN_OFFSET + i],
        !is_challenge(challenged_bytes(request_bytes(kind), token_bytes(challenge))),
{
    lemma_request_layout(kind);
}

/// Builds the unchallenged request for `kind`: the same bytes on every call.
pub fn build_request(kind: QueryKind) -> (request: Vec<u8>)
    ensures
        request@ == request_bytes(kind),
{
    let tag: u8 = match kind {
        QueryKind::Info => 0x54,
        QueryKind::Player => 0x55,
    };
    vec![
        0xffu8, 0xff, 0xff, 0xff, tag, 0x53, 0x6f, 0x75, 0x72, 0x63, 0x65, 0x20, 0x45, 0x6e, 0x67,
        0x69, 0x6e, 0x65, 0x20, 0x51, 0x75, 0x65, 0x72, 0x79, 0x00,
    ]
}

/// Returns a new datagram: `request` followed by the four bytes of `token`.
pub fn append_challenge(request: &[u8], token: ChallengeToken) -> (challenged: Vec<u8>)
    ensures
        challenged@ == challenged_bytes(request@, token@),
        challenged@.len() == request@.len() + TOKEN_LEN,
        challenged@.subrange(0, request@.len() as int) == request@,
        challenged@.subrange(request@.len() as int, challenged@.len() as int) == token@,
{
    let mut challenged = slice_to_vec(request);
    challenged.push(token.bytes[0]);
    challenged.push(token.bytes[1]);
    challenged.push(token.bytes[2]);
    challenged.push(token.bytes[3]);
    proof {
        lemma_challenged_layout(request@, token@);
    }
    challenged
}

/// Classifies a received datagram by its length alone.
pub fn classify(response: Vec<u8>) -> (classified: Classified)
    ensures
        classified@ == classification(response@),
{
    if response.len() == CHALLENGE_LEN {
        let token = ChallengeToken {
            bytes: [
                response[TOKEN_OFFSET],
                response[TOKEN_OFFSET + 1],
                response[TOKEN_OFFSET + 2],
                response[TOKEN_OFFSET + 3],
            ],
        };
        assert(token@ =~= token_bytes(response@));
        Classified::Challenge(token)
    } else {
        Classified::Final(response)
    }
}

} // verus!
