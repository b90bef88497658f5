//! Messages from clients and between the parts of the server.

use crate::epoch::{ConnectionId, Solution};
use crate::registry::MapKey;
use vstd::prelude::*;

verus! {

/// The address that a client connects from.
#[derive(Clone, Copy, Debug, PartialEq, Eq, Structural)]
pub enum ClientAddr {
    V4 { ip: u32, port: u16 },
    V6 { ip6: u128, port: u16, flowinfo: u32, scope_id: u32 },
}

impl MapKey for ClientAddr {
    type Id = ClientAddr;

    open spec fn id(self) -> ClientAddr {
        self
    }

    fn same_key(self, other: Self) -> (res: bool) {
        self == other
    }
}

/// A text for every connected client.
pub struct MessageInternalAllClients {
    pub text: String,
}

/// What a client has said.
#[derive(Clone, Copy, Debug, PartialEq, Eq)]
pub enum ClientMessage {
    /// It is ready for a challenge.
    Ready(ClientAddr),
    /// It has started to mine.
    Mining(ClientAddr),
    /// It is still there.
    Pong(ClientAddr),
    /// It has found a solution, on the given connection.
    BestSolution(ClientAddr, Solution, ConnectionId),
}

/// A frame that came over a web socket.
#[derive(Debug, PartialEq, Eq)]
pub enum Frame {
    Text,
    Binary(Vec<u8>),
    Ping,
    Pong,
    Close,
}

/// Number of bytes of a frame that hands a solution in: its kind, a digest, a nonce and a key.
pub const SOLUTION_FRAME_BYTES: usize = 57;

/// Whether a frame has the bytes that its kind has: a binary frame says its kind in its first
/// byte, and one of the kind 2 holds a solution.
pub open spec fn complete(frame: Frame) -> bool {
    frame matches Frame::Binary(data) ==> data@.len() > 0 && (data@[0] == 2 ==> data@.len()
        >= SOLUTION_FRAME_BYTES)
}

/// Whether a frame has the bytes that its kind has.
pub fn is_complete(frame: &Frame) -> (res: bool)
    ensures
        res == complete(*frame),
{
    match frame {
        Frame::Binary(data) => data.len() > 0 && (data[0] != 2 || data.len()
            >= SOLUTION_FRAME_BYTES),
        _ => true,
    }
}

/// What a client says with a frame.
pub enum Said {
    Nothing,
    Ready,
    Mining,
    Pong,
    Solution { digest: Seq<u8>, nonce: Seq<u8> },
}

/// What a client says with a frame: the first byte of a binary frame is its kind, and the digest
/// and the nonce of a solution follow it.
pub open spec fn said_with(frame: Frame) -> Said {
    match frame {
        Frame::Binary(data) => if data@[0] == 0 {
            Said::Ready
        } else if data@[0] == 1 {
            Said::Mining
        } else if data@[0] == 2 {
            Said::Solution { digest: data@.subrange(1, 17), nonce: data@.subrange(17, 25) }
        } else {
            Said::Nothing
        },
        Frame::Pong => Said::Pong,
        _ => Said::Nothing,
    }
}

/// Whether `message` is what a client at `who` says, on the connection `uuid`.
pub open spec fn passes_on(
    said: Said,
    who: ClientAddr,
    uuid: ConnectionId,
    message: Option<ClientMessage>,
) -> bool {
    match said {
        Said::Nothing => message is None,
        Said::Ready => message == Some(ClientMessage::Ready(who)),
        Said::Mining => message == Some(ClientMessage::Mining(who)),
        Said::Pong => message == Some(ClientMessage::Pong(who)),
        Said::Solution { digest, nonce } => message matches Some(
            ClientMessage::BestSolution(from, solution, on),
        ) && from == who && on == uuid && solution.d@ == digest && solution.n@ == nonce,
    }
}

fn solution_of(data: &[u8]) -> (res: Solution)
    requires
        data@.len() >= SOLUTION_FRAME_BYTES,
    ensures
        res.d@ == data@.subrange(1, 17),
        res.n@ == data@.subrange(17, 25),
{
    let mut digest: [u8; 16] = [0u8; 16];
    let mut i: usize = 0;
    while i < 16
        invariant
            i <= 16,
            data@.len() >= SOLUTION_FRAME_BYTES,
            forall|j: int| 0 <= j < i ==> digest@[j] == data@[1 + j],
        decreases 16 - i,
    {
        digest[i] = data[1 + i];
        i = i + 1;
    }
    let mut nonce: [u8; 8] = [0u8; 8];
    let mut k: usize = 0;
    while k < 8
        invariant
            k <= 8,
            data@.len() >= SOLUTION_FRAME_BYTES,
            forall|j: int| 0 <= j < k ==> nonce@[j] == data@[17 + j],
        decreases 8 - k,
    {
        nonce[k] = data[17 + k];
        k = k + 1;
    }
    assert(digest@ =~= data@.subrange(1, 17));
    assert(nonce@ =~= data@.subrange(17, 25));
    Solution::new(digest, nonce)
}

/// What a frame from `who` on the connection `socket_uuid` means: the message that is passed on,
/// if any, and whether the connection goes on after it.
pub fn process_message(frame: &Frame, socket_uuid: ConnectionId, who: ClientAddr) -> (res: (
    Option<ClientMessage>,
    bool,
))
    requires
        complete(*frame),
    ensures
        passes_on(said_with(*frame), who, socket_uuid, res.0),
        res.1 == (*frame !is Close),
        frame matches Frame::Binary(data) ==> data@[0] == 2 ==> (res.0 matches Some(
            ClientMessage::BestSolution(from, solution, on),
        ) && from == who && on == socket_uuid && solution.d@ == data@.subrange(1, 17)
            && solution.n@ == data@.subrange(17, 25)),
{
    match frame {
        Frame::Text => (None, true),
        Frame::Binary(data) => match data[0] {
            0 => (Some(ClientMessage::Ready(who)), true),
            1 => (Some(ClientMessage::Mining(who)), true),
            2 => {
                let solution = solution_of(data.as_slice());
                (Some(ClientMessage::BestSolution(who, solution, socket_uuid)), true)
            },
            _ => (None, true),
        },
        Frame::Close => (None, false),
        Frame::Pong => (Some(ClientMessage::Pong(who)), true),
        Frame::Ping => (None, true),
    }
}

/// A solution that a client hands in comes through whole: whatever the digest, the nonce and the
/// key, a frame of the byte 2, the digest, the nonce and the key is complete, and what is passed on
/// of it is that digest and that nonce, from that client on that connection.
pub proof fn lemma_solution_comes_through(
    data: Vec<u8>,
    digest: Seq<u8>,
    nonce: Seq<u8>,
    key: Seq<u8>,
    who: ClientAddr,
    uuid: ConnectionId,
    message: Option<ClientMessage>,
)
    requires
        digest.len() == 16,
        nonce.len() == 8,
        key.len() == 32,
        data@ == seq![2u8] + digest + nonce + key,
    ensures
        complete(Frame::Binary(data)),
        passes_on(said_with(Frame::Binary(data)), who, uuid, message) <==> (message matches Some(
            ClientMessage::BestSolution(from, solution, on),
        ) && from == who && on == uuid && solution.d@ == digest && solution.n@ == nonce),
{
    assert(data@.subrange(1, 17) =~= digest);
    assert(data@.subrange(17, 25) =~= nonce);
}

/// A client that says it is ready, or that it mines, is heard, whatever follows the first byte of
/// the frame; so is every pong. Nothing is passed on of any other frame that holds no solution.
pub proof fn lemma_short_messages_come_through(
    frame: Frame,
    who: ClientAddr,
    uuid: ConnectionId,
    message: Option<ClientMessage>,
)
    requires
        passes_on(said_with(frame), who, uuid, message),
    ensures
        frame matches Frame::Binary(data) ==> data@[0] == 0 ==> message == Some(
            ClientMessage::Ready(who),
        ),
        frame matches Frame::Binary(data) ==> data@[0] == 1 ==> message == Some(
            ClientMessage::Mining(who),
        ),
        frame matches Frame::Binary(data) ==> data@[0] > 2 ==> message is None,
        frame is Pong ==> message == Some(ClientMessage::Pong(who)),
        frame is Text || frame is Ping || frame is Close ==> message is None,
{
}

/// Only two kinds of frames are incomplete: a binary frame of no bytes, and one that begins with
/// the byte 2 and has less than 57.
pub proof fn lemma_complete_frames(frame: Frame)
    ensures
        frame !is Binary ==> complete(frame),
        frame matches Frame::Binary(data) ==> (!complete(frame) <==> data@.len() == 0 || (data@[0]
            == 2 && data@.len() <= 56)),
{
}

} // verus!
