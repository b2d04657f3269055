//! The edge's requests to the relay, and what it makes of the answers.

use crate::action::Action;
use crate::error::{Error, TransportError};
use crate::octets::{split_word, to_octets};
use crate::wire::FrameError;
use vstd::prelude::*;
use vstd::string::StringSliceAdditionalSpecFns;

verus! {

/// Seconds that a client waits for the relay by default.
pub const DEFAULT_TIMEOUT_SECS: u64 = 30;

/// Address that an edge announces before the relay gave it one
/// (25.0.0.2).
pub const HELLO_ADDRESS: u32 = 0x1900_0002;

/// Netmask that an edge announces (255.0.0.0).
pub const HELLO_NETMASK: u32 = 0xFF00_0000;

/// What an answer of the relay came to.
#[derive(Clone, Debug, PartialEq, Eq)]
pub enum Received<T> {
    /// Accepting or reading the answering stream failed.
    Failed(TransportError),
    /// The relay closed the connection without an answer.
    Closed,
    /// The answering stream held no whole, well-formed message.
    Rejected(FrameError),
    /// The answer.
    Message(T),
}

/// The parameters of a client of the relay.
#[derive(Clone, Copy, Debug, PartialEq, Eq, Structural)]
pub struct Client {
    /// Seconds to wait for the relay.
    pub timeout: u64,
}

impl Client {
    /// A client with the default timeout. It never fails.
    pub fn try_new() -> (res: Result<Self, Error>)
        ensures
            res == Ok::<Client, Error>(Client { timeout: DEFAULT_TIMEOUT_SECS }),
    {
        Ok(Client { timeout: DEFAULT_TIMEOUT_SECS })
    }

    /// The control message that logs `username` in.
    pub fn login(&self, username: &str) -> (action: Action)
        ensures
            action is Login,
            action->name@ == username@,
    {
        Action::Login { name: username.to_owned() }
    }

    /// The control message that asks for the connection of the session
    /// holding `token` to be upgraded.
    pub fn upgrade_conn(&self, token: &str) -> (action: Action)
        ensures
            action is UpgradeConn,
            action->token@ == token@,
    {
        Action::UpgradeConn { token: token.to_owned() }
    }

    /// Turns what came back from the relay into the answer or the error
    /// to report: a connection closed without an answer is
    /// `PrematureClosure`.
    pub fn receive_data<T>(&self, received: Received<T>) -> (res: Result<T, Error>)
        ensures
            res == match received {
                Received::Failed(e) => Err::<T, Error>(Error::Transport(e)),
                Received::Closed => Err::<T, Error>(
                    Error::Transport(TransportError::PrematureClosure),
                ),
                Received::Rejected(e) => Err::<T, Error>(Error::Frame(e)),
                Received::Message(answer) => Ok::<T, Error>(answer),
            },
    {
        match received {
            Received::Failed(e) => Err(Error::Transport(e)),
            Received::Closed => Err(Error::Transport(TransportError::PrematureClosure)),
            Received::Rejected(e) => Err(Error::Frame(e)),
            Received::Message(answer) => Ok(answer),
        }
    }
}

/// What an edge tells the local daemon first: where it listens.
#[derive(Clone, Debug, PartialEq, Eq)]
pub struct ClientHello {
    pub socket_path: String,
}

/// The two big-endian octets of `len` modulo 65536.
pub open spec fn short_len(len: nat) -> Seq<u8> {
    seq![(len / 256 % 256) as u8, (len % 256) as u8]
}

/// The hello message for a socket path with the bytes `path`: the length
/// of the path in two big-endian octets, the path, the address and the
/// netmask.
pub open spec fn hello_bytes(path: Seq<u8>, address: u32, netmask: u32) -> Seq<u8> {
    short_len(path.len()) + path + split_word(address) + split_word(netmask)
}

/// Builds the hello message that announces `socket_path` together with
/// the address and netmask of the edge.
///
/// The length prefix has two octets; of a longer path it holds the length
/// modulo 65536.
pub fn send_hello(socket_path: &str) -> (msg: Vec<u8>)
    ensures
        msg@ == hello_bytes(socket_path.spec_bytes(), HELLO_ADDRESS, HELLO_NETMASK),
{
    let path: &[u8] = socket_path.as_bytes();
    let len: usize = path.len();
    let mut msg: Vec<u8> = Vec::new();
    msg.push((len / 256 % 256) as u8);
    msg.push((len % 256) as u8);
    assert(msg@ =~= short_len(len as nat));
    let mut i: usize = 0;
    while i < len
        invariant
            i <= len,
            len == path@.len(),
            msg@ == short_len(len as nat) + path@.subrange(0, i as int),
        decreases len - i,
    {
        msg.push(path[i]);
        i = i + 1;
        assert(msg@ =~= short_len(len as nat) + path@.subrange(0, i as int));
    }
    assert(path@.subrange(0, len as int) =~= path@);
    let address: [u8; 4] = to_octets(HELLO_ADDRESS);
    let netmask: [u8; 4] = to_octets(HELLO_NETMASK);
    let ghost body: Seq<u8> = msg@;
    msg.push(address[0]);
    msg.push(address[1]);
    msg.push(address[2]);
    msg.push(address[3]);
    assert(msg@ =~= body + split_word(HELLO_ADDRESS));
    let ghost addressed: Seq<u8> = msg@;
    msg.push(netmask[0]);
    msg.push(netmask[1]);
    msg.push(netmask[2]);
    msg.push(netmask[3]);
    assert(msg@ =~= addressed + split_word(HELLO_NETMASK));
    msg
}

} // verus!
