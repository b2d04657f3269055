//! The connection dispatcher: what the relay does with the one control
//! message that opens a connection.

use crate::access::{in_network, is_token, TOKEN_LEN};
use crate::db::{address_of, has_user, Db, LoginResp, UserView, NETMASK};
use crate::error::{Error, SessionError, TransportError};
use crate::routing::RoutingInfo;
use crate::wire::FrameError;
use vstd::prelude::*;

verus! {

/// A control message from an edge.
#[derive(Clone, Debug, PartialEq, Eq)]
pub enum Action {
    /// Turn this connection into the data channel of the session that
    /// holds `token`.
    UpgradeConn { token: String },
    /// Register `name` and hand out a token and an address.
    Login { name: String },
}

/// What came in on a fresh connection.
#[derive(Clone, Debug, PartialEq, Eq)]
pub enum Inbound {
    /// The peer closed the connection without opening a stream.
    Closed,
    /// Accepting or reading the first stream failed.
    Failed(TransportError),
    /// The first stream held no whole, well-formed control message.
    Rejected(FrameError),
    /// The control message of the first stream.
    Message(Action),
}

/// What the relay does for a connection, once its control message is
/// dealt with.
#[derive(Clone, Debug, PartialEq, Eq)]
pub enum Dispatch {
    /// Send this response on a new outbound stream; the connection may
    /// then close.
    Respond(LoginResp),
    /// Open a bidirectional stream and route this address to it; no
    /// response is sent.
    Upgrade { address: u32 },
    /// Nothing to do: the peer went away before it asked for anything.
    Closed,
    /// Log the error and end this connection's task. Other connections are
    /// not touched.
    Fail(Error),
}

impl Action {
    /// Carries out a control message against the session registry.
    ///
    /// `Login` registers the name: for a name not registered yet the
    /// outcome is the response to send, and the registry holds the new user
    /// behind the others; for a taken name it is the failure
    /// `UserAlreadyExists`, and the registry is unchanged. `UpgradeConn`
    /// never changes the registry: the outcome is the address that the
    /// token leads to, or the failure `SessionNotFound`.
    pub fn handle_action(self, db: &mut Db) -> (out: Dispatch)
        ensures
            match self {
                Action::Login { name } => if has_user(old(db)@, name@) {
                    &&& out == Dispatch::Fail(Error::Session(SessionError::UserAlreadyExists))
                    &&& final(db)@ == old(db)@
                } else {
                    &&& out is Respond
                    &&& is_token(out->Respond_0.token@, TOKEN_LEN as nat)
                    &&& in_network(out->Respond_0.address)
                    &&& out->Respond_0.netmask == NETMASK
                    &&& final(db)@ == old(db)@.push(
                        UserView {
                            username: name@,
                            token: out->Respond_0.token@,
                            address: out->Respond_0.address,
                        },
                    )
                },
                Action::UpgradeConn { token } => {
                    &&& final(db)@ == old(db)@
                    &&& out == match address_of(old(db)@, token@) {
                        Some(address) => Dispatch::Upgrade { address },
                        None => Dispatch::Fail(Error::Session(SessionError::SessionNotFound)),
                    }
                },
            },
    {
        match self {
            Action::Login { name } => match db.login(name.as_str()) {
                Ok(resp) => Dispatch::Respond(resp),
                Err(e) => Dispatch::Fail(e),
            },
            Action::UpgradeConn { token } => match db.upgrade_conn(token.as_str()) {
                Ok(address) => Dispatch::Upgrade { address },
                Err(e) => Dispatch::Fail(Error::Session(e)),
            },
        }
    }
}

/// Serves one fresh connection: looks at what came in on it and, where
/// that is a control message, carries it out.
///
/// A connection that was closed, failed or sent no well-formed message
/// leaves the registry alone and gives `Closed` or the failure; a message
/// is handled as [`Action::handle_action`] says.
pub fn handle_connection(inbound: Inbound, db: &mut Db) -> (out: Dispatch)
    ensures
        match inbound {
            Inbound::Closed => out == Dispatch::Closed && final(db)@ == old(db)@,
            Inbound::Failed(e) => out == Dispatch::Fail(Error::Transport(e)) && final(db)@ == old(
                db,
            )@,
            Inbound::Rejected(e) => out == Dispatch::Fail(Error::Frame(e)) && final(db)@ == old(
                db,
            )@,
            Inbound::Message(Action::Login { name }) => if has_user(old(db)@, name@) {
                &&& out == Dispatch::Fail(Error::Session(SessionError::UserAlreadyExists))
                &&& final(db)@ == old(db)@
            } else {
                &&& out is Respond
                &&& is_token(out->Respond_0.token@, TOKEN_LEN as nat)
                &&& in_network(out->Respond_0.address)
                &&& out->Respond_0.netmask == NETMASK
                &&& final(db)@ == old(db)@.push(
                    UserView {
                        username: name@,
                        token: out->Respond_0.token@,
                        address: out->Respond_0.address,
                    },
                )
            },
            Inbound::Message(Action::UpgradeConn { token }) => {
                &&& final(db)@ == old(db)@
                &&& out == match address_of(old(db)@, token@) {
                    Some(address) => Dispatch::Upgrade { address },
                    None => Dispatch::Fail(Error::Session(SessionError::SessionNotFound)),
                }
            },
        },
{
    match inbound {
        Inbound::Closed => Dispatch::Closed,
        Inbound::Failed(e) => Dispatch::Fail(Error::Transport(e)),
        Inbound::Rejected(e) => Dispatch::Fail(Error::Frame(e)),
        Inbound::Message(action) => action.handle_action(db),
    }
}

/// Looks sessions up for connections that ask to be upgraded.
pub struct ServerHandler<'a> {
    pub db: &'a Db,
}

impl<'a> ServerHandler<'a> {
    /// The address of the session that holds `token`.
    ///
    /// Fails with `SessionNotFound` when no user holds the token; no stream
    /// is to be opened then.
    pub fn upgrade(&self, token: &str) -> (res: Result<u32, Error>)
        ensures
            match address_of(self.db@, token@) {
                Some(address) => res == Ok::<u32, Error>(address),
                None => res == Err::<u32, Error>(Error::Session(SessionError::SessionNotFound)),
            },
    {
        match self.db.upgrade_conn(token) {
            Ok(address) => Ok(address),
            Err(e) => Err(Error::Session(e)),
        }
    }

    /// Binds the session's address to the stream that was opened for it.
    ///
    /// `opened` is the outcome of opening a bidirectional stream on the
    /// connection, already split into its receive and send halves. A
    /// failure to open is handed on as a transport error.
    pub fn established<R, S>(address: u32, opened: Result<(R, S), TransportError>) -> (res: Result<
        RoutingInfo<R, S>,
        Error,
    >)
        ensures
            match opened {
                Ok((recv, send)) => res == Ok::<RoutingInfo<R, S>, Error>(
                    RoutingInfo { ip: address, recv, send },
                ),
                Err(e) => res == Err::<RoutingInfo<R, S>, Error>(Error::Transport(e)),
            },
    {
        match opened {
            Ok((recv, send)) => Ok(RoutingInfo { ip: address, recv, send }),
            Err(e) => Err(Error::Transport(e)),
        }
    }
}

} // verus!
