//! The errors of the relay and of the edge, by the component that raises
//! them.

use crate::tun::DeviceError;
use crate::wire::FrameError;
use vstd::prelude::*;

verus! {

/// A failure of the transport underneath: fatal to the one connection or
/// session it happened on, never to the process.
#[derive(Clone, Copy, Debug, PartialEq, Eq, Structural)]
pub enum TransportError {
    /// The connection could not be set up or broke.
    Connection,
    /// A stream could not be opened on the connection.
    StreamOpen,
    /// Reading from or writing to a stream failed.
    Io,
    /// The peer closed the connection before it answered.
    PrematureClosure,
}

/// A request that the session registry turns down.
#[derive(Clone, Copy, Debug, PartialEq, Eq, Structural)]
pub enum SessionError {
    /// The username is registered already.
    UserAlreadyExists,
    /// No user holds the token.
    SessionNotFound,
}

/// Any error of the core.
#[derive(Clone, Copy, Debug, PartialEq, Eq, Structural)]
pub enum Error {
    Transport(TransportError),
    Frame(FrameError),
    Session(SessionError),
    Device(DeviceError),
}

/// The line that describes `error` in the log.
pub open spec fn description(error: Error) -> Seq<char> {
    match error {
        Error::Transport(TransportError::Connection) => "transport error: connection failed"@,
        Error::Transport(TransportError::StreamOpen) => "transport error: could not open a stream"@,
        Error::Transport(TransportError::Io) => "transport error: stream i/o failed"@,
        Error::Transport(TransportError::PrematureClosure) => "server closed the connection prematurely"@,
        Error::Frame(FrameError::Insufficient) => "data had insufficient len bytes"@,
        Error::Frame(FrameError::TooLarge) => "frame is over the size limit"@,
        Error::Frame(FrameError::Malformed) => "frame does not hold a message"@,
        Error::Session(SessionError::UserAlreadyExists) => "user already exists"@,
        Error::Session(SessionError::SessionNotFound) => "session not found"@,
        Error::Device(DeviceError::CreateFailed) => "could not create the device"@,
        Error::Device(DeviceError::AlreadyUp) => "a device is up already"@,
    }
}

impl Error {
    /// A line for the log.
    pub fn describe(&self) -> (text: &'static str)
        ensures
            text@ == description(*self),
    {
        match self {
            Error::Transport(TransportError::Connection) => "transport error: connection failed",
            Error::Transport(TransportError::StreamOpen) => "transport error: could not open a stream",
            Error::Transport(TransportError::Io) => "transport error: stream i/o failed",
            Error::Transport(TransportError::PrematureClosure) => "server closed the connection prematurely",
            Error::Frame(FrameError::Insufficient) => "data had insufficient len bytes",
            Error::Frame(FrameError::TooLarge) => "frame is over the size limit",
            Error::Frame(FrameError::Malformed) => "frame does not hold a message",
            Error::Session(SessionError::UserAlreadyExists) => "user already exists",
            Error::Session(SessionError::SessionNotFound) => "session not found",
            Error::Device(DeviceError::CreateFailed) => "could not create the device",
            Error::Device(DeviceError::AlreadyUp) => "a device is up already",
        }
    }
}

} // verus!
