//! The edge's side of the local control plane: what a login, an activate
//! or a deactivate request of the user-facing client turns into.

use crate::action::Action;
use crate::db::LoginResp;
use crate::error::Error;
use crate::tun::DaemonEvent;
use vstd::prelude::*;

verus! {

/// Why a request of the control plane is turned down.
#[derive(Clone, Copy, Debug, PartialEq, Eq, Structural)]
pub enum DaemonError {
    /// No login is recorded.
    UserLoggedOut,
    /// The relay turned the login down, or could not be reached.
    LoginInvalid,
    /// The device task is gone and takes no more events.
    ClosedChannel,
}

/// What the relay handed out at login.
#[derive(Clone, Debug, PartialEq, Eq)]
pub struct LoginCfg {
    pub username: String,
    /// Virtual IPv4 address, most significant octet first.
    pub address: u32,
    pub netmask: u32,
    pub token: String,
}

/// The control plane's state: the login on record, if any.
#[derive(Clone, Debug, PartialEq, Eq)]
pub struct DbusDaemon {
    pub login_cfg: Option<LoginCfg>,
}

impl DbusDaemon {
    /// A control plane without a login.
    pub fn new() -> (daemon: Self)
        ensures
            daemon.login_cfg is None,
    {
        DbusDaemon { login_cfg: None }
    }

    /// Records the outcome of logging `username` in at the relay.
    ///
    /// A response is put on record under the username, in place of
    /// whatever login was there before. A failed login leaves the record
    /// as it was and is reported as `LoginInvalid`.
    pub fn login(&mut self, username: &str, outcome: Result<LoginResp, Error>) -> (res: Result<
        (),
        DaemonError,
    >)
        ensures
            match outcome {
                Ok(resp) => {
                    &&& res is Ok
                    &&& final(self).login_cfg is Some
                    &&& final(self).login_cfg->Some_0.username@ == username@
                    &&& final(self).login_cfg->Some_0.address == resp.address
                    &&& final(self).login_cfg->Some_0.netmask == resp.netmask
                    &&& final(self).login_cfg->Some_0.token == resp.token
                },
                Err(_) => {
                    &&& res == Err::<(), DaemonError>(DaemonError::LoginInvalid)
                    &&& *final(self) == *old(self)
                },
            },
    {
        match outcome {
            Ok(resp) => {
                self.login_cfg = Some(
                    LoginCfg {
                        username: username.to_owned(),
                        address: resp.address,
                        netmask: resp.netmask,
                        token: resp.token,
                    },
                );
                Ok(())
            },
            Err(_) => Err(DaemonError::LoginInvalid),
        }
    }

    /// The username on record, or `UserLoggedOut`.
    pub fn get_user(&self) -> (res: Result<&String, DaemonError>)
        ensures
            match self.login_cfg {
                Some(cfg) => res is Ok && *res->Ok_0 == cfg.username,
                None => res == Err::<&String, DaemonError>(DaemonError::UserLoggedOut),
            },
    {
        match &self.login_cfg {
            Some(cfg) => Ok(&cfg.username),
            None => Err(DaemonError::UserLoggedOut),
        }
    }

    /// The event that brings the device up with the address and netmask of
    /// the login on record, or `UserLoggedOut`.
    pub fn activate<S>(&self) -> (res: Result<DaemonEvent<S>, DaemonError>)
        ensures
            res == match self.login_cfg {
                Some(cfg) => Ok::<DaemonEvent<S>, DaemonError>(
                    DaemonEvent::Up { address: cfg.address, netmask: cfg.netmask },
                ),
                None => Err::<DaemonEvent<S>, DaemonError>(DaemonError::UserLoggedOut),
            },
    {
        match &self.login_cfg {
            Some(cfg) => Ok(DaemonEvent::Up { address: cfg.address, netmask: cfg.netmask }),
            None => Err(DaemonError::UserLoggedOut),
        }
    }

    /// The event that brings the device down, or `UserLoggedOut` where no
    /// login is on record.
    pub fn deactivate<S>(&self) -> (res: Result<DaemonEvent<S>, DaemonError>)
        ensures
            res == match self.login_cfg {
                Some(_) => Ok::<DaemonEvent<S>, DaemonError>(DaemonEvent::Down),
                None => Err::<DaemonEvent<S>, DaemonError>(DaemonError::UserLoggedOut),
            },
    {
        match &self.login_cfg {
            Some(_) => Ok(DaemonEvent::Down),
            None => Err(DaemonError::UserLoggedOut),
        }
    }

    /// The control message that asks the relay to upgrade a connection for
    /// the login on record, or `UserLoggedOut`.
    pub fn upgrade(&self) -> (res: Result<Action, DaemonError>)
        ensures
            match self.login_cfg {
                Some(cfg) => res is Ok && res->Ok_0 is UpgradeConn && res->Ok_0->token == cfg.token,
                None => res == Err::<Action, DaemonError>(DaemonError::UserLoggedOut),
            },
    {
        match &self.login_cfg {
            Some(cfg) => Ok(Action::UpgradeConn { token: cfg.token.clone() }),
            None => Err(DaemonError::UserLoggedOut),
        }
    }

    /// The event that attaches `bi`, the stream that the relay opened for
    /// an upgraded connection.
    pub fn remote_added<S>(bi: S) -> (event: DaemonEvent<S>)
        ensures
            event == (DaemonEvent::RemoteAdd { bi }),
    {
        DaemonEvent::RemoteAdd { bi }
    }

    /// The answer to a request whose event was handed to the device task:
    /// `ClosedChannel` where the task no longer took it.
    pub fn send_event(delivered: bool) -> (res: Result<(), DaemonError>)
        ensures
            delivered ==> res is Ok,
            !delivered ==> res == Err::<(), DaemonError>(DaemonError::ClosedChannel),
    {
        if delivered {
            Ok(())
        } else {
            Err(DaemonError::ClosedChannel)
        }
    }
}

} // verus!
