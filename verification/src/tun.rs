//! The edge's tunnel controller.
//!
//! The controller decides; its caller touches the operating system and the
//! network. Control events come in, actions for the caller go out, and the
//! controller's state says at every moment whether a device is live and
//! whether packets are to be pumped between the device and the remote
//! stream.

use vstd::prelude::*;
use vstd::slice::slice_subrange;

verus! {

/// MTU given to every virtual device.
pub const DEFAULT_MTU: u16 = 1500;

/// Name given to every virtual device.
pub const TUN_NAME: &'static str = "lanshare0";

/// Address of the standalone device (172.16.0.2).
pub const STANDALONE_ADDRESS: u32 = 0xAC10_0002;

/// Netmask of the standalone device (255.255.255.0).
pub const STANDALONE_NETMASK: u32 = 0xFFFF_FF00;

/// What a virtual device is created with. The device name is the same for
/// every device, see [`TUN_NAME`].
#[derive(Clone, Copy, Debug, PartialEq, Eq, Structural)]
pub struct TunConfig {
    /// Local IPv4 address, most significant octet first.
    pub address: u32,
    /// IPv4 netmask, most significant octet first.
    pub netmask: u32,
    /// Maximum transmission unit in bytes.
    pub mtu: u16,
}

impl TunConfig {
    /// The name of the device that this configuration describes.
    pub fn tun_name(&self) -> (name: &'static str)
        ensures
            name@ == TUN_NAME@,
    {
        TUN_NAME
    }
}

/// Why a device could not be brought up.
#[derive(Clone, Copy, Debug, PartialEq, Eq, Structural)]
pub enum DeviceError {
    /// The operating system refused to create the device.
    CreateFailed,
    /// A device is live already; a controller owns at most one.
    AlreadyUp,
}

/// A request of the local control plane, `S` being the type of a
/// bidirectional stream to the relay.
#[derive(Debug, PartialEq, Eq)]
pub enum DaemonEvent<S> {
    Up { address: u32, netmask: u32 },
    Down,
    RemoteAdd { bi: S },
    RemoteDel,
}

/// An event for the device task.
#[derive(Debug, PartialEq, Eq)]
pub enum TunEvent<S> {
    /// Attach the given remote stream, or detach the current one.
    SetRemote(Option<S>),
    /// Bring a device up with this configuration.
    Up(TunConfig),
    /// Tear the device down.
    Down,
}

/// Turns control-plane requests into device-task events.
#[derive(Clone, Copy, Debug, PartialEq, Eq, Structural)]
pub struct TunController {
    /// What every device of this controller is created with, address and
    /// netmask apart.
    pub config: TunConfig,
}

impl TunController {
    /// The device-task event that a control-plane request stands for.
    pub open spec fn event_for<S>(self, event: DaemonEvent<S>) -> TunEvent<S> {
        match event {
            DaemonEvent::RemoteAdd { bi } => TunEvent::SetRemote(Some(bi)),
            DaemonEvent::RemoteDel => TunEvent::SetRemote(None),
            DaemonEvent::Up { address, netmask } => TunEvent::Up(
                TunConfig { address, netmask, mtu: self.config.mtu },
            ),
            DaemonEvent::Down => TunEvent::Down,
        }
    }

    /// A controller whose devices get the default MTU.
    pub fn new() -> (tc: Self)
        ensures
            tc.config == (TunConfig { address: 0, netmask: 0, mtu: DEFAULT_MTU }),
    {
        TunController { config: TunConfig { address: 0, netmask: 0, mtu: DEFAULT_MTU } }
    }

    /// Translates one control-plane request. A stream that comes with the
    /// request is handed on untouched; an `Up` request gets the controller's
    /// MTU and the requested address and netmask.
    pub fn handle_event<S>(&self, event: DaemonEvent<S>) -> (out: TunEvent<S>)
        ensures
            out == self.event_for(event),
    {
        match event {
            DaemonEvent::RemoteAdd { bi } => TunEvent::SetRemote(Some(bi)),
            DaemonEvent::RemoteDel => TunEvent::SetRemote(None),
            DaemonEvent::Up { address, netmask } => TunEvent::Up(
                TunConfig { address, netmask, mtu: self.config.mtu },
            ),
            DaemonEvent::Down => TunEvent::Down,
        }
    }
}

/// The standalone edge: one device with a fixed address, for running the
/// device without a relay.
#[derive(Clone, Copy, Debug, PartialEq, Eq, Structural)]
pub struct App {
    pub config: TunConfig,
}

impl App {
    /// The standalone edge, with the device at 172.16.0.2/24 and the
    /// default MTU. It never fails.
    pub fn try_new() -> (res: Result<Self, DeviceError>)
        ensures
            res == Ok::<App, DeviceError>(
                App {
                    config: TunConfig {
                        address: STANDALONE_ADDRESS,
                        netmask: STANDALONE_NETMASK,
                        mtu: DEFAULT_MTU,
                    },
                },
            ),
    {
        Ok(
            App {
                config: TunConfig {
                    address: STANDALONE_ADDRESS,
                    netmask: STANDALONE_NETMASK,
                    mtu: DEFAULT_MTU,
                },
            },
        )
    }

    /// Takes the outcome of creating the edge's device, `D` being the
    /// handle on a created device, and hands the device on. A device that
    /// could not be created is the error `CreateFailed`.
    pub fn create_dev<D>(&self, created: Option<D>) -> (res: Result<D, DeviceError>)
        ensures
            res == match created {
                Some(device) => Ok::<D, DeviceError>(device),
                None => Err::<D, DeviceError>(DeviceError::CreateFailed),
            },
    {
        match created {
            Some(device) => Ok(device),
            None => Err(DeviceError::CreateFailed),
        }
    }
}

/// Whether a device is live, and with which configuration.
#[derive(Clone, Copy, Debug, PartialEq, Eq, Structural)]
pub enum TunState {
    Down,
    Up(TunConfig),
}

/// What the caller has to do after an event.
#[derive(Debug, PartialEq, Eq)]
pub enum TunAction<S> {
    /// Create the device; report the outcome with
    /// [`TunControllerInner::device_created`].
    CreateDevice(TunConfig),
    /// Close the live device.
    DestroyDevice,
    /// Keep this stream as the remote one, dropping any earlier one.
    AttachRemote(S),
    /// Drop the remote stream, if there is one.
    DetachRemote,
    /// `Up` came while a device was live: warn, do nothing.
    AlreadyUp,
    /// `Down` came while no device was live: warn, do nothing.
    AlreadyDown,
}

/// What the device task is to wait for next.
#[derive(Clone, Copy, Debug, PartialEq, Eq, Structural)]
pub enum PumpMode {
    /// No device: wait for control events only.
    Idle,
    /// A device but no remote stream: the pump rests, wait for control
    /// events only.
    Paused,
    /// A device and a remote stream: race both reads, then drain pending
    /// control events.
    Pumping,
}

/// One side of the pump.
#[derive(Clone, Copy, Debug, PartialEq, Eq, Structural)]
pub enum Endpoint {
    Device,
    Remote,
}

/// What the pump does with the outcome of one read.
#[derive(Debug, PartialEq, Eq)]
pub enum Transfer<'a> {
    /// Write these bytes to this side.
    Write { to: Endpoint, bytes: &'a [u8] },
    /// The read failed: log it, and go on with both directions.
    Fault { from: Endpoint },
    /// The pump is not running, or nothing was read: write nothing.
    Skip,
}

/// The state of the device task: the one authority on whether a device is
/// live and whether a remote stream is attached.
#[derive(Clone, Copy, Debug, PartialEq, Eq, Structural)]
pub struct TunControllerInner {
    pub state: TunState,
    pub relay: bool,
}

impl TunControllerInner {
    /// The state after `event`. An `Up` event changes nothing by itself:
    /// the device has yet to be created.
    pub open spec fn after_event<S>(self, event: TunEvent<S>) -> Self {
        match event {
            TunEvent::SetRemote(remote) => TunControllerInner {
                state: self.state,
                relay: remote is Some,
            },
            TunEvent::Up(_) => self,
            TunEvent::Down => TunControllerInner { state: TunState::Down, relay: self.relay },
        }
    }

    /// What the caller is asked to do on `event`.
    pub open spec fn action_for<S>(self, event: TunEvent<S>) -> TunAction<S> {
        match event {
            TunEvent::SetRemote(Some(stream)) => TunAction::AttachRemote(stream),
            TunEvent::SetRemote(None) => TunAction::DetachRemote,
            TunEvent::Up(config) => if self.state is Down {
                TunAction::CreateDevice(config)
            } else {
                TunAction::AlreadyUp
            },
            TunEvent::Down => if self.state is Down {
                TunAction::AlreadyDown
            } else {
                TunAction::DestroyDevice
            },
        }
    }

    /// The state after an attempt to create a device with `config`.
    pub open spec fn after_creation(self, config: TunConfig, created: bool) -> Self {
        if created && self.state is Down {
            TunControllerInner { state: TunState::Up(config), relay: self.relay }
        } else {
            self
        }
    }

    /// The state after `event`, and, where the event asks for a device,
    /// after the attempt to create it.
    pub open spec fn after_round<S>(self, event: TunEvent<S>, created: bool) -> Self {
        match self.action_for(event) {
            TunAction::CreateDevice(config) => self.after_event(event).after_creation(
                config,
                created,
            ),
            _ => self.after_event(event),
        }
    }

    /// Whether packets are pumped: a device is live and a remote stream is
    /// attached.
    pub open spec fn pump_active(self) -> bool {
        self.state is Up && self.relay
    }

    /// What the device task waits for in this state.
    pub open spec fn mode_of(self) -> PumpMode {
        if self.state is Down {
            PumpMode::Idle
        } else if self.relay {
            PumpMode::Pumping
        } else {
            PumpMode::Paused
        }
    }

    /// A controller with no device and no remote stream.
    pub fn prime() -> (ctl: Self)
        ensures
            ctl.state == TunState::Down,
            !ctl.relay,
    {
        TunControllerInner { state: TunState::Down, relay: false }
    }

    /// Takes one control event and says what the caller has to do.
    ///
    /// `SetRemote` attaches or detaches in any state and leaves the device
    /// alone. `Down` closes a live device; without one it is a no-op. `Up`
    /// without a device asks for one and waits for
    /// [`device_created`](Self::device_created); with a live device it is
    /// turned down and changes nothing.
    pub fn handle_event<S>(&mut self, event: TunEvent<S>) -> (action: TunAction<S>)
        ensures
            *final(self) == old(self).after_event(event),
            action == old(self).action_for(event),
    {
        match event {
            TunEvent::SetRemote(Some(stream)) => {
                self.relay = true;
                TunAction::AttachRemote(stream)
            },
            TunEvent::SetRemote(None) => {
                self.relay = false;
                TunAction::DetachRemote
            },
            TunEvent::Up(config) => match self.state {
                TunState::Down => TunAction::CreateDevice(config),
                TunState::Up(_) => TunAction::AlreadyUp,
            },
            TunEvent::Down => match self.state {
                TunState::Down => TunAction::AlreadyDown,
                TunState::Up(_) => {
                    self.state = TunState::Down;
                    TunAction::DestroyDevice
                },
            },
        }
    }

    /// Takes the outcome of creating the device that a `CreateDevice`
    /// action asked for.
    ///
    /// A created device makes the controller `Up` with `config`. A failure
    /// leaves it `Down` and is handed back for the one who asked. With a
    /// device live already nothing changes and `AlreadyUp` is returned: the
    /// caller must not keep a second device.
    pub fn device_created(&mut self, config: TunConfig, outcome: Result<(), DeviceError>) -> (res:
        Result<(), DeviceError>)
        ensures
            *final(self) == old(self).after_creation(config, outcome is Ok),
            old(self).state is Up ==> res == Err::<(), DeviceError>(DeviceError::AlreadyUp),
            old(self).state is Down ==> res == outcome,
    {
        match self.state {
            TunState::Up(_) => Err(DeviceError::AlreadyUp),
            TunState::Down => {
                if outcome.is_ok() {
                    self.state = TunState::Up(config);
                }
                outcome
            },
        }
    }

    /// What the device task is to wait for next.
    pub fn mode(&self) -> (mode: PumpMode)
        ensures
            mode == self.mode_of(),
            (mode == PumpMode::Pumping) == self.pump_active(),
    {
        match self.state {
            TunState::Down => PumpMode::Idle,
            TunState::Up(_) => if self.relay {
                PumpMode::Pumping
            } else {
                PumpMode::Paused
            },
        }
    }

    /// Decides what to do with the outcome of one read on side `from`, which
    /// put `read` bytes at the start of `buf` or failed (`None`).
    ///
    /// While the pump is active, what was read from one side is written to
    /// the other side byte for byte. A failed read is reported as a fault
    /// of that side and stops neither direction. Nothing is written while
    /// the pump rests, for an empty read, or for a count that `buf` cannot
    /// hold.
    pub fn pump<'a>(&self, from: Endpoint, read: Option<usize>, buf: &'a [u8]) -> (step: Transfer<
        'a,
    >)
        ensures
            match step {
                Transfer::Write { to, bytes } => {
                    &&& self.pump_active()
                    &&& read is Some
                    &&& 0 < read->Some_0 <= buf@.len()
                    &&& to == other_side(from)
                    &&& bytes@ == buf@.subrange(0, read->Some_0 as int)
                },
                Transfer::Fault { from: side } => self.pump_active() && read is None && side
                    == from,
                Transfer::Skip => !self.pump_active() || (read is Some && (read->Some_0 == 0
                    || read->Some_0 > buf@.len())),
            },
    {
        if !(self.mode() == PumpMode::Pumping) {
            return Transfer::Skip;
        }
        match read {
            None => Transfer::Fault { from },
            Some(amount) => if amount == 0 || amount > buf.len() {
                Transfer::Skip
            } else {
                Transfer::Write { to: opposite(from), bytes: slice_subrange(buf, 0, amount) }
            },
        }
    }
}

/// The side across from `side`.
pub open spec fn other_side(side: Endpoint) -> Endpoint {
    match side {
        Endpoint::Device => Endpoint::Remote,
        Endpoint::Remote => Endpoint::Device,
    }
}

/// The side across from `side`.
pub fn opposite(side: Endpoint) -> (other: Endpoint)
    ensures
        other == other_side(side),
{
    match side {
        Endpoint::Device => Endpoint::Remote,
        Endpoint::Remote => Endpoint::Device,
    }
}

/// Bringing a device up, down and up again leaves the controller `Up` with
/// the configuration of the second `Up`, provided both devices could be
/// created; the remote attachment is what it was.
pub proof fn lemma_up_down_up<S>(start: TunControllerInner, first: TunConfig, second: TunConfig)
    requires
        start.state is Down,
    ensures
        start.after_round(TunEvent::<S>::Up(first), true).state == TunState::Up(first),
        start.after_round(TunEvent::<S>::Up(first), true).after_round(
            TunEvent::<S>::Down,
            true,
        ).state == TunState::Down,
        start.after_round(TunEvent::<S>::Up(first), true).after_round(
            TunEvent::<S>::Down,
            true,
        ).after_round(TunEvent::<S>::Up(second), true) == (TunControllerInner {
            state: TunState::Up(second),
            relay: start.relay,
        }),
{
}

/// `Up` while a device is live changes nothing and asks for nothing but a
/// warning, whatever creating a device would have given.
pub proof fn lemma_up_while_up<S>(ctl: TunControllerInner, config: TunConfig, created: bool)
    requires
        ctl.state is Up,
    ensures
        ctl.after_round(TunEvent::<S>::Up(config), created) == ctl,
        ctl.action_for(TunEvent::<S>::Up(config)) == TunAction::<S>::AlreadyUp,
{
}

/// `Down` without a device changes nothing.
pub proof fn lemma_down_while_down<S>(ctl: TunControllerInner)
    requires
        ctl.state is Down,
    ensures
        ctl.after_event(TunEvent::<S>::Down) == ctl,
        ctl.action_for(TunEvent::<S>::Down) == TunAction::<S>::AlreadyDown,
{
}

/// Attaching or detaching the remote stream never touches the device
/// state, and a failed creation leaves the controller as it was.
pub proof fn lemma_device_untouched<S>(ctl: TunControllerInner, remote: Option<S>, config: TunConfig)
    ensures
        ctl.after_event(TunEvent::SetRemote(remote)).state == ctl.state,
        ctl.after_creation(config, false) == ctl,
{
}

/// A controller has at most one device: it asks for one only while it
/// has none, no event but a successful creation brings it up, and it asks
/// for the device to be closed exactly when an event takes it down.
pub proof fn lemma_one_device<S>(ctl: TunControllerInner, event: TunEvent<S>)
    ensures
        ctl.action_for(event) is CreateDevice ==> ctl.state is Down,
        ctl.state is Down ==> ctl.after_event(event).state is Down,
        ctl.action_for(event) is DestroyDevice <==> ctl.state is Up && ctl.after_event(
            event,
        ).state is Down,
{
}

} // verus!
