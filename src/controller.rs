use vstd::prelude::*;
use crate::topology::ProvisionError;

verus! {

/// Where the bridge stands in its connection lifecycle.
#[derive(Clone, Copy, Debug, PartialEq, Eq, Structural)]
pub enum BridgeState {
    Idle,
    Connecting,
    Connected,
    Disconnecting,
}

/// Why a connect did not go through.
#[derive(Debug)]
pub enum ConnectError {
    /// A session is already being set up or is live.
    AlreadyConnected,
    /// The transport connection or its channel could not be opened.
    Transport(String),
    /// Setting up the subscription failed.
    Provision(ProvisionError),
}

/// The answer to a connect asked for in phase `p`.
pub open spec fn connect_result(p: BridgeState) -> Result<(), ConnectError> {
    if p == BridgeState::Idle {
        Ok(())
    } else {
        Err(ConnectError::AlreadyConnected)
    }
}

/// The phase after a connect asked for in phase `p`.
pub open spec fn connect_phase(p: BridgeState) -> BridgeState {
    if p == BridgeState::Idle {
        BridgeState::Connecting
    } else {
        p
    }
}

/// The phase after a disconnect asked for in phase `p`: only a live session
/// has anything to tear down.
pub open spec fn disconnect_phase(p: BridgeState) -> BridgeState {
    if p == BridgeState::Connected {
        BridgeState::Disconnecting
    } else {
        p
    }
}

/// The controller's state: its phase and the connection, the channel and
/// the consume task of the live session. All three are held exactly while
/// connected; a connect in progress holds what it opened itself, and a
/// disconnect in progress holds what it took out.
pub struct RabbitState<C, H, T> {
    phase: BridgeState,
    connection: Option<C>,
    channel: Option<H>,
    consumer_task: Option<T>,
}

impl<C, H, T> RabbitState<C, H, T> {
    pub closed spec fn spec_phase(&self) -> BridgeState {
        self.phase
    }

    pub closed spec fn spec_connection(&self) -> Option<C> {
        self.connection
    }

    pub closed spec fn spec_channel(&self) -> Option<H> {
        self.channel
    }

    pub closed spec fn spec_consumer_task(&self) -> Option<T> {
        self.consumer_task
    }

    /// The session's three resources are all held or all absent, and held
    /// exactly while connected.
    pub open spec fn wf(&self) -> bool {
        &&& self.spec_connection() is Some <==> self.spec_phase() == BridgeState::Connected
        &&& self.spec_channel() is Some <==> self.spec_phase() == BridgeState::Connected
        &&& self.spec_consumer_task() is Some <==> self.spec_phase() == BridgeState::Connected
    }

    pub fn new() -> (r: Self)
        ensures
            r.wf(),
            r.spec_phase() == BridgeState::Idle,
    {
        RabbitState { phase: BridgeState::Idle, connection: None, channel: None, consumer_task: None }
    }

    pub fn phase(&self) -> (r: BridgeState)
        ensures
            r == self.spec_phase(),
    {
        self.phase
    }

    /// Claims the controller for a new session. Only an idle controller
    /// accepts; otherwise the answer is `AlreadyConnected` and nothing changes.
    pub fn begin_connect(&mut self) -> (r: Result<(), ConnectError>)
        requires
            old(self).wf(),
        ensures
            final(self).wf(),
            r == connect_result(old(self).spec_phase()),
            final(self).spec_phase() == connect_phase(old(self).spec_phase()),
            r is Err ==> *final(self) == *old(self),
    {
        if self.phase == BridgeState::Idle {
            self.phase = BridgeState::Connecting;
            Ok(())
        } else {
            Err(ConnectError::AlreadyConnected)
        }
    }

    /// Stores the resources of a session that was set up, which is then live.
    pub fn complete_connect(&mut self, connection: C, channel: H, consumer_task: T)
        requires
            old(self).wf(),
            old(self).spec_phase() == BridgeState::Connecting,
        ensures
            final(self).wf(),
            final(self).spec_phase() == BridgeState::Connected,
            final(self).spec_connection() == Some(connection),
            final(self).spec_channel() == Some(channel),
            final(self).spec_consumer_task() == Some(consumer_task),
    {
        self.connection = Some(connection);
        self.channel = Some(channel);
        self.consumer_task = Some(consumer_task);
        self.phase = BridgeState::Connected;
    }

    /// Gives the controller back after a connect that failed; whatever the
    /// attempt opened has been released by it.
    pub fn abandon_connect(&mut self)
        requires
            old(self).wf(),
            old(self).spec_phase() == BridgeState::Connecting,
        ensures
            final(self).wf(),
            final(self).spec_phase() == BridgeState::Idle,
    {
        self.phase = BridgeState::Idle;
    }

    /// Takes the live session's resources out for teardown. In any other
    /// phase there is nothing to take, and nothing changes.
    pub fn begin_disconnect(&mut self) -> (r: Option<(C, H, T)>)
        requires
            old(self).wf(),
        ensures
            final(self).wf(),
            final(self).spec_phase() == disconnect_phase(old(self).spec_phase()),
            old(self).spec_phase() == BridgeState::Connected ==> r == Some(
                (
                    old(self).spec_connection()->Some_0,
                    old(self).spec_channel()->Some_0,
                    old(self).spec_consumer_task()->Some_0,
                ),
            ),
            old(self).spec_phase() != BridgeState::Connected ==> r is None && *final(self) == *old(
                self,
            ),
    {
        if self.phase == BridgeState::Connected {
            let connection = self.connection.take();
            let channel = self.channel.take();
            let consumer_task = self.consumer_task.take();
            self.phase = BridgeState::Disconnecting;
            match (connection, channel, consumer_task) {
                (Some(c), Some(h), Some(t)) => Some((c, h, t)),
                _ => None,
            }
        } else {
            None
        }
    }

    /// Marks the teardown done: the controller is idle again.
    pub fn finish_disconnect(&mut self)
        requires
            old(self).wf(),
            old(self).spec_phase() == BridgeState::Disconnecting,
        ensures
            final(self).wf(),
            final(self).spec_phase() == BridgeState::Idle,
    {
        self.phase = BridgeState::Idle;
    }
}

/// Once a connect has been accepted, another one before a disconnect is
/// refused with `AlreadyConnected` and leaves the phase as it was, both while
/// the first is still being set up and after it has connected.
pub proof fn lemma_second_connect_refused(p: BridgeState)
    requires
        connect_result(p) is Ok,
    ensures
        connect_result(connect_phase(p)) == Err::<(), ConnectError>(ConnectError::AlreadyConnected),
        connect_phase(connect_phase(p)) == connect_phase(p),
        connect_result(BridgeState::Connected) == Err::<(), ConnectError>(
            ConnectError::AlreadyConnected,
        ),
        connect_phase(BridgeState::Connected) == BridgeState::Connected,
{
}

/// A disconnect on an idle controller has nothing to tear down and leaves
/// it idle.
pub proof fn lemma_disconnect_when_idle()
    ensures
        disconnect_phase(BridgeState::Idle) == BridgeState::Idle,
{
}

} // verus!
