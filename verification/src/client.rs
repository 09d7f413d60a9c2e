//! The connection supervisor: at most one session at a time, a shutdown
//! signal that can be sent once, and the connection flag.

use crate::session::{idle_session, Session};
use vstd::prelude::*;

verus! {

/// The supervisor's state.
#[derive(Debug)]
pub struct GatewayClient {
    /// A session has been launched and its shutdown signal not yet sent.
    shutdown_armed: bool,
    /// The connection flag, as the session last wrote it.
    connected: bool,
}

/// What a supervisor holds.
pub struct GatewayClientView {
    /// A session has been launched and its shutdown signal not yet sent.
    pub shutdown_armed: bool,
    /// The connection flag.
    pub connected: bool,
}

/// What `connect` asks of the caller.
#[derive(Debug)]
pub struct Launch {
    /// A session launched earlier has to be told to stop, and has to let go
    /// of the connection flag, before the new one is started.
    pub stop_previous: bool,
    /// The new session, idle: run it detached and feed it the connect request.
    pub session: Session,
}

impl View for GatewayClient {
    type V = GatewayClientView;

    closed spec fn view(&self) -> GatewayClientView {
        GatewayClientView { shutdown_armed: self.shutdown_armed, connected: self.connected }
    }
}

/// A supervisor without a session.
pub open spec fn unconnected() -> GatewayClientView {
    GatewayClientView { shutdown_armed: false, connected: false }
}

/// What `connect` does: the supervisor afterwards, and whether a session
/// launched earlier has to be stopped first. A fresh signal is held, and the
/// flag is down until the new session raises it.
pub open spec fn connect_outcome(client: GatewayClientView) -> (GatewayClientView, bool) {
    (GatewayClientView { shutdown_armed: true, connected: false }, client.shutdown_armed)
}

/// What `disconnect` does: the supervisor afterwards, and whether the
/// shutdown signal is to be sent. No signal is held afterwards and the flag
/// is down, whatever went before.
pub open spec fn disconnect_outcome(client: GatewayClientView) -> (GatewayClientView, bool) {
    (unconnected(), client.shutdown_armed)
}

impl GatewayClient {
    /// A supervisor without a session.
    pub fn new() -> (client: GatewayClient)
        ensures
            client@ == unconnected(),
    {
        GatewayClient { shutdown_armed: false, connected: false }
    }

    /// The connection flag. It is what the session last wrote and may lag
    /// behind the session by a moment.
    pub fn is_connected(&self) -> (connected: bool)
        ensures
            connected == self@.connected,
    {
        self.connected
    }

    /// Whether a shutdown signal is held for a launched session.
    pub fn has_session(&self) -> (armed: bool)
        ensures
            armed == self@.shutdown_armed,
    {
        self.shutdown_armed
    }

    /// Prepares a new session for `token`. A session launched earlier is to
    /// be stopped first; the call itself neither waits nor fails.
    pub fn connect(&mut self, token: String) -> (launch: Launch)
        ensures
            (final(self)@, launch.stop_previous) == connect_outcome(old(self)@),
            launch.session@ == idle_session(token@),
    {
        let stop_previous = self.shutdown_armed;
        self.shutdown_armed = true;
        self.connected = false;
        Launch { stop_previous, session: Session::new(token) }
    }

    /// Asks the running session to stop. The answer says whether the shutdown
    /// signal is to be sent: only once per session, and not at all where none
    /// was launched. The flag is down afterwards in every case.
    pub fn disconnect(&mut self) -> (send_signal: bool)
        ensures
            (final(self)@, send_signal) == disconnect_outcome(old(self)@),
    {
        let send_signal = self.shutdown_armed;
        self.shutdown_armed = false;
        self.connected = false;
        send_signal
    }

    /// Records the session's write to the connection flag.
    pub fn set_connected(&mut self, connected: bool)
        ensures
            final(self)@ == (GatewayClientView { connected, ..old(self)@ }),
    {
        self.connected = connected;
    }
}

impl Default for GatewayClient {
    fn default() -> (client: GatewayClient)
        ensures
            client@ == unconnected(),
    {
        GatewayClient::new()
    }
}

/// Without a session, disconnecting sends no signal and leaves the flag down.
pub proof fn lemma_disconnect_without_session(client: GatewayClientView)
    requires
        !client.shutdown_armed,
    ensures
        disconnect_outcome(client) == (unconnected(), false),
{
}

/// Disconnecting twice is disconnecting once: the second call finds no signal
/// to send and leaves the supervisor as the first left it.
pub proof fn lemma_disconnect_is_idempotent(client: GatewayClientView)
    ensures
        disconnect_outcome(disconnect_outcome(client).0) == (disconnect_outcome(client).0, false),
{
}

/// The shutdown signal of a session is sent at most once: whichever of
/// `connect` and `disconnect` comes first after a launch sends it, and a
/// `disconnect` after that sends none.
pub proof fn lemma_signal_is_sent_once(client: GatewayClientView)
    ensures
        connect_outcome(connect_outcome(client).0).1,
        disconnect_outcome(connect_outcome(client).0).1,
        !disconnect_outcome(disconnect_outcome(connect_outcome(client).0).0).1,
        !connect_outcome(disconnect_outcome(connect_outcome(client).0).0).1,
{
}

} // verus!
