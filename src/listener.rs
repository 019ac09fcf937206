//! The accept loop: bind once, then hand every accepted connection to a
//! handler of its own and go on accepting, whatever an accept brings.
use vstd::prelude::*;

verus! {

/// The port listened on unless told otherwise.
pub const DEFAULT_PORT: u16 = 8080;

/// Where the server listens: an IPv4 address, as its four octets, and a port.
#[derive(Clone, Copy, Debug)]
pub struct ServerConfig {
    pub host: [u8; 4],
    pub port: u16,
}

/// The configuration used when none is given: every interface, port 8080.
pub open spec fn is_default_config(c: ServerConfig) -> bool {
    &&& c.host@ == seq![0u8, 0u8, 0u8, 0u8]
    &&& c.port == DEFAULT_PORT
}

impl Default for ServerConfig {
    fn default() -> (r: ServerConfig)
        ensures
            is_default_config(r),
    {
        let r = ServerConfig { host: [0u8, 0u8, 0u8, 0u8], port: DEFAULT_PORT };
        assert(r.host@ =~= seq![0u8, 0u8, 0u8, 0u8]);
        r
    }
}

/// Where the listener stands.
#[derive(Clone, Copy, Debug, PartialEq, Eq, Structural)]
pub enum ListenerPhase {
    /// Waiting for the outcome of the bind.
    Binding,
    /// Bound; waiting for the outcome of the next accept.
    Accepting,
    /// The bind failed; the process ends.
    Stopped,
}

/// What came of binding the listening socket.
pub enum BindOutcome {
    Bound,
    Failed,
}

/// What came of one accept.
pub enum AcceptOutcome {
    /// A connection was accepted; it stays with the caller until spawned.
    Accepted,
    /// The accept failed.
    Failed,
}

/// The next thing the listener asks for.
pub enum ListenerAction {
    /// Bind a listening socket to this address; hand the outcome to `handle_bind`.
    Bind { config: ServerConfig },
    /// The socket could not be bound: end the process.
    Abort,
    /// Log that the server listens on `port`, then accept; hand the outcome to
    /// `handle_accept`.
    Announce { port: u16 },
    /// Run the accepted connection's handler on a unit of its own, without
    /// waiting for it, and accept again.
    Spawn,
    /// Log that the accept failed and accept again.
    ReportAcceptFailure,
}

/// The listener's state, as its phase and the address it was started with.
pub struct Listener {
    phase: ListenerPhase,
    config: ServerConfig,
}

impl Listener {
    /// The phase the listener is in.
    pub closed spec fn spec_phase(&self) -> ListenerPhase {
        self.phase
    }

    /// The address the listener was started with.
    pub closed spec fn spec_config(&self) -> ServerConfig {
        self.config
    }

    /// Starts a listener on `config` and asks for the bind.
    pub fn start(config: ServerConfig) -> (r: (Listener, ListenerAction))
        ensures
            r.0.spec_phase() == ListenerPhase::Binding,
            r.0.spec_config() == config,
            r.1 == (ListenerAction::Bind { config }),
    {
        (Listener { phase: ListenerPhase::Binding, config }, ListenerAction::Bind { config })
    }

    /// Where the listener stands.
    pub fn phase(&self) -> (r: ListenerPhase)
        ensures
            r == self.spec_phase(),
    {
        self.phase
    }

    /// The address the listener was started with.
    pub fn config(&self) -> (r: ServerConfig)
        ensures
            r == self.spec_config(),
    {
        self.config
    }

    /// Decides on the outcome of the bind: a failure is fatal, with no retry
    /// and no other port; a success is announced and accepting begins.
    pub fn handle_bind(&mut self, outcome: BindOutcome) -> (a: ListenerAction)
        requires
            old(self).spec_phase() == ListenerPhase::Binding,
        ensures
            final(self).spec_config() == old(self).spec_config(),
            outcome is Bound ==> final(self).spec_phase() == ListenerPhase::Accepting && a == (
            ListenerAction::Announce { port: old(self).spec_config().port }),
            outcome is Failed ==> final(self).spec_phase() == ListenerPhase::Stopped && a
                is Abort,
    {
        match outcome {
            BindOutcome::Bound => {
                self.phase = ListenerPhase::Accepting;
                ListenerAction::Announce { port: self.config.port }
            },
            BindOutcome::Failed => {
                self.phase = ListenerPhase::Stopped;
                ListenerAction::Abort
            },
        }
    }

    /// Decides on the outcome of one accept. The listener keeps accepting
    /// either way: a connection is spawned, a failure is reported.
    pub fn handle_accept(&mut self, outcome: AcceptOutcome) -> (a: ListenerAction)
        requires
            old(self).spec_phase() == ListenerPhase::Accepting,
        ensures
            final(self).spec_phase() == ListenerPhase::Accepting,
            final(self).spec_config() == old(self).spec_config(),
            outcome is Accepted ==> a is Spawn,
            outcome is Failed ==> a is ReportAcceptFailure,
    {
        match outcome {
            AcceptOutcome::Accepted => ListenerAction::Spawn,
            AcceptOutcome::Failed => ListenerAction::ReportAcceptFailure,
        }
    }
}

/// The server's entry point: a listener on the default address, asking for
/// its bind. The caller performs each action the listener returns, for as
/// long as the process runs.
pub fn ukl_main() -> (r: (Listener, ListenerAction))
    ensures
        is_default_config(r.0.spec_config()),
        r.0.spec_phase() == ListenerPhase::Binding,
        r.1 == (ListenerAction::Bind { config: r.0.spec_config() }),
{
    Listener::start(ServerConfig::default())
}

} // verus!
