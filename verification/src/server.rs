//! The life cycle of the server: `Unbound`, `Bound`, `Running`,
//! `Terminated`.
//!
//! The server owns no socket. Its caller binds one, waits on it and on the
//! shutdown signal, and tells the server what happened; the server answers
//! with what to do next.

use crate::reflector::{
    handle_datagram, may_come_of, outcome_on, triaged, DiscardReason, Outcome, SourceAddr,
};
use crate::table::SessionTable;
use crate::wire::reply_bytes;
use std::sync::Arc;
use vstd::prelude::*;
use vstd::string::*;

verus! {

/// `std::io::ErrorKind`, the kind of an I/O error. It is carried from a
/// failed bind into the [`BindError`] and never looked into.
#[verifier::external_type_specification]
#[verifier::external_body]
pub struct ExErrorKind(std::io::ErrorKind);

/// The UDP port the server listens on.
pub const SIGNALING_PORT: u16 = 3657;

/// Where the server is in its life.
#[derive(Clone, Copy, Debug, PartialEq, Eq, Structural)]
pub enum Phase {
    /// No socket has been bound yet.
    Unbound,
    /// A socket is bound; the loop has not started.
    Bound,
    /// The loop is receiving and answering.
    Running,
    /// The loop has ended, for good.
    Terminated,
}

/// A failed bind: the kind of the I/O error and the address that was tried.
#[derive(Debug)]
pub struct BindError {
    /// The kind of the underlying I/O error.
    pub kind: std::io::ErrorKind,
    /// The address that could not be bound, as `host:port`.
    pub address: String,
}

/// How a receive failed.
#[derive(Clone, Copy, Debug, PartialEq, Eq, Structural)]
pub enum ReceiveError {
    /// The operation would have blocked.
    WouldBlock,
    /// The operation timed out.
    TimedOut,
    /// Anything else.
    Other,
}

/// What the caller reports to the server.
#[derive(Clone, Copy, Debug)]
pub enum Event<'a> {
    /// A datagram arrived.
    Datagram { payload: &'a [u8], source: SourceAddr },
    /// Receiving failed.
    ReceiveFailed(ReceiveError),
    /// The reply asked for by the last directive was sent.
    ReplySent,
    /// The reply asked for by the last directive could not be sent.
    ReplyFailed,
    /// The shutdown signal changed.
    Shutdown,
}

/// An event as the life cycle sees it: a datagram counts by what became of
/// it.
#[derive(Clone, Copy, Debug, PartialEq, Eq)]
pub enum Signal {
    /// A datagram arrived and was handled.
    Handled(Outcome),
    /// Receiving failed.
    ReceiveFailed(ReceiveError),
    /// The reply was sent.
    ReplySent,
    /// The reply could not be sent.
    ReplyFailed,
    /// The shutdown signal changed.
    Shutdown,
}

/// Why the loop ends.
#[derive(Clone, Copy, Debug, PartialEq, Eq, Structural)]
pub enum StopCause {
    /// Receiving failed, and not for a passing reason.
    ReceiveFailed,
    /// A reply could not be sent.
    ReplyFailed,
    /// The shutdown signal changed.
    Shutdown,
    /// The loop is not running: it has not started, or it has ended.
    NotRunning,
}

/// What the caller is to do next.
#[derive(Clone, Copy, Debug, PartialEq, Eq)]
pub enum Directive {
    /// Go on waiting.
    Wait,
    /// The datagram was dropped for this reason; go on waiting.
    Discard(DiscardReason),
    /// Send these nine bytes to the datagram's source, then report
    /// `ReplySent` or `ReplyFailed`.
    Reply([u8; 9]),
    /// Leave the loop.
    Stop(StopCause),
}

impl ReceiveError {
    /// Whether the failure is a passing one, after which receiving goes on.
    pub open spec fn is_transient(self) -> bool {
        self is WouldBlock || self is TimedOut
    }

    /// Tells whether the failure is a passing one.
    pub fn transient(&self) -> (transient: bool)
        ensures
            transient == self.is_transient(),
    {
        match self {
            ReceiveError::WouldBlock => true,
            ReceiveError::TimedOut => true,
            ReceiveError::Other => false,
        }
    }
}

/// The address to bind for `host`: the host, a colon, the signaling port.
pub open spec fn bind_address_of(host: Seq<char>) -> Seq<char> {
    host + seq![':', '3', '6', '5', '7']
}

/// The text of a bind error for `address`.
pub open spec fn bind_error_text(address: Seq<char>) -> Seq<char> {
    "Error binding udp server to <"@ + address + ">"@
}

impl BindError {
    /// The error in words: what was being bound, and to which address.
    pub fn message(&self) -> (text: String)
        ensures
            text@ == bind_error_text(self.address@),
    {
        let mut text = String::from_str("Error binding udp server to <");
        text.append(self.address.as_str());
        text.append(">");
        text
    }
}

/// The step of the life cycle: the phase and the directive that follow from
/// a phase and a signal.
///
/// Only a running server acts. A datagram never ends the loop; a receive
/// failure ends it unless it is a passing one; a failed send and the
/// shutdown signal always end it.
pub open spec fn step(phase: Phase, signal: Signal) -> (Phase, Directive) {
    if phase != Phase::Running {
        (phase, Directive::Stop(StopCause::NotRunning))
    } else {
        match signal {
            Signal::Handled(Outcome::Reply(bytes)) => (Phase::Running, Directive::Reply(bytes)),
            Signal::Handled(Outcome::Discarded(why)) => (Phase::Running, Directive::Discard(why)),
            Signal::ReceiveFailed(error) => if error.is_transient() {
                (Phase::Running, Directive::Wait)
            } else {
                (Phase::Terminated, Directive::Stop(StopCause::ReceiveFailed))
            },
            Signal::ReplySent => (Phase::Running, Directive::Wait),
            Signal::ReplyFailed => (Phase::Terminated, Directive::Stop(StopCause::ReplyFailed)),
            Signal::Shutdown => (Phase::Terminated, Directive::Stop(StopCause::Shutdown)),
        }
    }
}

/// Whether `signal` is what the life cycle sees of `event`: the event
/// itself, or for a datagram one of the outcomes it can have.
pub open spec fn seen_as(event: Event<'_>, signal: Signal) -> bool {
    match event {
        Event::Datagram { payload, source } => signal matches Signal::Handled(outcome)
            && may_come_of(payload@, source, outcome),
        Event::ReceiveFailed(error) => signal == Signal::ReceiveFailed(error),
        Event::ReplySent => signal == Signal::ReplySent,
        Event::ReplyFailed => signal == Signal::ReplyFailed,
        Event::Shutdown => signal == Signal::Shutdown,
    }
}

/// Takes one step of the life cycle.
pub fn advance(phase: Phase, signal: Signal) -> (next: (Phase, Directive))
    ensures
        next == step(phase, signal),
{
    match phase {
        Phase::Running => match signal {
            Signal::Handled(Outcome::Reply(bytes)) => (Phase::Running, Directive::Reply(bytes)),
            Signal::Handled(Outcome::Discarded(why)) => (Phase::Running, Directive::Discard(why)),
            Signal::ReceiveFailed(error) => if error.transient() {
                (Phase::Running, Directive::Wait)
            } else {
                (Phase::Terminated, Directive::Stop(StopCause::ReceiveFailed))
            },
            Signal::ReplySent => (Phase::Running, Directive::Wait),
            Signal::ReplyFailed => (Phase::Terminated, Directive::Stop(StopCause::ReplyFailed)),
            Signal::Shutdown => (Phase::Terminated, Directive::Stop(StopCause::Shutdown)),
        },
        _ => (phase, Directive::Stop(StopCause::NotRunning)),
    }
}

/// The signaling reflector: a host to bind, the shared session table, and
/// the phase of its life.
pub struct UdpServer {
    host: String,
    signaling_infos: Arc<SessionTable>,
    phase: Phase,
}

/// A server as contracts see it.
pub struct UdpServerView {
    /// The host the server binds.
    pub host: Seq<char>,
    /// The table the server updates.
    pub signaling_infos: Arc<SessionTable>,
    /// The phase the server is in.
    pub phase: Phase,
}

impl View for UdpServer {
    type V = UdpServerView;

    closed spec fn view(&self) -> UdpServerView {
        UdpServerView {
            host: self.host@,
            signaling_infos: self.signaling_infos,
            phase: self.phase,
        }
    }
}

impl UdpServer {
    /// A server for `s_host` and the given table, not yet bound.
    pub fn new(s_host: &str, signaling_infos: Arc<SessionTable>) -> (server: UdpServer)
        ensures
            server@ == (UdpServerView { host: s_host@, signaling_infos, phase: Phase::Unbound }),
    {
        UdpServer { host: String::from_str(s_host), signaling_infos, phase: Phase::Unbound }
    }

    /// The phase the server is in.
    pub fn phase(&self) -> (phase: Phase)
        ensures
            phase == self@.phase,
    {
        self.phase
    }

    /// The host the server binds.
    pub fn host(&self) -> (host: &str)
        ensures
            host@ == self@.host,
    {
        self.host.as_str()
    }

    /// The address to bind: the host, a colon, the signaling port.
    pub fn bind_address(&self) -> (address: String)
        ensures
            address@ == bind_address_of(self@.host),
    {
        let mut address = self.host.clone();
        address.append(":3657");
        proof {
            reveal_strlit(":3657");
            assert(":3657"@ =~= seq![':', '3', '6', '5', '7']);
        }
        address
    }

    /// Records how the attempt to bind [`Self::bind_address`] went.
    ///
    /// A bind that succeeded makes a server that has not started its loop
    /// `Bound`. A bind that failed changes nothing and comes back as a
    /// [`BindError`] with the kind of the failure and the address tried.
    /// A server whose loop has started never becomes `Bound` again.
    pub fn start(&mut self, attempt: Result<(), std::io::ErrorKind>) -> (started: Result<
        (),
        BindError,
    >)
        ensures
            final(self)@.host == old(self)@.host,
            final(self)@.signaling_infos == old(self)@.signaling_infos,
            match attempt {
                Ok(()) => {
                    &&& started is Ok
                    &&& final(self)@.phase == match old(self)@.phase {
                        Phase::Unbound | Phase::Bound => Phase::Bound,
                        later => later,
                    }
                },
                Err(kind) => {
                    &&& started matches Err(error)
                    &&& error.kind == kind
                    &&& error.address@ == bind_address_of(old(self)@.host)
                    &&& final(self)@.phase == old(self)@.phase
                },
            },
    {
        match attempt {
            Ok(()) => {
                match self.phase {
                    Phase::Unbound => {
                        self.phase = Phase::Bound;
                    },
                    _ => {},
                }
                Ok(())
            },
            Err(kind) => Err(BindError { kind, address: self.bind_address() }),
        }
    }

    /// Starts the loop. Only a bound server can start.
    pub fn enter_loop(&mut self)
        requires
            old(self)@.phase is Bound,
        ensures
            final(self)@ == (UdpServerView { phase: Phase::Running, ..old(self)@ }),
    {
        self.phase = Phase::Running;
    }

    /// Reacts to an event.
    ///
    /// A server that is not running does nothing, whatever the event: it
    /// looks at no datagram, touches no record and asks for no reply. A
    /// running server handles a datagram against the shared table as
    /// [`handle_datagram`] says, and takes the step that [`step`] gives for
    /// what became of it; every other event is a step by itself.
    pub fn on_event(&mut self, event: Event<'_>) -> (directive: Directive)
        ensures
            final(self)@.host == old(self)@.host,
            final(self)@.signaling_infos == old(self)@.signaling_infos,
            exists|signal: Signal| #[trigger]
                seen_as(event, signal) && (final(self)@.phase, directive) == step(
                    old(self)@.phase,
                    signal,
                ),
            !(old(self)@.phase is Running) ==> {
                &&& final(self)@.phase == old(self)@.phase
                &&& directive == Directive::Stop(StopCause::NotRunning)
            },
            old(self)@.phase is Running ==> match event {
                Event::Datagram { payload, source } => {
                    &&& final(self)@.phase is Running
                    &&& match triaged(payload@, source) {
                        Err(why) => directive == Directive::Discard(why),
                        Ok((_, seen)) => {
                            ||| directive == Directive::Reply(reply_bytes(seen.addr, seen.port))
                            ||| directive == Directive::Discard(DiscardReason::UnknownSession)
                        },
                    }
                },
                Event::ReceiveFailed(error) => (final(self)@.phase, directive) == step(
                    Phase::Running,
                    Signal::ReceiveFailed(error),
                ),
                Event::ReplySent => (final(self)@.phase, directive) == step(
                    Phase::Running,
                    Signal::ReplySent,
                ),
                Event::ReplyFailed => (final(self)@.phase, directive) == step(
                    Phase::Running,
                    Signal::ReplyFailed,
                ),
                Event::Shutdown => (final(self)@.phase, directive) == step(
                    Phase::Running,
                    Signal::Shutdown,
                ),
            },
            directive is Reply ==> old(self)@.phase is Running && event is Datagram,
            event is Shutdown ==> directive is Stop && !(final(self)@.phase is Running),
            old(self)@.phase is Terminated ==> final(self)@.phase is Terminated,
    {
        match self.phase {
            Phase::Running => {},
            _ => {
                proof {
                    let idle = match event {
                        Event::Datagram { payload, source } => Signal::Handled(
                            outcome_on(Map::empty(), payload@, source),
                        ),
                        Event::ReceiveFailed(error) => Signal::ReceiveFailed(error),
                        Event::ReplySent => Signal::ReplySent,
                        Event::ReplyFailed => Signal::ReplyFailed,
                        Event::Shutdown => Signal::Shutdown,
                    };
                    assert(seen_as(event, idle));
                }
                return Directive::Stop(StopCause::NotRunning);
            },
        }
        let signal = match event {
            Event::Datagram { payload, source } => Signal::Handled(
                handle_datagram(&self.signaling_infos, payload, &source),
            ),
            Event::ReceiveFailed(error) => Signal::ReceiveFailed(error),
            Event::ReplySent => Signal::ReplySent,
            Event::ReplyFailed => Signal::ReplyFailed,
            Event::Shutdown => Signal::Shutdown,
        };
        assert(seen_as(event, signal));
        let (phase, directive) = advance(self.phase, signal);
        self.phase = phase;
        directive
    }
}

/// The phase a server is in after a run of signals.
pub open spec fn phase_after(phase: Phase, signals: Seq<Signal>) -> Phase
    decreases signals.len(),
{
    if signals.len() == 0 {
        phase
    } else {
        step(phase_after(phase, signals.drop_last()), signals.last()).0
    }
}

/// The directive that the last of a run of signals is answered with.
pub open spec fn last_directive(phase: Phase, signals: Seq<Signal>) -> Directive
    recommends
        signals.len() > 0,
{
    step(phase_after(phase, signals.drop_last()), signals.last()).1
}

/// The loop never starts by itself and never starts again: a server that
/// is not running stays in the phase it is in, whatever signals come. So a
/// server that has terminated stays terminated.
pub proof fn law_running_is_never_entered(phase: Phase, signals: Seq<Signal>)
    requires
        phase != Phase::Running,
    ensures
        phase_after(phase, signals) == phase,
    decreases signals.len(),
{
    if signals.len() > 0 {
        law_running_is_never_entered(phase, signals.drop_last());
    }
}

/// Once the shutdown signal has been seen the loop is over: the signal
/// itself is answered with `Stop`, and so is everything that comes after
/// it, datagrams included. No reply is asked for from then on, and the
/// server is not running.
pub proof fn law_shutdown_ends_the_loop(phase: Phase, before: Seq<Signal>, after: Seq<Signal>)
    ensures
        last_directive(phase, before.push(Signal::Shutdown)) is Stop,
        phase_after(phase, before.push(Signal::Shutdown) + after) != Phase::Running,
        after.len() > 0 ==> last_directive(phase, before.push(Signal::Shutdown) + after) is Stop,
    decreases after.len(),
{
    let seen = before.push(Signal::Shutdown);
    assert(seen.drop_last() =~= before);
    assert(seen.last() == Signal::Shutdown);
    if after.len() == 0 {
        assert(seen + after =~= seen);
    } else {
        let all = seen + after;
        assert(all.drop_last() =~= seen + after.drop_last());
        assert(all.last() == after.last());
        law_shutdown_ends_the_loop(phase, before, after.drop_last());
    }
}

} // verus!
