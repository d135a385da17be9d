//! How the pool's tasks report trouble to the main loop, and what the main
//! loop does about it.
//!
//! A task that hits an error decides two things from the kind of error alone:
//! whether it goes on with its own loop, and what it tells the main loop. The
//! main loop decides from the report whether the pool keeps running.

use vstd::prelude::*;

verus! {

/// Which component a status report comes from.
#[derive(Clone, Copy, Debug, PartialEq, Eq, Structural)]
pub enum Sender {
    /// One downstream connection.
    Downstream,
    /// The listener that accepts downstream connections.
    DownstreamListener,
    /// The connection to the template provider.
    Upstream,
}

impl Sender {
    /// The sender of a connection that the listener has accepted.
    ///
    /// Only the listener hands out senders to connections.
    pub fn listener_to_connection(&self) -> (r: Sender)
        requires
            *self == Sender::DownstreamListener,
        ensures
            r == Sender::Downstream,
    {
        Sender::Downstream
    }
}

/// What went wrong, as far as the reaction depends on it.
#[derive(Clone, Copy, Debug, PartialEq, Eq, Structural)]
pub enum PoolErrorKind {
    Io,
    ChannelSend,
    ChannelRecv,
    BinarySv2,
    Codec,
    Noise,
    /// An error of the roles logic. The one that says that no downstream is
    /// connected is harmless.
    RolesLogic { no_downstreams_connected: bool },
    Custom,
    Framing,
    PoisonLock,
    ComponentShutdown,
    /// A downstream broke the protocol. `open_mining_channel_error` is set
    /// when the message at fault is the refusal to open a channel.
    Sv2ProtocolError { downstream_id: u32, open_mining_channel_error: bool },
}

/// An error of the pool: its kind, and its text for the log.
#[derive(Debug)]
pub struct PoolError {
    pub kind: PoolErrorKind,
    pub text: String,
}

/// What a task does after it has reported an error.
#[derive(Clone, Copy, Debug, PartialEq, Eq, Structural)]
pub enum ErrorBranch {
    /// Leave the loop.
    Break,
    /// Go on with the next item.
    Continue,
}

/// What the main loop is told.
#[derive(Debug)]
pub enum State {
    DownstreamShutdown(PoolError),
    TemplateProviderShutdown(PoolError),
    DownstreamInstanceDropped(u32),
    Healthy(String),
}

/// A message to the status loop of the main thread.
#[derive(Debug)]
pub struct Status {
    pub state: State,
}

/// What the main loop does with a status report.
#[derive(Clone, Copy, Debug, PartialEq, Eq, Structural)]
pub enum LoopAction {
    /// Stop the pool.
    Stop,
    /// Nothing to do: wait for the next report.
    Continue,
    /// Remove this downstream from the pool, and stop if that fails.
    DropDownstream(u32),
}

/// Whether a task goes on after an error of this kind.
///
/// It goes on after a failed send to one downstream, so that the others are
/// still served, after a noise error, and when no downstream is connected.
/// Every other error ends its loop.
pub open spec fn spec_error_branch(kind: PoolErrorKind) -> ErrorBranch {
    match kind {
        PoolErrorKind::ChannelSend => ErrorBranch::Continue,
        PoolErrorKind::Noise => ErrorBranch::Continue,
        PoolErrorKind::RolesLogic { no_downstreams_connected } => if no_downstreams_connected {
            ErrorBranch::Continue
        } else {
            ErrorBranch::Break
        },
        _ => ErrorBranch::Break,
    }
}

/// Whether a task goes on after an error of this kind.
pub fn error_branch(kind: PoolErrorKind) -> (r: ErrorBranch)
    ensures
        r == spec_error_branch(kind),
{
    match kind {
        PoolErrorKind::ChannelSend => ErrorBranch::Continue,
        PoolErrorKind::Noise => ErrorBranch::Continue,
        PoolErrorKind::RolesLogic { no_downstreams_connected: true } => ErrorBranch::Continue,
        _ => ErrorBranch::Break,
    }
}

/// The report that `sender` makes of the error `e`.
///
/// A downstream connection that was refused a channel asks to be dropped;
/// its other errors are reported as harmless, with their text. The listener
/// reports that no downstream is connected as harmless and anything else as
/// its own shutdown. The upstream reports every error as the shutdown of the
/// template provider.
pub fn status_for(sender: Sender, e: PoolError) -> (r: Status)
    ensures
        match sender {
            Sender::Downstream => match e.kind {
                PoolErrorKind::Sv2ProtocolError {
                    downstream_id,
                    open_mining_channel_error: true,
                } => r.state == State::DownstreamInstanceDropped(downstream_id),
                _ => r.state == State::Healthy(e.text),
            },
            Sender::DownstreamListener => match e.kind {
                PoolErrorKind::RolesLogic { no_downstreams_connected: true } => r.state matches State::Healthy(
                    text,
                ) && text@ == "No Downstreams Connected"@,
                _ => r.state == State::DownstreamShutdown(e),
            },
            Sender::Upstream => r.state == State::TemplateProviderShutdown(e),
        },
{
    match sender {
        Sender::Downstream => match e.kind {
            PoolErrorKind::Sv2ProtocolError { downstream_id, open_mining_channel_error: true } => Status {
                state: State::DownstreamInstanceDropped(downstream_id),
            },
            _ => Status { state: State::Healthy(e.text) },
        },
        Sender::DownstreamListener => match e.kind {
            PoolErrorKind::RolesLogic { no_downstreams_connected: true } => Status {
                state: State::Healthy("No Downstreams Connected".to_owned()),
            },
            _ => Status { state: State::DownstreamShutdown(e) },
        },
        Sender::Upstream => Status { state: State::TemplateProviderShutdown(e) },
    }
}

/// The reaction of a task to the error `e`: the report for the main loop,
/// and whether the task goes on.
pub fn handle_error(sender: Sender, e: PoolError) -> (r: (Status, ErrorBranch))
    ensures
        r.1 == spec_error_branch(e.kind),
        match sender {
            Sender::Downstream => match e.kind {
                PoolErrorKind::Sv2ProtocolError {
                    downstream_id,
                    open_mining_channel_error: true,
                } => r.0.state == State::DownstreamInstanceDropped(downstream_id),
                _ => r.0.state == State::Healthy(e.text),
            },
            Sender::DownstreamListener => match e.kind {
                PoolErrorKind::RolesLogic { no_downstreams_connected: true } => r.0.state matches State::Healthy(
                    text,
                ) && text@ == "No Downstreams Connected"@,
                _ => r.0.state == State::DownstreamShutdown(e),
            },
            Sender::Upstream => r.0.state == State::TemplateProviderShutdown(e),
        },
{
    let branch = error_branch(e.kind);
    (status_for(sender, e), branch)
}

/// What the main loop does with a report: both shutdowns stop the pool, a
/// dropped downstream is removed, and a healthy report changes nothing.
pub fn loop_action(state: &State) -> (r: LoopAction)
    ensures
        r == (match *state {
            State::DownstreamShutdown(_) => LoopAction::Stop,
            State::TemplateProviderShutdown(_) => LoopAction::Stop,
            State::Healthy(_) => LoopAction::Continue,
            State::DownstreamInstanceDropped(id) => LoopAction::DropDownstream(id),
        }),
{
    match state {
        State::DownstreamShutdown(_) => LoopAction::Stop,
        State::TemplateProviderShutdown(_) => LoopAction::Stop,
        State::Healthy(_) => LoopAction::Continue,
        State::DownstreamInstanceDropped(id) => LoopAction::DropDownstream(*id),
    }
}

} // verus!
