//! What a translator decides for one downstream miner that speaks the first
//! version of the protocol.
//!
//! The translator sits between such miners and an upstream that speaks the
//! second version. For each miner it holds a [`Downstream`]. Messages reach
//! it from two sides, from the server task and from the miner, and each time
//! it decides what is sent on and what is kept for later. The rule it keeps:
//! a miner is told its difficulty before it is told the job that the
//! difficulty applies to, and not before it has subscribed and authorized.
//!
//! The functions here make the decisions. The task around them receives and
//! sends; `M` is the type of its messages and `T` that of a target.

use crate::text::reads_as;
use vstd::prelude::*;

verus! {

/// What a message from the server is, as far as its handling depends on it.
#[derive(Clone, Copy, Debug, PartialEq, Eq, Structural)]
pub enum MessageKind {
    /// The notification `mining.set_difficulty`.
    SetDifficulty,
    /// The notification `mining.notify`.
    Notify,
    /// Anything else.
    Other,
}

/// The kind of a message: of a notification by its method, `Other` for what
/// is no notification.
pub open spec fn spec_message_kind(notification: Option<Seq<char>>) -> MessageKind {
    match notification {
        Some(method) => if method == "mining.set_difficulty"@ {
            MessageKind::SetDifficulty
        } else if method == "mining.notify"@ {
            MessageKind::Notify
        } else {
            MessageKind::Other
        },
        None => MessageKind::Other,
    }
}

/// The kind of a message, from the method of the notification that it is, if
/// it is one.
pub fn message_kind(notification: Option<&str>) -> (r: MessageKind)
    ensures
        r == spec_message_kind(
            match notification {
                Some(method) => Some(method@),
                None => None,
            },
        ),
{
    match notification {
        Some(method) => {
            if reads_as(method, "mining.set_difficulty") {
                MessageKind::SetDifficulty
            } else if reads_as(method, "mining.notify") {
                MessageKind::Notify
            } else {
                MessageKind::Other
            }
        },
        None => MessageKind::Other,
    }
}

/// A message that the server task has broadcast.
pub struct ServerMessage<M> {
    /// The channel it is meant for; 0 means every channel.
    pub channel_id: u32,
    /// The downstream it is meant for; `None` means every downstream.
    pub downstream_id: Option<u32>,
    /// What kind of message it is.
    pub kind: MessageKind,
    /// The version field of the job, where the message can be read as a job
    /// notification.
    pub job_version: Option<u32>,
    /// The message itself.
    pub message: M,
}

/// What is to be done with a message from the server.
pub enum ServerAction<M> {
    /// Nothing: the message is for someone else, or it is neither sent nor
    /// kept before the handshake is complete.
    Nothing,
    /// Nothing now: the message was put aside.
    Cached,
    /// Send the message on as it is.
    Forward(M),
    /// Send the difficulty that was put aside, if any, and then the job. The
    /// job goes out with its flag to drop earlier jobs set exactly when a
    /// difficulty went before it. There is no job to send when the message
    /// could not be read as one.
    Notify { set_difficulty: Option<M>, job: Option<M>, clean_jobs: bool },
}

/// What is to be done after the miner's message has been handled.
#[derive(Clone, Copy, Debug, PartialEq, Eq, Structural)]
pub struct DownstreamPlan {
    /// Send the response to the miner.
    pub send_response: bool,
    /// The miner has authorized: complete the handshake.
    pub complete_handshake: bool,
    /// Pass a share that is waiting on to the server.
    pub forward_share: bool,
    /// Handling failed: report the error and stop.
    pub fail: bool,
}

/// How the handling of a miner's message ended.
#[derive(Clone, Copy, Debug, PartialEq, Eq, Structural)]
pub enum Handled {
    /// With a response for the miner.
    Response,
    /// Without a response.
    NoResponse,
    /// With an error.
    Failed,
}

/// A share that a miner has submitted, with what the server needs to check
/// it and to pass it on. `S` is the type of the miner's submit message.
#[derive(Debug, Clone)]
pub struct SubmitShareWithChannelId<S> {
    /// The upstream channel that the share belongs to.
    pub channel_id: u32,
    /// The downstream that submitted it.
    pub downstream_id: u32,
    /// The share as the miner sent it.
    pub share: S,
    /// The whole extranonce that the share was mined with.
    pub extranonce: Vec<u8>,
    /// How many of its bytes the miner rolled.
    pub extranonce2_len: usize,
    /// The mask of the version bits that the miner may roll.
    pub version_rolling_mask: Option<u32>,
    /// The version field of the job.
    pub job_version: Option<u32>,
}

/// What a downstream sends to the server task.
#[derive(Debug)]
pub enum DownstreamMessages<S> {
    /// A share that a miner has submitted.
    SubmitShares(SubmitShareWithChannelId<S>),
}

/// A new target for a downstream that waits for the upstream to confirm it.
#[derive(Debug, Clone)]
pub struct PendingTargetUpdate<T> {
    pub downstream_id: u32,
    pub new_target: T,
    /// The hashrate that goes with the target, as the bits of a 32 bit
    /// float.
    pub new_hashrate: u32,
}

/// A request to shut tasks down.
#[derive(Clone, Copy, Debug, PartialEq, Eq, Structural)]
pub enum ShutdownMessage {
    /// Everything stops.
    ShutdownAll,
    /// The downstream with this id stops.
    DownstreamShutdown(u32),
    /// Every downstream stops.
    DownstreamShutdownAll,
    /// The upstream came back: every downstream stops and starts afresh.
    UpstreamReconnectedResetAndShutdownDownstreams,
}

/// What woke the task of a downstream.
#[derive(Clone, Copy, Debug, PartialEq, Eq, Structural)]
pub enum TaskEvent {
    /// A shutdown request arrived.
    Shutdown(ShutdownMessage),
    /// The shutdown channel is closed.
    ShutdownClosed,
    /// A message of the miner or of the server was handled; `failed` says
    /// whether with an error.
    Handled { failed: bool },
    /// Every channel is closed.
    AllClosed,
}

/// Whether the task of downstream `downstream_id` ends on `event`.
///
/// It ends on every shutdown request but one for another downstream, on a
/// failed handler, and when its channels are closed.
pub open spec fn spec_task_ends(event: TaskEvent, downstream_id: u32) -> bool {
    match event {
        TaskEvent::Shutdown(ShutdownMessage::DownstreamShutdown(id)) => id == downstream_id,
        TaskEvent::Shutdown(_) => true,
        TaskEvent::ShutdownClosed => true,
        TaskEvent::Handled { failed } => failed,
        TaskEvent::AllClosed => true,
    }
}

/// Whether the task of downstream `downstream_id` ends on `event`.
pub fn task_ends(event: TaskEvent, downstream_id: u32) -> (r: bool)
    ensures
        r == spec_task_ends(event, downstream_id),
{
    match event {
        TaskEvent::Shutdown(ShutdownMessage::DownstreamShutdown(id)) => id == downstream_id,
        TaskEvent::Shutdown(_) => true,
        TaskEvent::ShutdownClosed => true,
        TaskEvent::Handled { failed } => failed,
        TaskEvent::AllClosed => true,
    }
}

/// The id under which every miner is subscribed.
pub fn new_subscription_id() -> (r: String)
    ensures
        r@ == "ae6812eb4cd7735a302a8a9dd95cf71f"@,
{
    "ae6812eb4cd7735a302a8a9dd95cf71f".to_owned()
}

/// The state of one downstream miner.
#[derive(Debug)]
pub struct Downstream<M, T> {
    /// The id of this connection.
    pub downstream_id: u32,
    /// The channel that was opened for it upstream, once there is one.
    pub channel_id: Option<u32>,
    /// The miner has subscribed and authorized.
    pub sv1_handshake_complete: bool,
    /// The difficulty that is to go out before the next job.
    pub cached_set_difficulty: Option<M>,
    /// The job that arrived before the handshake was complete.
    pub cached_notify: Option<M>,
    /// The target in force.
    pub target: T,
    /// The hashrate in force, as the bits of a 32 bit float.
    pub hashrate: Option<u32>,
    /// The target that comes into force with the next difficulty sent.
    pub pending_target: Option<T>,
    /// The hashrate that comes into force with the next difficulty sent.
    pub pending_hashrate: Option<u32>,
    /// The version field of the job that was sent last.
    pub last_job_version_field: Option<u32>,
}

impl<M, T> Downstream<M, T> {
    /// A downstream that has no channel yet and has not completed its
    /// handshake.
    pub fn new(downstream_id: u32, target: T, hashrate: Option<u32>) -> (r: Self)
        ensures
            r == (Downstream {
                downstream_id,
                channel_id: None::<u32>,
                sv1_handshake_complete: false,
                cached_set_difficulty: None::<M>,
                cached_notify: None::<M>,
                target,
                hashrate,
                pending_target: None::<T>,
                pending_hashrate: None::<u32>,
                last_job_version_field: None::<u32>,
            }),
    {
        Downstream {
            downstream_id,
            channel_id: None,
            sv1_handshake_complete: false,
            cached_set_difficulty: None,
            cached_notify: None,
            target,
            hashrate,
            pending_target: None,
            pending_hashrate: None,
            last_job_version_field: None,
        }
    }

    /// A message for channel `channel_id` and downstream `downstream_id` is
    /// meant for this downstream: the channel is its own or 0, and the
    /// downstream is its own or not given.
    pub open spec fn spec_addressed(&self, channel_id: u32, downstream_id: Option<u32>) -> bool {
        (self.channel_id == Some(channel_id) || channel_id == 0) && (downstream_id is None
            || downstream_id == Some(self.downstream_id))
    }

    /// Whether a message for channel `channel_id` and downstream
    /// `downstream_id` is meant for this downstream.
    pub fn addressed(&self, channel_id: u32, downstream_id: Option<u32>) -> (r: bool)
        ensures
            r == self.spec_addressed(channel_id, downstream_id),
    {
        let channel_matches = match self.channel_id {
            Some(own) => own == channel_id || channel_id == 0,
            None => channel_id == 0,
        };
        let downstream_matches = match downstream_id {
            Some(id) => id == self.downstream_id,
            None => true,
        };
        channel_matches && downstream_matches
    }

    /// Decides what happens with a message from the server.
    ///
    /// A message for someone else is passed over. A difficulty is never sent
    /// at once: it is put aside, in place of one that was waiting, and goes
    /// out in front of the next job. Before the handshake is complete a job
    /// is put aside too and everything else is dropped. After it, a job
    /// takes the waiting difficulty with it, and everything else is sent on
    /// as it is.
    pub fn handle_sv1_server_message(&mut self, incoming: ServerMessage<M>) -> (r: ServerAction<M>)
        ensures
            !old(self).spec_addressed(incoming.channel_id, incoming.downstream_id) ==> r
                == ServerAction::<M>::Nothing && *final(self) == *old(self),
            old(self).spec_addressed(incoming.channel_id, incoming.downstream_id) ==> (match (
                old(self).sv1_handshake_complete,
                incoming.kind,
            ) {
                (_, MessageKind::SetDifficulty) => r == ServerAction::<M>::Cached && *final(self)
                    == (Downstream { cached_set_difficulty: Some(incoming.message), ..*old(self) }),
                (true, MessageKind::Notify) => r == (ServerAction::Notify {
                    set_difficulty: old(self).cached_set_difficulty,
                    job: if incoming.job_version is Some {
                        Some(incoming.message)
                    } else {
                        None::<M>
                    },
                    clean_jobs: old(self).cached_set_difficulty is Some,
                }) && *final(self) == (Downstream { cached_set_difficulty: None::<M>, ..*old(self) }),
                (true, MessageKind::Other) => r == ServerAction::Forward(incoming.message)
                    && *final(self) == *old(self),
                (false, MessageKind::Notify) => r == ServerAction::<M>::Cached && *final(self)
                    == (Downstream { cached_notify: Some(incoming.message), ..*old(self) }),
                (false, MessageKind::Other) => r == ServerAction::<M>::Nothing && *final(self)
                    == *old(self),
            }),
    {
        if !self.addressed(incoming.channel_id, incoming.downstream_id) {
            return ServerAction::Nothing;
        }
        match incoming.kind {
            MessageKind::SetDifficulty => {
                self.cached_set_difficulty = Some(incoming.message);
                ServerAction::Cached
            },
            MessageKind::Notify => {
                if self.sv1_handshake_complete {
                    let mut set_difficulty: Option<M> = None;
                    std::mem::swap(&mut set_difficulty, &mut self.cached_set_difficulty);
                    let clean_jobs = set_difficulty.is_some();
                    let job = if incoming.job_version.is_some() {
                        Some(incoming.message)
                    } else {
                        None
                    };
                    ServerAction::Notify { set_difficulty, job, clean_jobs }
                } else {
                    self.cached_notify = Some(incoming.message);
                    ServerAction::Cached
                }
            },
            MessageKind::Other => {
                if self.sv1_handshake_complete {
                    ServerAction::Forward(incoming.message)
                } else {
                    ServerAction::Nothing
                }
            },
        }
    }

    /// Records that a difficulty has gone out to the miner: the target and
    /// the hashrate that were waiting for it come into force.
    pub fn set_difficulty_sent(&mut self)
        ensures
            *final(self) == (Downstream {
                target: match old(self).pending_target {
                    Some(t) => t,
                    None => old(self).target,
                },
                hashrate: match old(self).pending_hashrate {
                    Some(h) => Some(h),
                    None => old(self).hashrate,
                },
                pending_target: None::<T>,
                pending_hashrate: None::<u32>,
                ..*old(self)
            }),
    {
        let mut target: Option<T> = None;
        std::mem::swap(&mut target, &mut self.pending_target);
        match target {
            Some(t) => {
                self.target = t;
            },
            None => {},
        }
        let mut hashrate: Option<u32> = None;
        std::mem::swap(&mut hashrate, &mut self.pending_hashrate);
        match hashrate {
            Some(h) => {
                self.hashrate = Some(h);
            },
            None => {},
        }
    }

    /// Records the version field of the job that is about to go out.
    pub fn job_sent(&mut self, version: u32)
        ensures
            *final(self) == (Downstream { last_job_version_field: Some(version), ..*old(self) }),
    {
        self.last_job_version_field = Some(version);
    }

    /// Decides what follows the handling of a message from the miner.
    ///
    /// `request_method` is the method of the miner's message where it is a
    /// request. A response is sent only to a miner that has a channel, and
    /// only then does an authorize request complete the handshake. A share
    /// that is waiting is passed on unless handling failed.
    pub fn handle_downstream_message(&self, handled: Handled, request_method: Option<&str>) -> (r:
        DownstreamPlan)
        ensures
            r.send_response == (handled == Handled::Response && self.channel_id is Some),
            r.complete_handshake == (r.send_response && (request_method matches Some(method)
                && method@ == "mining.authorize"@)),
            r.forward_share == (handled != Handled::Failed),
            r.fail == (handled == Handled::Failed),
    {
        let send_response = match handled {
            Handled::Response => self.channel_id.is_some(),
            _ => false,
        };
        let authorize = match request_method {
            Some(method) => reads_as(method, "mining.authorize"),
            None => false,
        };
        let fail = match handled {
            Handled::Failed => true,
            _ => false,
        };
        DownstreamPlan {
            send_response,
            complete_handshake: send_response && authorize,
            forward_share: !fail,
            fail,
        }
    }

    /// Completes the handshake and hands out what was put aside during it:
    /// the difficulty, to be sent first, and the job, to be sent after it.
    pub fn handle_sv1_handshake_completion(&mut self) -> (r: (Option<M>, Option<M>))
        ensures
            r == (old(self).cached_set_difficulty, old(self).cached_notify),
            *final(self) == (Downstream {
                sv1_handshake_complete: true,
                cached_set_difficulty: None::<M>,
                cached_notify: None::<M>,
                ..*old(self)
            }),
    {
        self.sv1_handshake_complete = true;
        let mut set_difficulty: Option<M> = None;
        std::mem::swap(&mut set_difficulty, &mut self.cached_set_difficulty);
        let mut notify: Option<M> = None;
        std::mem::swap(&mut notify, &mut self.cached_notify);
        (set_difficulty, notify)
    }
}

} // verus!
