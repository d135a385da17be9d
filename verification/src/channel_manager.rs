//! What a translator's channel manager decides when the upstream speaks.
//!
//! The manager keeps the extended channels that were opened upstream. In
//! aggregated mode all miners share one upstream channel, and what the
//! upstream says of it concerns every channel the manager holds. Otherwise
//! each miner has a channel of its own, and a message concerns the channel
//! it names, if the manager knows it.
//!
//! The functions here decide which channels a message reaches and what is
//! passed on to the server task. Applying a message to a channel and sending
//! are left to the task.

use crate::channel_factory::ByteRange;
use vstd::prelude::*;

verus! {

/// The number of bytes of a full extranonce.
pub const FULL_EXTRANONCE_LEN: usize = 32;

/// The hashrate assumed for a miner of which nothing is known: the bits of
/// the 32 bit float 100000.
pub const UNKNOWN_HASHRATE_BITS: u32 = 0x47c3_5000;

/// How miners are mapped to upstream channels.
#[derive(Clone, Copy, Debug, PartialEq, Eq, Structural)]
pub enum ChannelMode {
    /// All miners share one upstream channel.
    Aggregated,
    /// Each miner has an upstream channel of its own.
    NonAggregated,
}

/// The kinds of channel that a role can ask its server for.
#[derive(Clone, Copy, Debug, PartialEq, Eq, Structural)]
pub enum SupportedChannelTypes {
    Standard,
    Extended,
    Group,
    GroupAndExtended,
}

/// Which of the channels that the manager holds a message reaches.
#[derive(Clone, Copy, Debug, PartialEq, Eq, Structural)]
pub enum ChannelScope {
    /// Every channel.
    All,
    /// The channel with this id.
    One(u32),
    /// No channel.
    NoChannel,
}

/// Where a message from the upstream is applied.
#[derive(Clone, Copy, Debug, PartialEq, Eq, Structural)]
pub struct Route {
    /// To the shared upstream channel.
    pub upstream: bool,
    /// To these channels of the manager.
    pub channels: ChannelScope,
}

/// Where a message for channel `channel_id` is applied.
///
/// `has_upstream` says whether the shared upstream channel exists, and
/// `channel_known` whether the manager holds a channel with that id.
pub open spec fn spec_route(
    mode: ChannelMode,
    has_upstream: bool,
    channel_id: u32,
    channel_known: bool,
) -> Route {
    match mode {
        ChannelMode::Aggregated => Route { upstream: has_upstream, channels: ChannelScope::All },
        ChannelMode::NonAggregated => Route {
            upstream: false,
            channels: if channel_known {
                ChannelScope::One(channel_id)
            } else {
                ChannelScope::NoChannel
            },
        },
    }
}

/// Where a message for channel `channel_id` is applied.
pub fn route(mode: ChannelMode, has_upstream: bool, channel_id: u32, channel_known: bool) -> (r:
    Route)
    ensures
        r == spec_route(mode, has_upstream, channel_id, channel_known),
{
    match mode {
        ChannelMode::Aggregated => Route { upstream: has_upstream, channels: ChannelScope::All },
        ChannelMode::NonAggregated => Route {
            upstream: false,
            channels: if channel_known {
                ChannelScope::One(channel_id)
            } else {
                ChannelScope::NoChannel
            },
        },
    }
}

/// The kind of channel that the translator asks its server for.
pub fn get_channel_type_for_server() -> (r: SupportedChannelTypes)
    ensures
        r == SupportedChannelTypes::Extended,
{
    SupportedChannelTypes::Extended
}

/// Whether the translator selects its own work. It does not.
pub fn is_work_selection_enabled_for_server() -> (r: bool)
    ensures
        !r,
{
    false
}

/// What is done with a new extended job.
#[derive(Clone, Copy, Debug, PartialEq, Eq, Structural)]
pub struct JobPlan {
    /// Where the job is applied. The shared upstream channel gets it under
    /// the id that the upstream gave it.
    pub route: Route,
    /// The channel id under which the job reaches the manager's channels and
    /// the server task.
    pub channel_id: u32,
    /// Whether the job is passed on to the server task now. A job for the
    /// future waits for its previous hash.
    pub forward: bool,
}

/// Decides what is done with a new extended job for channel `channel_id`.
///
/// Where a shared upstream channel exists, the job is passed down under
/// channel id 0, so that every miner takes it.
pub fn handle_new_extended_mining_job(
    mode: ChannelMode,
    has_upstream: bool,
    channel_id: u32,
    channel_known: bool,
    is_future: bool,
) -> (r: JobPlan)
    ensures
        r.route == spec_route(mode, has_upstream, r.channel_id, channel_known),
        r.channel_id == (if mode == ChannelMode::Aggregated && has_upstream {
            0
        } else {
            channel_id
        }),
        r.forward == !is_future,
{
    let passed_down: u32 = match mode {
        ChannelMode::Aggregated => if has_upstream {
            0
        } else {
            channel_id
        },
        ChannelMode::NonAggregated => channel_id,
    };
    JobPlan {
        route: route(mode, has_upstream, passed_down, channel_known),
        channel_id: passed_down,
        forward: !is_future,
    }
}

/// Where the job that a new previous hash activates is looked up.
#[derive(Clone, Copy, Debug, PartialEq, Eq, Structural)]
pub enum JobSource {
    /// In the shared upstream channel.
    Upstream,
    /// In the manager's channel with this id.
    Channel(u32),
}

/// What is done with a new previous hash.
#[derive(Clone, Copy, Debug, PartialEq, Eq, Structural)]
pub struct PrevHashPlan {
    /// Where the hash is applied.
    pub route: Route,
    /// Where the job that is active afterwards is looked up, to be sent to
    /// the server task behind the hash.
    pub active_job: JobSource,
}

/// Decides what is done with a new previous hash for channel `channel_id`.
/// The hash itself is always passed on to the server task.
pub fn handle_set_new_prev_hash(
    mode: ChannelMode,
    has_upstream: bool,
    channel_id: u32,
    channel_known: bool,
) -> (r: PrevHashPlan)
    ensures
        r.route == spec_route(mode, has_upstream, channel_id, channel_known),
        r.active_job == (match mode {
            ChannelMode::Aggregated => JobSource::Upstream,
            ChannelMode::NonAggregated => JobSource::Channel(channel_id),
        }),
{
    PrevHashPlan {
        route: route(mode, has_upstream, channel_id, channel_known),
        active_job: match mode {
            ChannelMode::Aggregated => JobSource::Upstream,
            ChannelMode::NonAggregated => JobSource::Channel(channel_id),
        },
    }
}

/// The channel id under which an active job goes to the server task: 0 in
/// aggregated mode, its own otherwise.
pub fn active_job_channel_id(mode: ChannelMode, job_channel_id: u32) -> (r: u32)
    ensures
        r == (match mode {
            ChannelMode::Aggregated => 0,
            ChannelMode::NonAggregated => job_channel_id,
        }),
{
    match mode {
        ChannelMode::Aggregated => 0,
        ChannelMode::NonAggregated => job_channel_id,
    }
}

/// Decides where a new target for channel `channel_id` is applied. The
/// message itself is always passed on to the server task.
pub fn handle_set_target(
    mode: ChannelMode,
    has_upstream: bool,
    channel_id: u32,
    channel_known: bool,
) -> (r: Route)
    ensures
        r == spec_route(mode, has_upstream, channel_id, channel_known),
{
    route(mode, has_upstream, channel_id, channel_known)
}

/// What the manager forgets when the upstream closes a channel.
#[derive(Clone, Copy, Debug, PartialEq, Eq, Structural)]
pub enum CloseAction {
    /// The shared upstream channel.
    DropUpstream,
    /// Its channel with this id.
    RemoveChannel(u32),
}

/// Decides what the manager forgets when the upstream closes channel
/// `channel_id`.
pub fn handle_close_channel(mode: ChannelMode, channel_id: u32) -> (r: CloseAction)
    ensures
        r == (match mode {
            ChannelMode::Aggregated => CloseAction::DropUpstream,
            ChannelMode::NonAggregated => CloseAction::RemoveChannel(channel_id),
        }),
{
    match mode {
        ChannelMode::Aggregated => CloseAction::DropUpstream,
        ChannelMode::NonAggregated => CloseAction::RemoveChannel(channel_id),
    }
}

/// What was noted of a miner when its channel was asked for.
#[derive(Debug)]
pub struct PendingChannel {
    pub user_identity: String,
    /// The nominal hashrate, as the bits of a 32 bit float.
    pub nominal_hashrate: u32,
    /// The number of extranonce bytes that the miner rolls.
    pub downstream_extranonce_len: usize,
}

/// How the 32 bytes of the extranonce are shared out in aggregated mode.
#[derive(Clone, Copy, Debug, PartialEq, Eq, Structural)]
pub struct ExtranonceRanges {
    /// The prefix that the upstream gave.
    pub range_0: ByteRange,
    /// The prefix that the translator adds.
    pub range_1: ByteRange,
    /// What is left for the miner to roll.
    pub range_2: ByteRange,
}

/// The ranges for an upstream prefix of `prefix_len` bytes and a translator
/// prefix of `proxy_prefix_len` bytes.
pub open spec fn spec_ranges(prefix_len: usize, proxy_prefix_len: usize) -> ExtranonceRanges
    recommends
        prefix_len + proxy_prefix_len <= FULL_EXTRANONCE_LEN,
{
    ExtranonceRanges {
        range_0: ByteRange { start: 0, end: prefix_len },
        range_1: ByteRange { start: prefix_len, end: (prefix_len + proxy_prefix_len) as usize },
        range_2: ByteRange {
            start: (prefix_len + proxy_prefix_len) as usize,
            end: FULL_EXTRANONCE_LEN,
        },
    }
}

/// What is done when the upstream has opened an extended channel.
#[derive(Debug)]
pub struct OpenChannelPlan {
    /// The miner that the channel is for.
    pub pending: PendingChannel,
    /// The ranges of a new extranonce factory, and with them the order to
    /// keep the channel as the shared upstream channel.
    pub ranges: Option<ExtranonceRanges>,
    /// The size of the extranonce that the miner gets in place of the
    /// upstream's. With it goes a fresh prefix from the factory, and both
    /// replace the upstream's in the channel that is kept for the miner and
    /// in the message that is passed on. Without it the channel is kept and
    /// the message passed on as the upstream sent them.
    pub extranonce_size: Option<u16>,
}

/// The ranges of [`OpenChannelPlan`] for the given mode and lengths.
pub open spec fn spec_plan_ranges(
    mode: ChannelMode,
    prefix_len: usize,
    proxy_prefix_len: usize,
) -> Option<ExtranonceRanges> {
    match mode {
        ChannelMode::Aggregated => Some(spec_ranges(prefix_len, proxy_prefix_len)),
        ChannelMode::NonAggregated => None,
    }
}

/// The extranonce size of [`OpenChannelPlan`]: in aggregated mode, what the
/// two prefixes leave of the 32 bytes, if the miner's own need fits in it.
pub open spec fn spec_plan_size(
    mode: ChannelMode,
    prefix_len: usize,
    proxy_prefix_len: usize,
    downstream_extranonce_len: usize,
) -> Option<u16> {
    if mode == ChannelMode::Aggregated && downstream_extranonce_len <= FULL_EXTRANONCE_LEN
        - prefix_len - proxy_prefix_len {
        Some((FULL_EXTRANONCE_LEN - prefix_len - proxy_prefix_len) as u16)
    } else {
        None
    }
}

/// Decides what is done when the upstream has opened an extended channel.
///
/// `pending` is what was noted under the request's id, if anything;
/// `prefix_len` is the length of the upstream's extranonce prefix and
/// `proxy_prefix_len` that of the translator's own. A miner of which nothing
/// was noted counts as "unknown", with a hashrate of 100000 and no
/// extranonce bytes to roll.
pub fn handle_open_extended_mining_channel_success(
    mode: ChannelMode,
    pending: Option<PendingChannel>,
    prefix_len: usize,
    proxy_prefix_len: usize,
) -> (r: OpenChannelPlan)
    requires
        mode == ChannelMode::Aggregated ==> prefix_len + proxy_prefix_len <= FULL_EXTRANONCE_LEN,
    ensures
        match pending {
            Some(p) => r.pending == p,
            None => r.pending.user_identity@ == "unknown"@ && r.pending.nominal_hashrate
                == UNKNOWN_HASHRATE_BITS && r.pending.downstream_extranonce_len == 0,
        },
        r.ranges == spec_plan_ranges(mode, prefix_len, proxy_prefix_len),
        r.extranonce_size == spec_plan_size(
            mode,
            prefix_len,
            proxy_prefix_len,
            r.pending.downstream_extranonce_len,
        ),
{
    let pending = match pending {
        Some(p) => p,
        None => PendingChannel {
            user_identity: "unknown".to_owned(),
            nominal_hashrate: UNKNOWN_HASHRATE_BITS,
            downstream_extranonce_len: 0,
        },
    };
    match mode {
        ChannelMode::Aggregated => {
            let range_0 = ByteRange { start: 0, end: prefix_len };
            let range_1 = ByteRange { start: range_0.end, end: range_0.end + proxy_prefix_len };
            let range_2 = ByteRange { start: range_1.end, end: FULL_EXTRANONCE_LEN };
            let left: usize = range_2.end - range_2.start;
            let extranonce_size = if pending.downstream_extranonce_len <= left {
                Some(left as u16)
            } else {
                None
            };
            OpenChannelPlan {
                pending,
                ranges: Some(ExtranonceRanges { range_0, range_1, range_2 }),
                extranonce_size,
            }
        },
        ChannelMode::NonAggregated => OpenChannelPlan {
            pending,
            ranges: None,
            extranonce_size: None,
        },
    }
}

/// Which of the two job stores the server task keeps. In aggregated mode all
/// miners share one list of valid jobs; otherwise there is a list for each.
#[derive(Clone, Copy, Debug, PartialEq, Eq, Structural)]
pub struct JobStores {
    pub aggregated: bool,
    pub non_aggregated: bool,
}

/// The job stores of a server task that does or does not aggregate channels:
/// always exactly one of the two.
pub fn job_stores(aggregate_channels: bool) -> (r: JobStores)
    ensures
        r.aggregated == aggregate_channels,
        r.non_aggregated == !aggregate_channels,
{
    JobStores { aggregated: aggregate_channels, non_aggregated: !aggregate_channels }
}

} // verus!
