//! What the channel factories of the roles have in common.
//!
//! The four error types have no value yet: their one variant holds a value of
//! a type that has none, so a `Result` with one of them as its error is
//! always `Ok`.

use std::convert::Infallible;
use vstd::prelude::*;

verus! {

/// What can go wrong in a factory of standard channels. Nothing, so far.
#[derive(Debug)]
pub enum StandardChannelFactoryError {
    /// Holds a value of a type without values: this cannot be built.
    Never(Infallible),
}

/// What can go wrong in a factory of extended channels. Nothing, so far.
pub enum ExtendedChannelFactoryError {
    /// Holds a value of a type without values: this cannot be built.
    Never(Infallible),
}

/// What can go wrong when a factory of standard channels takes in a
/// template. Nothing, so far.
#[derive(Debug)]
pub enum StandardChannelFactoryTemplateDistributionError {
    /// Holds a value of a type without values: this cannot be built.
    Never(Infallible),
}

/// What can go wrong when a factory of extended channels takes in a
/// template. Nothing, so far.
pub enum ExtendedChannelFactoryTemplateDistributionError {
    /// Holds a value of a type without values: this cannot be built.
    Never(Infallible),
}

/// The number of bytes of a merkle root.
pub const MERKLE_ROOT_LEN: usize = 32;

/// The fields of an extended mining job that a standard job is made from.
#[derive(Debug)]
pub struct ExtendedJob {
    pub channel_id: u32,
    pub job_id: u32,
    pub min_ntime: Option<u32>,
    pub version: u32,
}

/// A standard mining job.
#[derive(Debug)]
pub struct StandardJob {
    pub channel_id: u32,
    pub job_id: u32,
    pub min_ntime: Option<u32>,
    pub version: u32,
    pub merkle_root: Vec<u8>,
}

/// The job of a standard channel. A channel that stands alone gets standard
/// jobs; one that is part of a group gets the extended jobs of its group.
#[derive(Debug)]
pub enum StandardOrExtendedJob {
    Standard(StandardJob),
    ExtendedFromGroup(ExtendedJob),
}

/// Makes the standard job of channel `channel_id` from an extended job and
/// the merkle root that was computed for it.
///
/// The job keeps the extended job's id unless `job_id` gives another. There
/// is a job exactly when there is a root and it has 32 bytes.
pub fn extended_to_standard_job(
    extended: &ExtendedJob,
    merkle_root: Option<Vec<u8>>,
    channel_id: u32,
    job_id: Option<u32>,
) -> (r: Option<StandardJob>)
    ensures
        match merkle_root {
            Some(root) if root@.len() == MERKLE_ROOT_LEN => r matches Some(job) && {
                &&& job.channel_id == channel_id
                &&& job.job_id == (match job_id {
                    Some(id) => id,
                    None => extended.job_id,
                })
                &&& job.min_ntime == extended.min_ntime
                &&& job.version == extended.version
                &&& job.merkle_root@ == root@
            },
            _ => r is None,
        },
{
    match merkle_root {
        Some(root) => {
            if root.len() == MERKLE_ROOT_LEN {
                Some(
                    StandardJob {
                        channel_id,
                        job_id: match job_id {
                            Some(id) => id,
                            None => extended.job_id,
                        },
                        min_ntime: extended.min_ntime,
                        version: extended.version,
                        merkle_root: root,
                    },
                )
            } else {
                None
            }
        },
        None => None,
    }
}

} // verus!
