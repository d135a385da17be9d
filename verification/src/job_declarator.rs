//! How a job declarator client reacts to the answers to its connection
//! setup.

use vstd::prelude::*;

verus! {

/// How much of a block the client declares.
#[derive(Clone, Copy, Debug, PartialEq, Eq, Structural)]
pub enum JdMode {
    CoinbaseOnly,
    FullTemplate,
    SoloMining,
}

/// What a handler asks of the task that called it.
#[derive(Clone, Copy, Debug, PartialEq, Eq, Structural)]
pub enum HandlerError {
    /// The connection is of no use: shut down.
    Shutdown,
}

/// The mode that the flags of a successful setup stand for.
pub open spec fn spec_jd_mode(flags: u32) -> JdMode {
    if flags == 0 {
        JdMode::CoinbaseOnly
    } else if flags == 1 {
        JdMode::FullTemplate
    } else {
        JdMode::SoloMining
    }
}

/// The mode that the flags of a successful setup stand for.
pub fn jd_mode_from_flags(flags: u32) -> (r: JdMode)
    ensures
        r == spec_jd_mode(flags),
{
    match flags {
        0 => JdMode::CoinbaseOnly,
        1 => JdMode::FullTemplate,
        _ => JdMode::SoloMining,
    }
}

/// The job declarator's reaction to a successful setup: the mode to switch
/// to, and whether to go on. With nothing left to declare the client shuts
/// the connection down.
pub fn handle_setup_connection_success(flags: u32) -> (r: (JdMode, Result<(), HandlerError>))
    ensures
        r.0 == spec_jd_mode(flags),
        r.1 == (if spec_jd_mode(flags) == JdMode::SoloMining {
            Err::<(), HandlerError>(HandlerError::Shutdown)
        } else {
            Ok::<(), HandlerError>(())
        }),
{
    let mode = jd_mode_from_flags(flags);
    match mode {
        JdMode::SoloMining => (mode, Err(HandlerError::Shutdown)),
        _ => (mode, Ok(())),
    }
}

/// The reaction to a refused setup, of the job declarator and of the
/// upstream alike: shut down.
pub fn handle_setup_connection_error() -> (r: Result<(), HandlerError>)
    ensures
        r == Err::<(), HandlerError>(HandlerError::Shutdown),
{
    Err(HandlerError::Shutdown)
}

} // verus!
