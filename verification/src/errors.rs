use vstd::prelude::*;

verus! {

/// Why a session or ticket operation was refused. Every error is terminal for
/// the requested operation: the state handed in is left exactly as it was.
#[derive(Clone, Copy, Debug, PartialEq, Eq, Structural)]
pub enum ErrorCode {
    /// The caller is not the session's recorded authority.
    Unauthorized,
    /// The session is closed and no longer accepts tickets.
    SessionInactive,
    /// The session is still open, so claims are not available yet.
    SessionIsActive,
    /// The ticket does not reference the given session, or the session's
    /// recorded deposit base is zero and no payout can be computed.
    InvalidSession,
    /// The ticket has already been redeemed once.
    TicketAlreadyClaimed,
}

} // verus!
