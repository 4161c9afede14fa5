use vstd::prelude::*;

use crate::errors::ErrorCode;
use crate::ids::AccountId;

verus! {

/// One lottery round. Created open (`is_active`), closed exactly once by its
/// authority, and kept afterwards as a historical record for claims.
///
/// `total_deposit` is a snapshot of the escrow balance taken at creation, not
/// the running sum of ticket sales; the payout formula divides by it.
#[derive(Clone, Copy, Debug, PartialEq, Eq, Structural)]
pub struct Session {
    /// The asset the pooled funds were swapped into; meaningful once closed.
    pub winner_token: AccountId,
    /// How much of `winner_token` the swap produced; recorded after the swap.
    pub winner_token_amount: u64,
    /// The fixed price of one ticket, set at creation and immutable after.
    pub basic_deposit_amount: u64,
    /// The escrow balance at creation time: the payout formula's deposit base.
    pub total_deposit: u64,
    /// `true` while tickets may be bought; `false` once closed, forever.
    pub is_active: bool,
    /// Who may close this session and record the swap's outcome.
    pub authority: AccountId,
}

/// The one order this logic places with the external swap facility: spend
/// `input_amount` of the pooled funds on `target`, accepting any price
/// (`max_input_slippage` is the largest representable value, that is, no
/// slippage protection at all). The caller executes it and reports the
/// amount obtained through [`record_swap_outcome`].
#[derive(Clone, Copy, Debug, PartialEq, Eq, Structural)]
pub struct SwapRequest {
    /// The whole deposit base captured at creation, spent in one order.
    pub input_amount: u64,
    /// `u64::MAX`: the close accepts whatever price the pool offers.
    pub max_input_slippage: u64,
    /// The winning token, the asset the order buys.
    pub target: AccountId,
}

/// Whether `caller` may close `s` now: only the recorded authority, and only
/// while the session is still open.
pub open spec fn close_allowed(s: Session, caller: AccountId) -> bool {
    caller == s.authority && s.is_active
}

/// What [`close_session`] returns: the swap order on success, otherwise the
/// error naming the guard that refused it. The authority check comes first.
pub open spec fn close_result(s: Session, caller: AccountId, winner_token: AccountId) -> Result<
    SwapRequest,
    ErrorCode,
> {
    if caller != s.authority {
        Err(ErrorCode::Unauthorized)
    } else if !s.is_active {
        Err(ErrorCode::SessionInactive)
    } else {
        Ok(
            SwapRequest {
                input_amount: s.total_deposit,
                max_input_slippage: u64::MAX,
                target: winner_token,
            },
        )
    }
}

/// The session as [`close_session`] leaves it: the winner recorded and the
/// phase flag cleared when the close is allowed, untouched otherwise.
pub open spec fn close_after(s: Session, caller: AccountId, winner_token: AccountId) -> Session {
    if close_allowed(s, caller) {
        Session { winner_token, is_active: false, ..s }
    } else {
        s
    }
}

/// What [`record_swap_outcome`] returns: only the session's authority may
/// record, and only once the session is closed, so the amount cannot be
/// rewritten while tickets are still being sold.
pub open spec fn record_outcome_result(s: Session, caller: AccountId) -> Result<(), ErrorCode> {
    if caller != s.authority {
        Err(ErrorCode::Unauthorized)
    } else if s.is_active {
        Err(ErrorCode::SessionIsActive)
    } else {
        Ok(())
    }
}

/// The session as [`record_swap_outcome`] leaves it: the swap's output amount
/// written when recording is allowed, untouched otherwise.
pub open spec fn record_outcome_after(s: Session, caller: AccountId, output_amount: u64) -> Session {
    if caller == s.authority && !s.is_active {
        Session { winner_token_amount: output_amount, ..s }
    } else {
        s
    }
}

/// Opens a new session: the given ticket price, the escrow's balance at this
/// moment as the payout formula's deposit base, and the caller recorded as
/// the only authority allowed to close it later. No winner is known yet, so
/// the winner fields start at their zero values.
pub fn create_session(
    authority: AccountId,
    basic_deposit_amount: u64,
    escrow_balance: u64,
) -> (s: Session)
    requires
        basic_deposit_amount > 0,
    ensures
        s.is_active,
        s.basic_deposit_amount == basic_deposit_amount,
        s.total_deposit == escrow_balance,
        s.authority == authority,
        s.winner_token_amount == 0,
        s.winner_token == AccountId(0),
{
    Session {
        winner_token: AccountId(0),
        winner_token_amount: 0,
        basic_deposit_amount,
        total_deposit: escrow_balance,
        is_active: true,
        authority,
    }
}

/// Closes the session: records the winning token, leaves the ticket-buying
/// phase for good, and returns the swap order the caller must now place with
/// the external facility, spending the whole recorded deposit base with no
/// slippage protection. Refused for anyone but the recorded authority, and
/// refused again once the session is closed: a second close changes nothing.
pub fn close_session(
    session: &mut Session,
    caller: AccountId,
    winner_token: AccountId,
) -> (r: Result<SwapRequest, ErrorCode>)
    ensures
        r == close_result(*old(session), caller, winner_token),
        *final(session) == close_after(*old(session), caller, winner_token),
        r is Ok ==> !final(session).is_active && final(session).winner_token == winner_token,
        r is Err ==> *final(session) == *old(session),
{
    if caller != session.authority {
        Err(ErrorCode::Unauthorized)
    } else if !session.is_active {
        Err(ErrorCode::SessionInactive)
    } else {
        session.winner_token = winner_token;
        session.is_active = false;
        Ok(
            SwapRequest {
                input_amount: session.total_deposit,
                max_input_slippage: u64::MAX,
                target: winner_token,
            },
        )
    }
}

/// Records what the swap order placed at close actually produced: the amount
/// of the winning token that every later claim is paid from. Meant to be
/// called by the authority right after the swap completes; refused for
/// anyone else (`Unauthorized`) and while the session is still open
/// (`SessionIsActive`), changing nothing in either case. It never touches
/// the phase flag, so a closed session stays closed.
pub fn record_swap_outcome(
    session: &mut Session,
    caller: AccountId,
    output_amount: u64,
) -> (r: Result<(), ErrorCode>)
    ensures
        r == record_outcome_result(*old(session), caller),
        *final(session) == record_outcome_after(*old(session), caller, output_amount),
        r is Ok ==> final(session).winner_token_amount == output_amount,
        r is Err ==> *final(session) == *old(session),
        final(session).is_active == old(session).is_active,
{
    if caller != session.authority {
        Err(ErrorCode::Unauthorized)
    } else if session.is_active {
        Err(ErrorCode::SessionIsActive)
    } else {
        session.winner_token_amount = output_amount;
        Ok(())
    }
}

/// The transitions a session value can take after creation: some caller
/// closes it, or some caller records a swap outcome. Buying and claiming
/// never write the session record, so these two are the whole story.
pub open spec fn session_step(pre: Session, post: Session) -> bool {
    ||| exists|caller: AccountId, winner_token: AccountId|
        post == close_after(pre, caller, winner_token)
    ||| exists|caller: AccountId, output_amount: u64|
        post == record_outcome_after(pre, caller, output_amount)
}

/// A session that has left its active phase never returns to it: no
/// transition available after creation sets the phase flag again.
pub proof fn lemma_closed_forever(pre: Session, post: Session)
    requires
        !pre.is_active,
        session_step(pre, post),
    ensures
        !post.is_active,
{
}

/// The active phase is left exactly once: after a close goes through, every
/// further close is refused — by `Unauthorized` for a stranger, by
/// `SessionInactive` for the authority — and leaves the session as the first
/// close left it.
pub proof fn lemma_close_at_most_once(
    s: Session,
    caller1: AccountId,
    winner1: AccountId,
    caller2: AccountId,
    winner2: AccountId,
)
    requires
        close_result(s, caller1, winner1) is Ok,
    ensures
        close_result(close_after(s, caller1, winner1), caller2, winner2) is Err,
        close_after(close_after(s, caller1, winner1), caller2, winner2) == close_after(
            s,
            caller1,
            winner1,
        ),
{
}

} // verus!
