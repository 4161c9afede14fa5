use vstd::prelude::*;

use crate::errors::ErrorCode;
use crate::ids::AccountId;
use crate::session::Session;

verus! {

/// One participant's entry in a session: which session it belongs to, the
/// asset the buyer picked, the amount paid in, and whether it has already
/// been redeemed.
#[derive(Clone, Copy, Debug, PartialEq, Eq, Structural)]
pub struct Ticket {
    /// The session this ticket was bought into.
    pub session: AccountId,
    /// The buyer's pick; claims pay the same regardless of this field.
    pub token: AccountId,
    /// The amount contributed: the session's ticket price at purchase time.
    pub deposit: u64,
    /// Whether the ticket's share of the proceeds was already paid out.
    pub is_claim: bool,
}

/// What [`buy_ticket`] returns: on an open session the fresh unclaimed
/// ticket, priced at the session's fixed deposit amount; on a closed one the
/// refusal.
pub open spec fn buy_result(s: Session, session_id: AccountId, token: AccountId) -> Result<
    Ticket,
    ErrorCode,
> {
    if s.is_active {
        Ok(
            Ticket {
                session: session_id,
                token,
                deposit: s.basic_deposit_amount,
                is_claim: false,
            },
        )
    } else {
        Err(ErrorCode::SessionInactive)
    }
}

/// Every ticket of a closed session pays the same amount: the swap's output
/// scaled by the ratio of one ticket's deposit to the deposit base recorded
/// at creation, truncated toward zero by integer division.
pub open spec fn payout_of(s: Session) -> int {
    (s.winner_token_amount * s.basic_deposit_amount) / (s.total_deposit as int)
}

/// Whether a claim of `t` against session `s`, known to the caller under the
/// identifier `session_id`, goes through: the session must be closed, the
/// ticket must reference that session and be unredeemed, and the deposit base
/// must be positive so the payout is defined.
pub open spec fn claim_allowed(s: Session, session_id: AccountId, t: Ticket) -> bool {
    &&& !s.is_active
    &&& t.session == session_id
    &&& !t.is_claim
    &&& s.total_deposit > 0
}

/// What [`claim_ticket`] returns: the payout on success, otherwise the error
/// of the first guard that refused it, in this order: session still open,
/// ticket of another session, ticket already redeemed, deposit base zero.
pub open spec fn claim_result(s: Session, session_id: AccountId, t: Ticket) -> Result<
    u64,
    ErrorCode,
> {
    if s.is_active {
        Err(ErrorCode::SessionIsActive)
    } else if t.session != session_id {
        Err(ErrorCode::InvalidSession)
    } else if t.is_claim {
        Err(ErrorCode::TicketAlreadyClaimed)
    } else if s.total_deposit == 0 {
        Err(ErrorCode::InvalidSession)
    } else {
        Ok(payout_of(s) as u64)
    }
}

/// The ticket as [`claim_ticket`] leaves it: marked redeemed exactly when the
/// claim went through, untouched otherwise.
pub open spec fn claim_after(s: Session, session_id: AccountId, t: Ticket) -> Ticket {
    if claim_allowed(s, session_id, t) {
        Ticket { is_claim: true, ..t }
    } else {
        t
    }
}

/// Buys one ticket into the session known to the caller as `session_id`.
/// Refused with `SessionInactive`, moving no funds, once the session is
/// closed. Otherwise the fixed ticket price — never an amount of the buyer's
/// choosing — moves from the buyer's balance into the escrow, and the fresh
/// ticket comes back unredeemed, carrying the buyer's pick.
///
/// The preconditions are the host transfer's own limits: the buyer must be
/// able to pay the price, and the escrow balance must not overflow.
pub fn buy_ticket(
    session: &Session,
    session_id: AccountId,
    token: AccountId,
    buyer_balance: &mut u64,
    escrow_balance: &mut u64,
) -> (r: Result<Ticket, ErrorCode>)
    requires
        session.is_active ==> *old(buyer_balance) >= session.basic_deposit_amount
            && *old(escrow_balance) + session.basic_deposit_amount <= u64::MAX,
    ensures
        r == buy_result(*session, session_id, token),
        session.is_active ==> *final(buyer_balance) == *old(buyer_balance)
            - session.basic_deposit_amount,
        session.is_active ==> *final(escrow_balance) == *old(escrow_balance)
            + session.basic_deposit_amount,
        !session.is_active ==> r == Err::<Ticket, ErrorCode>(ErrorCode::SessionInactive),
        !session.is_active ==> *final(buyer_balance) == *old(buyer_balance),
        !session.is_active ==> *final(escrow_balance) == *old(escrow_balance),
{
    if session.is_active {
        let ticket = Ticket {
            session: session_id,
            token,
            deposit: session.basic_deposit_amount,
            is_claim: false,
        };
        *buyer_balance = *buyer_balance - session.basic_deposit_amount;
        *escrow_balance = *escrow_balance + session.basic_deposit_amount;
        Ok(ticket)
    } else {
        Err(ErrorCode::SessionInactive)
    }
}

/// Redeems one ticket of a closed session. Refused, moving no funds, while
/// the session is still open (`SessionIsActive`), for a ticket of another
/// session (`InvalidSession`), for a ticket already redeemed
/// (`TicketAlreadyClaimed`), and when the recorded deposit base is zero, so
/// the payout would divide by zero (`InvalidSession`). Otherwise the payout —
/// the same flat amount for every ticket of the session — moves from the
/// escrow to the ticket's owner and the ticket is marked redeemed.
///
/// The preconditions are the host's machine limits on the success path: the
/// payout product must be representable, the escrow must still hold the
/// payout, and the owner's balance must not overflow.
pub fn claim_ticket(
    session: &Session,
    session_id: AccountId,
    ticket: &mut Ticket,
    escrow_balance: &mut u64,
    owner_balance: &mut u64,
) -> (r: Result<u64, ErrorCode>)
    requires
        claim_allowed(*session, session_id, *old(ticket))
            ==> session.winner_token_amount * session.basic_deposit_amount <= u64::MAX,
        claim_allowed(*session, session_id, *old(ticket)) ==> *old(escrow_balance) >= payout_of(
            *session,
        ),
        claim_allowed(*session, session_id, *old(ticket)) ==> *old(owner_balance) + payout_of(
            *session,
        ) <= u64::MAX,
    ensures
        r == claim_result(*session, session_id, *old(ticket)),
        *final(ticket) == claim_after(*session, session_id, *old(ticket)),
        r is Ok ==> r->Ok_0 == payout_of(*session) && final(ticket).is_claim,
        r is Ok ==> *final(escrow_balance) == *old(escrow_balance) - payout_of(*session),
        r is Ok ==> *final(owner_balance) == *old(owner_balance) + payout_of(*session),
        r is Err ==> *final(escrow_balance) == *old(escrow_balance) && *final(owner_balance)
            == *old(owner_balance) && *final(ticket) == *old(ticket),
        session.is_active ==> r == Err::<u64, ErrorCode>(ErrorCode::SessionIsActive),
{
    if session.is_active {
        Err(ErrorCode::SessionIsActive)
    } else if ticket.session != session_id {
        Err(ErrorCode::InvalidSession)
    } else if ticket.is_claim {
        Err(ErrorCode::TicketAlreadyClaimed)
    } else if session.total_deposit == 0 {
        Err(ErrorCode::InvalidSession)
    } else {
        let amount: u64 = session.winner_token_amount * session.basic_deposit_amount
            / session.total_deposit;
        *escrow_balance = *escrow_balance - amount;
        *owner_balance = *owner_balance + amount;
        ticket.is_claim = true;
        Ok(amount)
    }
}

/// The flat payout one claim of this session would transfer, or `None` when
/// it is undefined: a zero deposit base, or a product past the machine's
/// limit. Callers that drive the ledger use this to test a claim's transfer
/// before ordering it.
pub fn payout_amount(session: &Session) -> (r: Option<u64>)
    ensures
        session.total_deposit > 0 && session.winner_token_amount * session.basic_deposit_amount
            <= u64::MAX ==> r == Some((payout_of(*session) as u64)),
        session.total_deposit == 0 || session.winner_token_amount * session.basic_deposit_amount
            > u64::MAX ==> r is None,
{
    if session.total_deposit == 0 {
        None
    } else {
        match session.winner_token_amount.checked_mul(session.basic_deposit_amount) {
            Some(product) => Some(product / session.total_deposit),
            None => None,
        }
    }
}

/// A ticket is paid at most once: after a claim goes through, every further
/// claim of the same ticket against the same session is refused with
/// `TicketAlreadyClaimed` and leaves the ticket as the first claim left it.
/// Claims never write the session record, so the same session value governs
/// both calls.
pub proof fn lemma_claim_at_most_once(s: Session, session_id: AccountId, t: Ticket)
    requires
        claim_result(s, session_id, t) is Ok,
    ensures
        claim_result(s, session_id, claim_after(s, session_id, t)) == Err::<u64, ErrorCode>(
            ErrorCode::TicketAlreadyClaimed,
        ),
        claim_after(s, session_id, claim_after(s, session_id, t)) == claim_after(s, session_id, t),
{
}

/// Every claimable ticket of one session is paid the same amount: the payout
/// depends on the session alone, never on the ticket or its pick.
pub proof fn lemma_flat_payout(s: Session, session_id: AccountId, t1: Ticket, t2: Ticket)
    requires
        claim_result(s, session_id, t1) is Ok,
        claim_result(s, session_id, t2) is Ok,
    ensures
        claim_result(s, session_id, t1) == claim_result(s, session_id, t2),
{
}

/// As long as the tickets' combined deposits stay within the deposit base
/// recorded at creation, paying every one of `n` tickets the flat payout
/// hands out at most what the swap produced: the truncating division loses
/// value, never creates it. When ticket sales exceed the recorded base — the
/// base is a snapshot taken before any sale — this bound has no reason to
/// hold, and the escrow balance itself is the only backstop.
pub proof fn lemma_payout_sum_bounded(s: Session, n: nat)
    requires
        s.total_deposit > 0,
        n * s.basic_deposit_amount <= s.total_deposit,
    ensures
        n * payout_of(s) <= s.winner_token_amount,
{
    let wta = s.winner_token_amount as int;
    let bda = s.basic_deposit_amount as int;
    let td = s.total_deposit as int;
    let q = payout_of(s);
    vstd::arithmetic::div_mod::lemma_fundamental_div_mod(wta * bda, td);
    vstd::arithmetic::div_mod::lemma_mod_division_less_than_divisor(wta * bda, td);
    assert(q * td <= wta * bda);
    assert(n * q <= wta) by (nonlinear_arith)
        requires
            q * td <= wta * bda,
            n * bda <= td,
            td > 0,
            wta >= 0,
            bda >= 0,
            n >= 0,
    ;
}

} // verus!
