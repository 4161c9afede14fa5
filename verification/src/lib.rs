//! A pooled-deposit lottery escrow: participants buy fixed-price tickets into
//! a session, the session's operator closes it by swapping the pooled balance
//! into a winning token through an external swap facility, and ticket holders
//! then claim equal shares of the proceeds.
//!
//! The library is the session/ticket state machine alone: the phase
//! transitions, the guards on buying and claiming, and the payout arithmetic.
//! Moving actual funds and invoking the swap facility are the host ledger's
//! work; a caller performs those actions and hands their outcomes back in as
//! plain values, so every decision the protocol makes is verified here.

pub mod errors;
pub mod ids;
pub mod session;
pub mod ticket;
