//! Laws of the exchange that relate several operations.
use vstd::prelude::*;

use crate::error::AppError;
use crate::exchange::{ExchangeRequestRow, ExchangeResult, ExchangeStatus};
use crate::exchange_service::{
    collections_unique, has_card, has_collected, has_request, request_index, with_status, ExchangeService,
};

verus! {

/// Whether `actor` is the party that may resolve `q` from the given side:
/// the owner (`by_owner`) or the requester.
pub open spec fn authorized(q: ExchangeRequestRow, actor: u128, by_owner: bool) -> bool {
    if by_owner {
        actor == q.owner_id
    } else {
        actor == q.requester_id
    }
}

/// Once a request is in a terminal status, every accept, reject, cancel or
/// expire of it is refused: by its authorized party with `InvalidState`, by
/// anyone else with `Forbidden`. The operations' contracts then leave the
/// store unchanged.
pub proof fn lemma_terminal_is_immutable(s: ExchangeService, id: u128, actor: u128, by_owner: bool, now: i64)
    requires
        has_request(s.requests@, id),
        s.request(id).status.spec_is_terminal(),
    ensures
        authorized(s.request(id), actor, by_owner) ==> s.resolution_error(id, actor, by_owner)
            == Some(AppError::InvalidState),
        !authorized(s.request(id), actor, by_owner) ==> s.resolution_error(id, actor, by_owner)
            == Some(AppError::Forbidden),
        s.expire_error(id, now) == Some(AppError::InvalidState),
{
}

/// After a request was rejected, cancelled or expired, a second resolution
/// of it, by its authorized party or by the system, fails with
/// `InvalidState`: two resolutions never both succeed.
pub proof fn lemma_refund_resolves_once(
    s0: ExchangeService,
    s1: ExchangeService,
    id: u128,
    status: ExchangeStatus,
    now: i64,
    actor: u128,
    by_owner: bool,
    later: i64,
)
    requires
        s0.wf(),
        has_request(s0.requests@, id),
        !(status is Pending),
        s1.refunded(&s0, request_index(s0.requests@, id), status, now),
        authorized(s1.request(id), actor, by_owner),
    ensures
        has_request(s1.requests@, id),
        s1.request(id).status == status,
        s1.resolution_error(id, actor, by_owner) == Some(AppError::InvalidState),
        s1.expire_error(id, later) == Some(AppError::InvalidState),
{
    resolved_request_found(s0, s1, id, status, now);
}

/// After a request was accepted, a second resolution of it, by its
/// authorized party or by the system, fails with `InvalidState`: two
/// resolutions never both succeed, and a second accept grants nothing.
pub proof fn lemma_accept_resolves_once(
    s0: ExchangeService,
    s1: ExchangeService,
    id: u128,
    now: i64,
    res: ExchangeResult,
    actor: u128,
    by_owner: bool,
    later: i64,
)
    requires
        s0.wf(),
        has_request(s0.requests@, id),
        s1.accepted(&s0, request_index(s0.requests@, id), now, res),
        authorized(s1.request(id), actor, by_owner),
    ensures
        has_request(s1.requests@, id),
        s1.request(id).status == ExchangeStatus::Accepted,
        s1.resolution_error(id, actor, by_owner) == Some(AppError::InvalidState),
        s1.expire_error(id, later) == Some(AppError::InvalidState),
{
    resolved_request_found(s0, s1, id, ExchangeStatus::Accepted, now);
}

/// The request moved to `status` is still found under its id.
proof fn resolved_request_found(s0: ExchangeService, s1: ExchangeService, id: u128, status: ExchangeStatus, now: i64)
    requires
        s0.wf(),
        has_request(s0.requests@, id),
        s1.requests@ == s0.requests@.update(
            request_index(s0.requests@, id),
            with_status(s0.request(id), status, now),
        ),
    ensures
        has_request(s1.requests@, id),
        s1.request(id) == with_status(s0.request(id), status, now),
{
    let i = request_index(s0.requests@, id);
    assert(s1.requests@[i].id == id);
    let k = request_index(s1.requests@, id);
    assert(s0.requests@[k].id == s1.requests@[k].id);
}

/// A user can never open an exchange for their own card: creation is
/// refused with `InvalidOperation`, and the contract of
/// `create_exchange_request` then leaves every balance as it was.
pub proof fn lemma_no_self_exchange(s: ExchangeService, requester_id: u128, card_id: u128, now: i64)
    requires
        has_card(s.cards@, card_id),
        !s.card(card_id).is_deleted,
        requester_id == s.card(card_id).owner_id,
    ensures
        s.create_error(requester_id, card_id, now) == Some(AppError::InvalidOperation),
{
}

/// Right after a request is created, the requester's balance is lower by
/// exactly the request's amount, and that amount is the card's base price
/// plus one coin per ten likes plus two per past exchange.
pub proof fn lemma_escrow_on_create(
    s0: ExchangeService,
    s1: ExchangeService,
    requester_id: u128,
    card_id: u128,
    now: i64,
    req: ExchangeRequestRow,
)
    requires
        s1.created(&s0, requester_id, card_id, now, req),
    ensures
        s1.balance(requester_id) == s0.balance(requester_id) - req.coin_amount,
        req.coin_amount == s0.card(card_id).base_price + s0.card(card_id).like_count / 10
            + s0.card(card_id).exchange_count * 2,
{
}

/// A request that is rejected, cancelled or expired right after its creation
/// puts the requester's balance back to exactly what it was before the
/// request, and leaves the owner's balance as it was.
pub proof fn lemma_refund_restores(
    s0: ExchangeService,
    s1: ExchangeService,
    s2: ExchangeService,
    requester_id: u128,
    card_id: u128,
    created_at: i64,
    req: ExchangeRequestRow,
    status: ExchangeStatus,
    now: i64,
)
    requires
        s0.wf(),
        s0.create_error(requester_id, card_id, created_at) is None,
        s1.created(&s0, requester_id, card_id, created_at, req),
        s2.refunded(&s1, s0.requests@.len() as int, status, now),
    ensures
        s2.balance(requester_id) == s0.balance(requester_id),
        s2.balance(req.owner_id) == s0.balance(req.owner_id),
{
    assert(s1.requests@[s0.requests@.len() as int] == req);
}

/// Accepting a request right after its creation gives the owner exactly the
/// request's amount, leaves the requester's balance as the creation left it,
/// and puts the card in the requester's collection exactly once.
pub proof fn lemma_accept_credits_owner(
    s0: ExchangeService,
    s1: ExchangeService,
    s2: ExchangeService,
    requester_id: u128,
    card_id: u128,
    created_at: i64,
    req: ExchangeRequestRow,
    now: i64,
    res: ExchangeResult,
)
    requires
        s0.wf(),
        s0.create_error(requester_id, card_id, created_at) is None,
        s1.created(&s0, requester_id, card_id, created_at, req),
        s2.wf(),
        s2.accepted(&s1, s0.requests@.len() as int, now, res),
    ensures
        s2.balance(req.owner_id) == s1.balance(req.owner_id) + req.coin_amount,
        s2.balance(requester_id) == s1.balance(requester_id),
        s2.balance(requester_id) == s0.balance(requester_id) - req.coin_amount,
        has_collected(s2.collections@, requester_id, card_id),
        forall|a: int, b: int|
            0 <= a < s2.collections@.len() && 0 <= b < s2.collections@.len()
                && (#[trigger] s2.collections@[a]).user_id == requester_id && s2.collections@[a].card_id == card_id
                && (#[trigger] s2.collections@[b]).user_id == requester_id && s2.collections@[b].card_id == card_id
                ==> a == b,
{
    assert(s1.requests@[s0.requests@.len() as int] == req);
    assert(collections_unique(s2.collections@));
}

} // verus!
