use life_card_api::config::Config;
use life_card_api::error::AppError;
use life_card_api::exchange::ExchangeStatus;
use life_card_api::exchange_service::{CardEntry, ExchangeService};
use life_card_api::expiration::{sweep_report, ExchangeExpirationTask, SweepReport};
use life_card_api::user::CoinReason;

const HOUR: i64 = 3600;
const T0: i64 = 1_700_000_000;
const OWNER: u128 = 1;
const REQUESTER: u128 = 2;
const OTHER: u128 = 3;
const CARD: u128 = 100;

fn config() -> Config {
    Config {
        app_name: "life-card-api".to_string(),
        app_env: "development".to_string(),
        app_host: "127.0.0.1".to_string(),
        app_port: 8080,
        database_url: String::new(),
        redis_url: String::new(),
        jwt_secret: String::new(),
        jwt_expiration_hours: 168,
        default_coin_balance: 100,
        default_card_price: 10,
        exchange_expiration_hours: 72,
        wechat_app_id: String::new(),
        wechat_app_secret: String::new(),
    }
}

/// An owner with 50 coins, a requester with `requester_balance`, a third user
/// with 30, and one card of the owner.
fn store(requester_balance: i32, base_price: i32, like_count: i32, exchange_count: i32) -> ExchangeService {
    let mut s = ExchangeService::new(config());
    s.open_account(OWNER, 50).unwrap();
    s.open_account(REQUESTER, requester_balance).unwrap();
    s.open_account(OTHER, 30).unwrap();
    s.add_card(CardEntry { id: CARD, owner_id: OWNER, base_price, like_count, exchange_count, is_deleted: false })
        .unwrap();
    s
}

fn balance(s: &ExchangeService, user: u128) -> i32 {
    s.ledger.get_coin_balance(user).unwrap()
}

fn total_coins(s: &ExchangeService) -> i64 {
    let balances: i64 = s.ledger.accounts.iter().map(|a| a.coin_balance as i64).sum();
    let escrow: i64 = s
        .requests
        .iter()
        .filter(|q| q.status == ExchangeStatus::Pending)
        .map(|q| q.coin_amount as i64)
        .sum();
    balances + escrow
}

fn collected(s: &ExchangeService, user: u128, card: u128) -> usize {
    s.collections.iter().filter(|c| c.user_id == user && c.card_id == card).count()
}

#[test]
fn scenario_price_escrow_and_accept() {
    let mut s = store(100, 10, 25, 0);
    assert_eq!(s.calculate_exchange_price(CARD).unwrap().final_price, 12);
    let req = s.create_exchange_request(REQUESTER, CARD, T0).unwrap();
    assert_eq!(req.coin_amount, 12);
    assert_eq!(req.status, ExchangeStatus::Pending);
    assert_eq!(req.expires_at, T0 + 72 * HOUR);
    assert_eq!(balance(&s, REQUESTER), 88);
    let res = s.accept_exchange(req.id, OWNER, T0 + HOUR).unwrap();
    assert_eq!(res.owner_new_balance, 62);
    assert_eq!(res.requester_new_balance, 88);
    assert_eq!(balance(&s, OWNER), 62);
    assert_eq!(balance(&s, REQUESTER), 88);
    assert_eq!(collected(&s, REQUESTER, CARD), 1);
    assert_eq!(s.cards[0].exchange_count, 1);
    assert_eq!(s.records.len(), 1);
    assert_eq!(s.records[0].from_user_id, OWNER);
    assert_eq!(s.records[0].to_user_id, REQUESTER);
    assert_eq!(s.records[0].coin_amount, 12);
}

#[test]
fn scenario_expiry_sweep_refunds() {
    let mut s = store(20, 20, 0, 0);
    let req = s.create_exchange_request(REQUESTER, CARD, T0).unwrap();
    assert_eq!(req.coin_amount, 20);
    assert_eq!(balance(&s, REQUESTER), 0);
    let mut task = ExchangeExpirationTask::new(s);
    let result = task.process_expired_requests(T0 + 73 * HOUR).unwrap();
    assert_eq!(result.total_found, 1);
    assert_eq!(result.processed_count, 1);
    assert_eq!(result.failed_count, 0);
    assert_eq!(result.total_refunded_amount, 20);
    assert_eq!(sweep_report(&result), SweepReport::Processed);
    let s = task.exchange_service;
    assert_eq!(s.requests[0].status, ExchangeStatus::Expired);
    assert_eq!(balance(&s, REQUESTER), 20);
}

#[test]
fn sweep_leaves_requests_that_are_not_overdue() {
    let mut s = store(100, 10, 0, 0);
    let req = s.create_exchange_request(REQUESTER, CARD, T0).unwrap();
    let result = s.process_expired_requests(T0 + 71 * HOUR).unwrap();
    assert_eq!(result.total_found, 0);
    assert_eq!(result.total_refunded_amount, 0);
    assert_eq!(sweep_report(&result), SweepReport::NothingFound);
    assert_eq!(s.requests[0].status, ExchangeStatus::Pending);
    assert_eq!(s.requests[0].id, req.id);
    assert_eq!(balance(&s, REQUESTER), 90);
}

#[test]
fn coins_are_conserved_by_every_exchange_operation() {
    let mut s = store(100, 10, 0, 0);
    s.add_card(CardEntry { id: 101, owner_id: OWNER, base_price: 5, like_count: 0, exchange_count: 0, is_deleted: false })
        .unwrap();
    s.add_card(CardEntry { id: 102, owner_id: OTHER, base_price: 7, like_count: 0, exchange_count: 0, is_deleted: false })
        .unwrap();
    let total = total_coins(&s);
    let a = s.create_exchange_request(REQUESTER, CARD, T0).unwrap();
    assert_eq!(total_coins(&s), total);
    let b = s.create_exchange_request(REQUESTER, 101, T0).unwrap();
    assert_eq!(total_coins(&s), total);
    let c = s.create_exchange_request(OWNER, 102, T0).unwrap();
    assert_eq!(total_coins(&s), total);
    s.accept_exchange(a.id, OWNER, T0 + 1).unwrap();
    assert_eq!(total_coins(&s), total);
    s.cancel_exchange(b.id, REQUESTER, T0 + 2).unwrap();
    assert_eq!(total_coins(&s), total);
    s.process_expired_requests(T0 + 80 * HOUR).unwrap();
    assert_eq!(total_coins(&s), total);
    assert_eq!(s.requests[2].id, c.id);
    assert_eq!(s.requests[2].status, ExchangeStatus::Expired);
}

#[test]
fn a_second_resolution_fails_with_invalid_state() {
    let mut s = store(100, 10, 0, 0);
    let req = s.create_exchange_request(REQUESTER, CARD, T0).unwrap();
    s.reject_exchange(req.id, OWNER, T0 + 1).unwrap();
    let after = (balance(&s, OWNER), balance(&s, REQUESTER), s.ledger.transactions.len());
    assert_eq!(s.accept_exchange(req.id, OWNER, T0 + 2), Err(AppError::InvalidState));
    assert_eq!(s.cancel_exchange(req.id, REQUESTER, T0 + 2), Err(AppError::InvalidState));
    assert_eq!(s.reject_exchange(req.id, OWNER, T0 + 2), Err(AppError::InvalidState));
    assert_eq!(s.expire_exchange(req.id, T0 + 80 * HOUR), Err(AppError::InvalidState));
    assert_eq!(after, (balance(&s, OWNER), balance(&s, REQUESTER), s.ledger.transactions.len()));
}

#[test]
fn accepting_twice_grants_the_card_once() {
    let mut s = store(100, 10, 0, 0);
    let req = s.create_exchange_request(REQUESTER, CARD, T0).unwrap();
    s.accept_exchange(req.id, OWNER, T0 + 1).unwrap();
    assert_eq!(s.accept_exchange(req.id, OWNER, T0 + 2), Err(AppError::InvalidState));
    assert_eq!(collected(&s, REQUESTER, CARD), 1);
    assert_eq!(balance(&s, OWNER), 60);
    assert_eq!(balance(&s, REQUESTER), 90);
}

#[test]
fn self_exchange_is_refused_without_change() {
    let mut s = store(100, 10, 0, 0);
    assert_eq!(s.create_exchange_request(OWNER, CARD, T0), Err(AppError::InvalidOperation));
    assert_eq!(balance(&s, OWNER), 50);
    assert_eq!(s.requests.len(), 0);
    assert_eq!(s.ledger.transactions.len(), 0);
}

#[test]
fn reject_restores_the_requester_balance() {
    let mut s = store(100, 10, 25, 0);
    let req = s.create_exchange_request(REQUESTER, CARD, T0).unwrap();
    assert_eq!(balance(&s, REQUESTER), 88);
    s.reject_exchange(req.id, OWNER, T0 + 1).unwrap();
    assert_eq!(balance(&s, REQUESTER), 100);
    assert_eq!(balance(&s, OWNER), 50);
    assert_eq!(s.requests[0].status, ExchangeStatus::Rejected);
    let log = &s.ledger.transactions;
    assert_eq!(log.len(), 2);
    assert_eq!(log[0].amount, -12);
    assert_eq!(log[0].reason, CoinReason::ExchangePurchase);
    assert_eq!(log[0].reference_id, Some(req.id));
    assert_eq!(log[0].balance_after, 88);
    assert_eq!(log[1].amount, 12);
    assert_eq!(log[1].reason, CoinReason::ExchangeRefund);
    assert_eq!(log[1].reference_id, Some(req.id));
    assert_eq!(log[1].balance_after, 100);
}

#[test]
fn cancel_restores_the_requester_balance() {
    let mut s = store(100, 10, 0, 2);
    let req = s.create_exchange_request(REQUESTER, CARD, T0).unwrap();
    assert_eq!(balance(&s, REQUESTER), 86);
    s.cancel_exchange(req.id, REQUESTER, T0 + 1).unwrap();
    assert_eq!(balance(&s, REQUESTER), 100);
    assert_eq!(balance(&s, OWNER), 50);
    assert_eq!(s.requests[0].status, ExchangeStatus::Cancelled);
}

#[test]
fn expire_restores_the_requester_balance() {
    let mut s = store(100, 10, 0, 0);
    let req = s.create_exchange_request(REQUESTER, CARD, T0).unwrap();
    assert_eq!(s.expire_exchange(req.id, T0 + HOUR), Err(AppError::InvalidState));
    assert_eq!(s.expire_exchange(req.id, T0 + 72 * HOUR + 1), Ok(10));
    assert_eq!(balance(&s, REQUESTER), 100);
    assert_eq!(balance(&s, OWNER), 50);
    assert_eq!(s.requests[0].status, ExchangeStatus::Expired);
}

#[test]
fn late_accept_expires_and_refunds() {
    let mut s = store(100, 10, 0, 0);
    let req = s.create_exchange_request(REQUESTER, CARD, T0).unwrap();
    assert_eq!(s.accept_exchange(req.id, OWNER, T0 + 73 * HOUR), Err(AppError::InvalidState));
    assert_eq!(s.requests[0].status, ExchangeStatus::Expired);
    assert_eq!(balance(&s, REQUESTER), 100);
    assert_eq!(balance(&s, OWNER), 50);
    assert_eq!(collected(&s, REQUESTER, CARD), 0);
}

#[test]
fn resolution_errors() {
    let mut s = store(100, 10, 0, 0);
    let req = s.create_exchange_request(REQUESTER, CARD, T0).unwrap();
    assert_eq!(s.accept_exchange(999, OWNER, T0), Err(AppError::NotFound));
    assert_eq!(s.accept_exchange(req.id, OTHER, T0), Err(AppError::Forbidden));
    assert_eq!(s.reject_exchange(req.id, REQUESTER, T0), Err(AppError::Forbidden));
    assert_eq!(s.cancel_exchange(req.id, OWNER, T0), Err(AppError::Forbidden));
    assert_eq!(s.expire_exchange(999, T0), Err(AppError::NotFound));
    assert_eq!(s.requests[0].status, ExchangeStatus::Pending);
    assert_eq!(balance(&s, REQUESTER), 90);
}

#[test]
fn creation_errors() {
    let mut s = store(5, 10, 0, 0);
    assert_eq!(s.create_exchange_request(REQUESTER, 999, T0), Err(AppError::NotFound));
    assert_eq!(s.create_exchange_request(REQUESTER, CARD, T0), Err(AppError::InsufficientBalance));
    assert_eq!(s.create_exchange_request(77, CARD, T0), Err(AppError::NotFound));
    let req = s.create_exchange_request(OTHER, CARD, T0).unwrap();
    assert_eq!(s.create_exchange_request(OTHER, CARD, T0), Err(AppError::Conflict));
    s.accept_exchange(req.id, OWNER, T0 + 1).unwrap();
    assert_eq!(s.create_exchange_request(OTHER, CARD, T0 + 2), Err(AppError::Conflict));
    s.add_card(CardEntry { id: 200, owner_id: OWNER, base_price: 0, like_count: 0, exchange_count: 0, is_deleted: false })
        .unwrap();
    assert_eq!(s.create_exchange_request(REQUESTER, 200, T0), Err(AppError::InvalidAmount));
    s.add_card(CardEntry { id: 201, owner_id: OWNER, base_price: 1, like_count: 0, exchange_count: 0, is_deleted: true })
        .unwrap();
    assert_eq!(s.create_exchange_request(REQUESTER, 201, T0), Err(AppError::NotFound));
    assert_eq!(balance(&s, REQUESTER), 5);
}

#[test]
fn store_setup_errors() {
    let mut s = store(100, 10, 0, 0);
    assert_eq!(s.open_account(OWNER, 1), Err(AppError::Conflict));
    assert_eq!(s.open_account(9, -1), Err(AppError::InvalidAmount));
    let card = CardEntry { id: CARD, owner_id: OWNER, base_price: 1, like_count: 0, exchange_count: 0, is_deleted: false };
    assert_eq!(s.add_card(card), Err(AppError::Conflict));
    let card = CardEntry { id: 300, owner_id: 42, base_price: 1, like_count: 0, exchange_count: 0, is_deleted: false };
    assert_eq!(s.add_card(card), Err(AppError::NotFound));
    let card = CardEntry { id: 300, owner_id: OWNER, base_price: 1, like_count: -1, exchange_count: 0, is_deleted: false };
    assert_eq!(s.add_card(card), Err(AppError::InvalidAmount));
}

#[test]
fn ledger_add_and_deduct() {
    let mut s = store(100, 10, 0, 0);
    let l = &mut s.ledger;
    assert_eq!(l.add_coins(REQUESTER, 0, CoinReason::DailyLogin, None, T0), Err(AppError::InvalidAmount));
    assert_eq!(l.add_coins(77, 5, CoinReason::DailyLogin, None, T0), Err(AppError::NotFound));
    assert_eq!(l.add_coins(REQUESTER, 5, CoinReason::DailyLogin, None, T0), Ok(105));
    assert_eq!(l.add_coins(REQUESTER, i32::MAX, CoinReason::DailyLogin, None, T0), Err(AppError::Internal));
    assert_eq!(l.deduct_coins(REQUESTER, -3, CoinReason::ExchangePurchase, None, T0), Err(AppError::InvalidAmount));
    assert_eq!(l.deduct_coins(REQUESTER, 106, CoinReason::ExchangePurchase, None, T0), Err(AppError::InsufficientBalance));
    assert_eq!(l.deduct_coins(REQUESTER, 105, CoinReason::ExchangePurchase, None, T0), Ok(0));
    assert_eq!(l.get_coin_balance(REQUESTER), Ok(0));
    assert_eq!(l.get_coin_balance(77), Err(AppError::NotFound));
    assert_eq!(l.transactions.len(), 2);
    assert_eq!(l.transactions[1].amount, -105);
    assert_eq!(l.transactions[1].balance_after, 0);
}

#[test]
fn refund_that_overflows_fails_and_is_counted() {
    let mut s = store(100, 10, 0, 0);
    let req = s.create_exchange_request(REQUESTER, CARD, T0).unwrap();
    let room = i32::MAX - balance(&s, REQUESTER);
    s.ledger.add_coins(REQUESTER, room, CoinReason::DailyLogin, None, T0).unwrap();
    assert_eq!(s.reject_exchange(req.id, OWNER, T0 + 1), Err(AppError::Internal));
    let result = s.process_expired_requests(T0 + 80 * HOUR).unwrap();
    assert_eq!(result.total_found, 1);
    assert_eq!(result.processed_count, 0);
    assert_eq!(result.failed_count, 1);
    assert_eq!(sweep_report(&result), SweepReport::NoneProcessed);
    assert_eq!(s.requests[0].status, ExchangeStatus::Pending);
}

#[test]
fn request_lists_and_history() {
    let mut s = store(100, 10, 0, 0);
    s.add_card(CardEntry { id: 101, owner_id: OWNER, base_price: 5, like_count: 0, exchange_count: 0, is_deleted: false })
        .unwrap();
    let a = s.create_exchange_request(REQUESTER, CARD, T0).unwrap();
    let b = s.create_exchange_request(REQUESTER, 101, T0 + 10).unwrap();
    let pending = s.get_pending_requests(OWNER, T0 + 20);
    assert_eq!(pending.len(), 2);
    assert_eq!(pending[0].id, b.id);
    assert_eq!(pending[1].id, a.id);
    assert_eq!(s.get_pending_requests(OWNER, T0 + 80 * HOUR).len(), 0);
    s.accept_exchange(a.id, OWNER, T0 + 30).unwrap();
    assert_eq!(s.get_pending_requests(OWNER, T0 + 40).len(), 1);
    let sent = s.get_sent_requests(REQUESTER);
    assert_eq!(sent.len(), 2);
    assert_eq!(sent[1].status, ExchangeStatus::Accepted);
    s.accept_exchange(b.id, OWNER, T0 + 50).unwrap();
    let page = life_card_api::common::Pagination::new(1, 1);
    let h = s.get_exchange_history(OWNER, page).unwrap();
    assert_eq!(h.total_count, 2);
    assert_eq!(h.records.len(), 1);
    assert_eq!(h.records[0].card_id, 101);
    assert_eq!(h.records[0].counterparty_id, REQUESTER);
    let h = s.get_exchange_history(REQUESTER, life_card_api::common::Pagination::new(2, 1)).unwrap();
    assert_eq!(h.records.len(), 1);
    assert_eq!(h.records[0].card_id, CARD);
    assert_eq!(h.records[0].direction, life_card_api::exchange::ExchangeDirection::Received);
    let h = s.get_exchange_history(OTHER, life_card_api::common::Pagination::new(1, 20)).unwrap();
    assert_eq!(h.total_count, 0);
}

#[test]
fn coin_history_is_newest_first_and_paged() {
    let mut s = store(100, 10, 0, 0);
    let req = s.create_exchange_request(REQUESTER, CARD, T0).unwrap();
    s.cancel_exchange(req.id, REQUESTER, T0 + 5).unwrap();
    let all = s.ledger.get_coin_history(REQUESTER, life_card_api::common::Pagination::new(1, 20)).unwrap();
    assert_eq!(all.pagination.total_count, 2);
    assert_eq!(all.pagination.total_pages, 1);
    assert_eq!(all.data.len(), 2);
    assert_eq!(all.data[0].reason, CoinReason::ExchangeRefund);
    assert_eq!(all.data[1].reason, CoinReason::ExchangePurchase);
    let second = s.ledger.get_coin_history(REQUESTER, life_card_api::common::Pagination::new(2, 1)).unwrap();
    assert_eq!(second.data.len(), 1);
    assert_eq!(second.data[0].amount, -10);
    assert_eq!(second.pagination.total_pages, 2);
    assert!(s.ledger.get_coin_history(OWNER, life_card_api::common::Pagination::default()).unwrap().data.is_empty());
    assert!(s.ledger.get_coin_history(77, life_card_api::common::Pagination::default()).is_err());
}
