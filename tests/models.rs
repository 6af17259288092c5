use life_card_api::exchange::{
    calculate_expiration_time, ExchangeDirection, ExchangePriceInfo, ExchangeRecordRow,
    ExchangeRequestRow, ExchangeStatus, ExpirationProcessingResult,
};
use life_card_api::exchange_service::{CardEntry, ExchangeService};
use life_card_api::expiration::DEFAULT_CHECK_INTERVAL_SECS;
use life_card_api::validation::{is_not_empty, is_valid_email, is_valid_password};

const HOUR: i64 = 3600;

fn new_id() -> u128 {
    uuid::Uuid::new_v4().as_u128()
}

fn now() -> i64 {
    chrono::Utc::now().timestamp()
}

#[test]
fn test_exchange_status_display() {
    assert_eq!(ExchangeStatus::Pending.to_string(), "pending");
    assert_eq!(ExchangeStatus::Accepted.to_string(), "accepted");
    assert_eq!(ExchangeStatus::Rejected.to_string(), "rejected");
    assert_eq!(ExchangeStatus::Cancelled.to_string(), "cancelled");
    assert_eq!(ExchangeStatus::Expired.to_string(), "expired");
}

#[test]
fn test_exchange_status_from_db_str() {
    assert_eq!(ExchangeStatus::from_db_str("pending"), Some(ExchangeStatus::Pending));
    assert_eq!(ExchangeStatus::from_db_str("accepted"), Some(ExchangeStatus::Accepted));
    assert_eq!(ExchangeStatus::from_db_str("rejected"), Some(ExchangeStatus::Rejected));
    assert_eq!(ExchangeStatus::from_db_str("cancelled"), Some(ExchangeStatus::Cancelled));
    assert_eq!(ExchangeStatus::from_db_str("expired"), Some(ExchangeStatus::Expired));
    assert_eq!(ExchangeStatus::from_db_str("invalid"), None);
}

#[test]
fn test_exchange_status_is_terminal() {
    assert!(!ExchangeStatus::Pending.is_terminal());
    assert!(ExchangeStatus::Accepted.is_terminal());
    assert!(ExchangeStatus::Rejected.is_terminal());
    assert!(ExchangeStatus::Cancelled.is_terminal());
    assert!(ExchangeStatus::Expired.is_terminal());
}

#[test]
fn test_exchange_status_can_accept() {
    assert!(ExchangeStatus::Pending.can_accept());
    assert!(!ExchangeStatus::Accepted.can_accept());
    assert!(!ExchangeStatus::Rejected.can_accept());
    assert!(!ExchangeStatus::Cancelled.can_accept());
    assert!(!ExchangeStatus::Expired.can_accept());
}

#[test]
fn test_exchange_status_can_reject() {
    assert!(ExchangeStatus::Pending.can_reject());
    assert!(!ExchangeStatus::Accepted.can_reject());
    assert!(!ExchangeStatus::Rejected.can_reject());
    assert!(!ExchangeStatus::Cancelled.can_reject());
    assert!(!ExchangeStatus::Expired.can_reject());
}

#[test]
fn test_exchange_status_can_cancel() {
    assert!(ExchangeStatus::Pending.can_cancel());
    assert!(!ExchangeStatus::Accepted.can_cancel());
    assert!(!ExchangeStatus::Rejected.can_cancel());
    assert!(!ExchangeStatus::Cancelled.can_cancel());
    assert!(!ExchangeStatus::Expired.can_cancel());
}

#[test]
fn test_exchange_direction_display() {
    assert_eq!(ExchangeDirection::Sent.to_string(), "sent");
    assert_eq!(ExchangeDirection::Received.to_string(), "received");
}

#[test]
fn test_calculate_expiration_time() {
    let now = now();
    let expiration = calculate_expiration_time();
    let diff_hours = (expiration - now) / HOUR;
    assert!(diff_hours >= 71 && diff_hours <= 72);
}

#[test]
fn test_exchange_price_info() {
    let card_id = new_id();

    let price_info = ExchangePriceInfo::new(card_id, 10, 0, 0);
    assert_eq!(price_info.base_price, 10);
    assert_eq!(price_info.popularity_bonus, 0);
    assert_eq!(price_info.final_price, 10);

    let price_info = ExchangePriceInfo::new(card_id, 10, 25, 0);
    assert_eq!(price_info.base_price, 10);
    assert_eq!(price_info.popularity_bonus, 2);
    assert_eq!(price_info.final_price, 12);

    let price_info = ExchangePriceInfo::new(card_id, 10, 0, 5);
    assert_eq!(price_info.base_price, 10);
    assert_eq!(price_info.popularity_bonus, 10);
    assert_eq!(price_info.final_price, 20);

    let price_info = ExchangePriceInfo::new(card_id, 10, 50, 3);
    assert_eq!(price_info.base_price, 10);
    assert_eq!(price_info.popularity_bonus, 11);
    assert_eq!(price_info.final_price, 21);
}

#[test]
fn test_exchange_record_row_to_exchange_record() {
    let from_user_id = new_id();
    let to_user_id = new_id();
    let card_id = new_id();
    let now = now();

    let row = ExchangeRecordRow {
        id: new_id(),
        exchange_request_id: Some(new_id()),
        card_id,
        from_user_id,
        to_user_id,
        coin_amount: 15,
        completed_at: now,
    };

    let record = row.to_exchange_record(&from_user_id, None, None);
    assert_eq!(record.direction, ExchangeDirection::Sent);
    assert_eq!(record.counterparty_id, to_user_id);

    let record = row.to_exchange_record(&to_user_id, None, None);
    assert_eq!(record.direction, ExchangeDirection::Received);
    assert_eq!(record.counterparty_id, from_user_id);
}

fn row(status: ExchangeStatus, expires_at: i64, created_at: i64) -> ExchangeRequestRow {
    ExchangeRequestRow {
        id: new_id(),
        requester_id: new_id(),
        card_id: new_id(),
        owner_id: new_id(),
        coin_amount: 10,
        status,
        expires_at,
        created_at,
        updated_at: created_at,
    }
}

#[test]
fn test_exchange_request_row_is_expired() {
    let r = row(ExchangeStatus::Pending, now() - HOUR, now() - 73 * HOUR);
    assert!(r.is_expired());

    let r = row(ExchangeStatus::Pending, now() + HOUR, now());
    assert!(!r.is_expired());
}

#[test]
fn test_exchange_request_row_is_actionable() {
    let r = row(ExchangeStatus::Pending, now() + HOUR, now());
    assert!(r.is_actionable());

    let r = row(ExchangeStatus::Pending, now() - HOUR, now() - 73 * HOUR);
    assert!(!r.is_actionable());

    let r = row(ExchangeStatus::Accepted, now() + HOUR, now());
    assert!(!r.is_actionable());
}

#[test]
fn test_expiration_processing_result_all_successful() {
    let result = ExpirationProcessingResult {
        total_found: 5,
        processed_count: 5,
        failed_count: 0,
        total_refunded_amount: 100,
    };
    assert!(result.all_successful());

    let result = ExpirationProcessingResult {
        total_found: 5,
        processed_count: 3,
        failed_count: 2,
        total_refunded_amount: 60,
    };
    assert!(!result.all_successful());

    let result = ExpirationProcessingResult {
        total_found: 0,
        processed_count: 0,
        failed_count: 0,
        total_refunded_amount: 0,
    };
    assert!(result.all_successful());
}

#[test]
fn test_expiration_processing_result_has_processed() {
    let result = ExpirationProcessingResult {
        total_found: 5,
        processed_count: 3,
        failed_count: 2,
        total_refunded_amount: 60,
    };
    assert!(result.has_processed());

    let result = ExpirationProcessingResult {
        total_found: 5,
        processed_count: 0,
        failed_count: 5,
        total_refunded_amount: 0,
    };
    assert!(!result.has_processed());

    let result = ExpirationProcessingResult {
        total_found: 0,
        processed_count: 0,
        failed_count: 0,
        total_refunded_amount: 0,
    };
    assert!(!result.has_processed());
}

#[test]
fn test_exchange_price_calculation() {
    let card_id = new_id();

    let price_info = ExchangePriceInfo::new(card_id, 10, 0, 0);
    assert_eq!(price_info.final_price, 10);

    let price_info = ExchangePriceInfo::new(card_id, 10, 25, 0);
    assert_eq!(price_info.final_price, 12);

    let price_info = ExchangePriceInfo::new(card_id, 10, 0, 5);
    assert_eq!(price_info.final_price, 20);

    let price_info = ExchangePriceInfo::new(card_id, 10, 50, 3);
    assert_eq!(price_info.final_price, 21);
}

#[test]
fn test_default_check_interval() {
    assert_eq!(DEFAULT_CHECK_INTERVAL_SECS, 300);
}

#[test]
fn test_valid_emails() {
    assert!(is_valid_email("test@example.com"));
    assert!(is_valid_email("user.name@domain.org"));
    assert!(is_valid_email("user+tag@example.co.uk"));
}

#[test]
fn test_invalid_emails() {
    assert!(!is_valid_email(""));
    assert!(!is_valid_email("invalid"));
    assert!(!is_valid_email("@example.com"));
    assert!(!is_valid_email("test@"));
    assert!(!is_valid_email("test@.com"));
}

#[test]
fn test_valid_passwords() {
    assert!(is_valid_password("password123"));
    assert!(is_valid_password("12345678"));
    assert!(is_valid_password("a very long password"));
}

#[test]
fn test_invalid_passwords() {
    assert!(!is_valid_password(""));
    assert!(!is_valid_password("short"));
    assert!(!is_valid_password("1234567"));
}

#[test]
fn test_is_not_empty() {
    assert!(is_not_empty("hello"));
    assert!(is_not_empty(" hello "));
    assert!(!is_not_empty(""));
    assert!(!is_not_empty("   "));
}

#[test]
fn price_of_stored_card_matches_formula() {
    let mut service = ExchangeService::new(life_card_api_test_config());
    let owner = 1u128;
    service.open_account(owner, 0).unwrap();
    service
        .add_card(CardEntry { id: 7, owner_id: owner, base_price: 10, like_count: 50, exchange_count: 3, is_deleted: false })
        .unwrap();
    let info = service.calculate_exchange_price(7).unwrap();
    assert_eq!(info.card_id, 7);
    assert_eq!(info.popularity_bonus, 11);
    assert_eq!(info.final_price, 21);
    assert_eq!(service.calculate_exchange_price(8), Err(life_card_api::error::AppError::NotFound));
}

fn life_card_api_test_config() -> life_card_api::config::Config {
    life_card_api::config::Config {
        app_name: "life-card-api".to_string(),
        app_env: "test".to_string(),
        app_host: "127.0.0.1".to_string(),
        app_port: 8080,
        database_url: String::new(),
        redis_url: String::new(),
        jwt_secret: String::new(),
        jwt_expiration_hours: 168,
        default_coin_balance: 100,
        default_card_price: 10,
        exchange_expiration_hours: 72,
        wechat_app_id: String::new(),
        wechat_app_secret: String::new(),
    }
}
