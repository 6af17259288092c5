use life_card_api::card::{
    calculate_creation_reward, CardType, CardUpdateData, PrivacyLevel, TimeRange,
};
use life_card_api::common::{ApiResponse, CursorPagination, Pagination, PaginationMeta};
use life_card_api::config::Config;
use life_card_api::error::AppError;
use life_card_api::exchange::expiration_time;
use life_card_api::recommendation::BehaviorAction;
use life_card_api::user::{AgeRange, CoinReason};

#[test]
fn pagination_new_clamps() {
    let p = Pagination::new(0, 500);
    assert_eq!(p.page, 1);
    assert_eq!(p.page_size, 100);
    let p = Pagination::new(3, 0);
    assert_eq!(p.page_size, 1);
    let p = Pagination::new(3, 20);
    assert_eq!(p.offset(), 40);
    assert_eq!(p.limit(), 20);
    assert!(p.has_more(61));
    assert!(!p.has_more(60));
    let d = Pagination::default();
    assert_eq!((d.page, d.page_size), (1, 20));
}

#[test]
fn cursor_pagination_clamps() {
    let c = CursorPagination::new(Some("abc".to_string()), 1000);
    assert_eq!(c.limit(), 100);
    assert_eq!(c.cursor, Some("abc".to_string()));
    assert_eq!(CursorPagination::new(None, -5).limit, 1);
}

#[test]
fn pagination_meta_rounds_up() {
    assert_eq!(PaginationMeta::new(1, 20, 41).total_pages, 3);
    assert_eq!(PaginationMeta::new(1, 20, 40).total_pages, 2);
    assert_eq!(PaginationMeta::new(1, 20, 0).total_pages, 0);
    assert_eq!(PaginationMeta::new(1, 0, 5).total_pages, i32::MAX);
}

#[test]
fn api_response_envelopes() {
    let r = ApiResponse::success(5);
    assert!(r.success);
    assert_eq!(r.data, Some(5));
    let r = ApiResponse::success_with_message(1, "done".to_string());
    assert_eq!(r.message, Some("done".to_string()));
    let r = ApiResponse::ok();
    assert!(r.data.is_none());
    let r = ApiResponse::ok_with_message("fine".to_string());
    assert_eq!(r.message, Some("fine".to_string()));
}

#[test]
fn storage_names_round_trip() {
    for t in [CardType::DayCard, CardType::WeekCard, CardType::FragmentCard, CardType::MomentCard] {
        assert_eq!(CardType::from_db_str(t.to_db_str()), Some(t));
    }
    assert_eq!(CardType::WeekCard.to_db_str(), "week_card");
    assert_eq!(CardType::from_db_str("card"), None);
    for p in [PrivacyLevel::Public, PrivacyLevel::FriendsOnly, PrivacyLevel::ExchangeOnly] {
        assert_eq!(PrivacyLevel::from_db_str(p.to_db_str()), Some(p));
    }
    assert_eq!(PrivacyLevel::default(), PrivacyLevel::Public);
    for a in [AgeRange::Age18To24, AgeRange::Age25To30, AgeRange::Age31To40, AgeRange::Age41To50, AgeRange::Age50Plus] {
        assert_eq!(AgeRange::from_db_str(a.to_db_str()), Some(a));
    }
    assert_eq!(AgeRange::Age50Plus.to_db_str(), "50+");
    assert_eq!(CoinReason::from_db_str("exchange_refund"), Some(CoinReason::ExchangeRefund));
    assert_eq!(CoinReason::CardExchanged.to_string(), "card_exchanged");
    assert_eq!(CoinReason::from_db_str("refund"), None);
    assert_eq!(TimeRange::default().as_str(), "week");
    assert_eq!(TimeRange::Month.as_str(), "month");
    assert_eq!(BehaviorAction::Exchange.as_str(), "exchange");
    assert_eq!(BehaviorAction::View.to_string(), "view");
    assert_eq!(AppError::InsufficientBalance.code(), "INSUFFICIENT_BALANCE");
}

fn update() -> CardUpdateData {
    CardUpdateData { title: None, description: None, emotion_tags: None, interest_tags: None, privacy_level: None }
}

#[test]
fn card_update_validation() {
    assert_eq!(update().validate(), Ok(()));
    let mut d = update();
    d.title = Some("   ".to_string());
    assert_eq!(d.validate(), Err("Title cannot be empty".to_string()));
    d.title = Some("x".repeat(201));
    assert_eq!(d.validate(), Err("Title must be 200 characters or less".to_string()));
    d.title = Some("x".repeat(200));
    assert_eq!(d.validate(), Ok(()));
    d.description = Some("\t\n".to_string());
    assert_eq!(d.validate(), Err("Description cannot be empty".to_string()));
    d.description = Some("a day".to_string());
    d.emotion_tags = Some(vec!["t".to_string(); 11]);
    assert_eq!(d.validate(), Err("Maximum 10 emotion tags allowed".to_string()));
    d.emotion_tags = Some(vec!["t".repeat(51)]);
    assert_eq!(d.validate(), Err("Each emotion tag must be 50 characters or less".to_string()));
    d.emotion_tags = Some(vec!["t".repeat(50)]);
    d.interest_tags = Some(vec!["i".repeat(51)]);
    assert_eq!(d.validate(), Err("Each interest tag must be 50 characters or less".to_string()));
    d.interest_tags = Some(vec!["i".to_string(); 10]);
    assert_eq!(d.validate(), Ok(()));
}

#[test]
fn creation_reward_counts_what_a_card_carries() {
    assert_eq!(calculate_creation_reward(false, false, false, false), 5);
    assert_eq!(calculate_creation_reward(true, true, true, true), 12);
    assert_eq!(calculate_creation_reward(true, false, false, true), 9);
}

#[test]
fn expiration_time_adds_hours() {
    assert_eq!(expiration_time(1_000, 72), Some(1_000 + 72 * 3600));
    assert_eq!(expiration_time(i64::MAX - 10, 1), None);
    assert_eq!(expiration_time(0, i64::MAX), None);
}

#[test]
fn production_environment() {
    let mut c = Config {
        app_name: String::new(),
        app_env: "production".to_string(),
        app_host: String::new(),
        app_port: 0,
        database_url: String::new(),
        redis_url: String::new(),
        jwt_secret: String::new(),
        jwt_expiration_hours: 0,
        default_coin_balance: 0,
        default_card_price: 0,
        exchange_expiration_hours: 0,
        wechat_app_id: String::new(),
        wechat_app_secret: String::new(),
    };
    assert!(c.is_production());
    c.app_env = "development".to_string();
    assert!(!c.is_production());
}
