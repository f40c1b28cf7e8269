use stock_notify::config::{ApplicationConfig, Config, RateLimitTable, Subscriber};
use stock_notify::error::NotifyError;
use stock_notify::notifier::{Notifier, TextMessage};
use stock_notify::product::{Product, ProductDetails};

const NOW: i64 = 1_700_000_000;

fn settings(last_sent: i64) -> ApplicationConfig {
    ApplicationConfig {
        last_seen_evga: 0,
        last_seen_newegg: 0,
        last_seen_asus: 0,
        last_notification_sent: last_sent,
        twilio_auth_token: Some("token".to_string()),
        twilio_account_id: Some("AC1".to_string()),
        imap_username: None,
        imap_password: None,
        imap_host: None,
        from_phone_number: Some("+15550100".to_string()),
        should_open_browser: true,
        daemon_mode: true,
        discord_url: Some("https://hooks.example/1".to_string()),
        scraping_timeout: None,
        ratelimit_keys: RateLimitTable::new(),
        proxy_url: None,
    }
}

fn subscriber(phone: &str, services: &[&str], active: bool) -> Subscriber {
    Subscriber {
        service: services.iter().map(|s| s.to_string()).collect(),
        to_phone_number: phone.to_string(),
        active,
    }
}

fn notifier(last_sent: i64) -> Notifier {
    Notifier::new(Config {
        application_config: settings(last_sent),
        subscribers: vec![
            subscriber("+1", &["bestbuy", "evga"], true),
            subscriber("+2", &["bestbuy"], false),
            subscriber("+3", &["newegg"], true),
            subscriber("+4", &["amazon", "bestbuy"], true),
        ],
        products: vec![],
    })
}

fn card() -> Product {
    Product::BestBuy(ProductDetails::new_from_product_and_page(
        "RTX 3080".to_string(),
        "https://www.bestbuy.example/1".to_string(),
    ))
}

#[test]
fn active_subscribers_are_filtered_in_order() {
    let n = notifier(0);
    let phones = |key: &str| -> Vec<String> {
        n.active_subscribers(key).iter().map(|s| s.to_phone_number.clone()).collect()
    };
    assert_eq!(phones("bestbuy"), vec!["+1".to_string(), "+4".to_string()]);
    assert_eq!(phones("evga"), vec!["+1".to_string()]);
    assert_eq!(phones("newegg"), vec!["+3".to_string()]);
    assert_eq!(phones("nvidia"), Vec::<String>::new());
}

#[test]
fn settings_are_read_back() {
    let n = notifier(0);
    assert!(n.daemon_mode());
    assert_eq!(n.get_from_phone_number(), Some(&"+15550100".to_string()));
    let mut bare = notifier(0);
    bare.config.application_config.from_phone_number = None;
    bare.config.application_config.daemon_mode = false;
    assert_eq!(bare.get_from_phone_number(), None);
    assert!(!bare.daemon_mode());
}

#[test]
fn cooldown_gate_ten_minutes_after_last_batch() {
    let plan = notifier(NOW - 10 * 60).handle_found_product(&card(), NOW);
    assert_eq!(plan.messages, vec![]);
    assert!(plan.open_browser);
    assert_eq!(plan.webhook, Some("https://hooks.example/1".to_string()));
}

#[test]
fn cooldown_gate_thirty_one_minutes_after_last_batch() {
    let plan = notifier(NOW - 31 * 60).handle_found_product(&card(), NOW);
    let message = |to: &str| TextMessage {
        from: "+15550100".to_string(),
        to: to.to_string(),
        body: "Bestbuy has RTX 3080 for sale at https://www.bestbuy.example/1".to_string(),
    };
    assert_eq!(plan.messages, vec![message("+1"), message("+4")]);
    assert!(plan.open_browser);
    assert_eq!(plan.webhook, Some("https://hooks.example/1".to_string()));
}

#[test]
fn second_cycle_within_cooldown_sends_nothing() {
    let mut n = notifier(NOW - 2 * 60 * 60);
    let first = n.handle_found_product(&card(), NOW);
    assert_eq!(first.messages.len(), 2);
    n.record_batch(first.messages.len(), NOW);
    let second = n.handle_found_product(&card(), NOW + 30);
    assert_eq!(second.messages.len(), 0);
    let much_later = n.handle_found_product(&card(), NOW + 30 * 60);
    assert_eq!(much_later.messages.len(), 2);
}

#[test]
fn failed_batch_does_not_use_up_the_cooldown() {
    let mut n = notifier(NOW - 2 * 60 * 60);
    let first = n.handle_found_product(&card(), NOW);
    assert_eq!(first.messages.len(), 2);
    n.record_batch(0, NOW);
    assert_eq!(n.config.application_config.last_notification_sent, NOW - 2 * 60 * 60);
    let second = n.handle_found_product(&card(), NOW + 30);
    assert_eq!(second.messages.len(), 2);
}

#[test]
fn no_text_messages_without_the_channel() {
    let mut n = notifier(0);
    n.config.application_config.twilio_auth_token = None;
    let plan = n.handle_found_product(&card(), NOW);
    assert_eq!(plan.messages, vec![]);
    assert!(plan.open_browser);
}

#[test]
fn no_text_messages_without_subscribers() {
    let mut n = notifier(0);
    n.config.subscribers = vec![];
    n.config.application_config.discord_url = None;
    n.config.application_config.should_open_browser = false;
    let plan = n.handle_found_product(&card(), NOW);
    assert_eq!(plan.messages, vec![]);
    assert!(!plan.open_browser);
    assert_eq!(plan.webhook, None);
}

#[test]
fn announcement_without_details_reaches_its_subscribers() {
    let plan = notifier(0).handle_found_product(&Product::Evga(None), NOW);
    assert_eq!(
        plan.messages,
        vec![TextMessage {
            from: "+15550100".to_string(),
            to: "+1".to_string(),
            body: "EVGA has new products!".to_string(),
        }]
    );
}

#[test]
fn one_failed_delivery_does_not_stop_the_count() {
    let mut n = notifier(5);
    let deliveries = vec![
        Err(NotifyError::TwilioSend("busy".to_string())),
        Ok(()),
        Err(NotifyError::TwilioSend("busy".to_string())),
        Ok(()),
    ];
    assert_eq!(n.settle_batch(&deliveries, NOW), 2);
    assert_eq!(n.config.application_config.last_notification_sent, NOW);
}

#[test]
fn batch_without_a_delivery_leaves_the_cadence() {
    let mut n = notifier(5);
    assert_eq!(n.settle_batch(&vec![Err(NotifyError::TwilioSend("busy".to_string()))], NOW), 0);
    assert_eq!(n.config.application_config.last_notification_sent, 5);
    assert_eq!(n.settle_batch(&vec![], NOW), 0);
    assert_eq!(n.config.application_config.last_notification_sent, 5);
    let before = n.clone();
    n.record_batch(0, NOW);
    assert_eq!(n, before);
}
