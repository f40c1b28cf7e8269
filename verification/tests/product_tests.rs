use stock_notify::browser::{command_outcome, Platform};
use stock_notify::error::NotifyError;
use stock_notify::product::{Product, ProductDetails, ProviderKey};

fn details(name: &str, page: &str) -> ProductDetails {
    ProductDetails::new_from_product_and_page(name.to_string(), page.to_string())
}

#[test]
fn new_details_set_only_name_and_page() {
    let d = details("RTX 3080", "https://shop.example/3080");
    assert_eq!(d.product, "RTX 3080");
    assert_eq!(d.page, "https://shop.example/3080");
    assert_eq!(d.css_selector, None);
    assert_eq!(d.active, None);
    assert_eq!(d.active_chance, None);
}

#[test]
fn from_product_knows_every_catalog_key() {
    let make = |key: &str| Product::from_product(key, "card".to_string(), "page".to_string());
    assert_eq!(make("evgartx"), Some(Product::Evga(Some(details("card", "page")))));
    assert_eq!(make("neweggrtx"), Some(Product::NewEgg(Some(details("card", "page")))));
    assert_eq!(make("bestbuy"), Some(Product::BestBuy(details("card", "page"))));
    assert_eq!(make("evga"), Some(Product::Evga(None)));
    assert_eq!(make("newegg"), Some(Product::NewEgg(None)));
    assert_eq!(make("nvidia"), Some(Product::Nvidia(details("card", "page"))));
    assert_eq!(make("bnh"), Some(Product::BnH(details("card", "page"))));
    assert_eq!(make("amazon"), Some(Product::Amazon(details("card", "page"))));
}

#[test]
fn from_product_refuses_unknown_key() {
    assert_eq!(Product::from_product("walmart", "card".to_string(), "page".to_string()), None);
    assert_eq!(Product::from_product("", "card".to_string(), "page".to_string()), None);
    assert_eq!(Product::from_product("EVGA", "card".to_string(), "page".to_string()), None);
}

#[test]
fn to_key_names_each_provider() {
    assert_eq!(Product::Evga(None).to_key(), "evga");
    assert_eq!(Product::NewEgg(None).to_key(), "newegg");
    assert_eq!(Product::BestBuy(details("a", "b")).to_key(), "bestbuy");
    assert_eq!(Product::Nvidia(details("a", "b")).to_key(), "nvidia");
    assert_eq!(Product::BnH(details("a", "b")).to_key(), "bnh");
    assert_eq!(Product::Amazon(details("a", "b")).to_key(), "amazon");
    assert_eq!(ProviderKey::BnH.name(), "bnh");
    assert_eq!(ProviderKey::Amazon.position(), 5);
}

#[test]
fn get_url_gives_page_or_no_page() {
    assert_eq!(Product::BestBuy(details("a", "https://b")).get_url(), Ok("https://b"));
    assert_eq!(Product::Evga(Some(details("a", "https://e"))).get_url(), Ok("https://e"));
    assert_eq!(Product::Evga(None).get_url(), Err(NotifyError::NoPage));
    assert_eq!(Product::NewEgg(None).get_url(), Err(NotifyError::NoPage));
}

#[test]
fn get_name_gives_display_name() {
    assert_eq!(Product::Amazon(details("card", "p")).get_name(), Some("card"));
    assert_eq!(Product::NewEgg(None).get_name(), None);
}

#[test]
fn get_css_selector_fails_when_absent() {
    let mut d = details("a", "b");
    assert_eq!(Product::BnH(d.clone()).get_css_selector(), Err(NotifyError::NoneCSSSelector));
    d.css_selector = Some("#stock".to_string());
    assert_eq!(Product::BnH(d.clone()).get_css_selector(), Ok("#stock"));
    assert_eq!(Product::Nvidia(d).get_css_selector(), Ok("#stock"));
    assert_eq!(Product::Evga(None).get_css_selector(), Err(NotifyError::NoneCSSSelector));
}

#[test]
fn stock_messages_follow_the_templates() {
    let d = details("RTX 3080", "https://x.example/p");
    assert_eq!(
        Product::Evga(Some(d.clone())).new_stock_message(),
        "EVGA has new RTX 3080 for sale at https://x.example/p"
    );
    assert_eq!(
        Product::NewEgg(Some(d.clone())).new_stock_message(),
        "NewEgg has new RTX 3080 for sale at https://x.example/p"
    );
    assert_eq!(
        Product::BestBuy(d.clone()).new_stock_message(),
        "Bestbuy has RTX 3080 for sale at https://x.example/p"
    );
    assert_eq!(
        Product::Nvidia(d.clone()).new_stock_message(),
        "Nvidia has RTX 3080 for sale at https://x.example/p"
    );
    assert_eq!(Product::BnH(d.clone()).new_stock_message(), "BnH has RTX 3080 for sale at https://x.example/p");
    assert_eq!(
        Product::Amazon(d).new_stock_message(),
        "Amazon has RTX 3080 for sale at https://x.example/p"
    );
    assert_eq!(Product::Evga(None).new_stock_message(), "EVGA has new products!");
    assert_eq!(Product::NewEgg(None).new_stock_message(), "NewEgg has new products!");
}

#[test]
fn is_active_with_full_chance_follows_the_flag() {
    let mut d = details("a", "b");
    d.active_chance = Some(100);
    d.active = Some(true);
    for _ in 0..50 {
        assert!(Product::BestBuy(d.clone()).is_active());
    }
    d.active = Some(false);
    for _ in 0..50 {
        assert!(!Product::BestBuy(d.clone()).is_active());
    }
}

#[test]
fn is_active_with_zero_chance_never_holds() {
    let mut d = details("a", "b");
    d.active_chance = Some(0);
    d.active = Some(true);
    for _ in 0..50 {
        assert!(!Product::BestBuy(d.clone()).is_active());
    }
}

#[test]
fn is_active_defaults_to_always() {
    for _ in 0..50 {
        assert!(Product::BestBuy(details("a", "b")).is_active());
        assert!(Product::Evga(None).is_active());
    }
}

#[test]
fn chance_is_weight_capped_at_ten() {
    let mut d = details("a", "b");
    assert_eq!(Product::BnH(d.clone()).chance_in_ten(), 10);
    d.active_chance = Some(3);
    assert_eq!(Product::BnH(d.clone()).chance_in_ten(), 3);
    d.active_chance = Some(10);
    assert_eq!(Product::BnH(d.clone()).chance_in_ten(), 10);
    d.active_chance = Some(255);
    assert_eq!(Product::BnH(d.clone()).chance_in_ten(), 10);
}

#[test]
fn partial_chance_sometimes_hits_and_sometimes_misses() {
    let mut d = details("a", "b");
    d.active_chance = Some(5);
    let p = Product::BnH(d);
    let mut hits = 0;
    for _ in 0..400 {
        if p.is_active() {
            hits += 1;
        }
    }
    assert!(hits > 0);
    assert!(hits < 400);
}

#[test]
fn is_active_given_needs_flag_and_draw() {
    let mut d = details("a", "b");
    d.active = Some(true);
    let on = Product::Amazon(d.clone());
    d.active = Some(false);
    let off = Product::Amazon(d);
    assert!(on.is_active_given(true));
    assert!(!on.is_active_given(false));
    assert!(!off.is_active_given(true));
    assert!(!off.is_active_given(false));
}

#[test]
fn same_as_compares_every_field() {
    let a = Product::BestBuy(details("a", "b"));
    let b = Product::BestBuy(details("a", "b"));
    assert!(a.same_as(&b));
    assert!(!a.same_as(&Product::Nvidia(details("a", "b"))));
    assert!(!a.same_as(&Product::BestBuy(details("a", "c"))));
    let mut d = details("a", "b");
    d.active_chance = Some(1);
    assert!(!a.same_as(&Product::BestBuy(d.clone())));
    d.active_chance = None;
    d.css_selector = Some("x".to_string());
    assert!(!a.same_as(&Product::BestBuy(d.clone())));
    d.css_selector = None;
    d.active = Some(true);
    assert!(!a.same_as(&Product::BestBuy(d)));
    assert!(Product::Evga(None).same_as(&Product::Evga(None)));
    assert!(!Product::Evga(None).same_as(&Product::NewEgg(None)));
    assert!(!Product::Evga(None).same_as(&Product::Evga(Some(details("a", "b")))));
}

#[test]
fn clone_keeps_the_product() {
    let mut d = details("a", "b");
    d.css_selector = Some("#x".to_string());
    d.active = Some(false);
    d.active_chance = Some(7);
    let p = Product::Amazon(d);
    assert_eq!(p.clone(), p);
}

#[test]
fn open_in_browser_builds_the_platform_command() {
    let p = Product::BestBuy(details("a", "https://b.example"));
    let windows = p.open_in_browser(Platform::Windows).unwrap().unwrap();
    assert_eq!(windows.program, "cmd");
    assert_eq!(windows.arguments, vec!["/C".to_string(), "start".to_string(), "https://b.example".to_string()]);
    let mac = p.open_in_browser(Platform::MacOs).unwrap().unwrap();
    assert_eq!(mac.program, "open");
    assert_eq!(mac.arguments, vec!["https://b.example".to_string()]);
    assert_eq!(p.open_in_browser(Platform::Other), Ok(None));
}

#[test]
fn open_in_browser_without_page() {
    assert_eq!(Product::Evga(None).open_in_browser(Platform::Windows), Err(NotifyError::NoPage));
    assert_eq!(Product::Evga(None).open_in_browser(Platform::MacOs), Err(NotifyError::NoPage));
    assert_eq!(Product::Evga(None).open_in_browser(Platform::Other), Ok(None));
}

#[test]
fn command_outcome_accepts_success_and_code_one() {
    assert_eq!(command_outcome(true, Some(0)), Ok(()));
    assert_eq!(command_outcome(false, Some(1)), Ok(()));
    assert_eq!(command_outcome(false, Some(2)), Err(NotifyError::CommandResult(2)));
    assert_eq!(command_outcome(false, None), Err(NotifyError::CommandResult(0)));
    assert_eq!(command_outcome(false, Some(-9)), Err(NotifyError::CommandResult(-9)));
}
