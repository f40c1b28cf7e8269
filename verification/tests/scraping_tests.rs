use std::io::Write;

use stock_notify::error::NotifyError;
use stock_notify::product::{Product, ProductDetails, ProviderKey};
use stock_notify::scraping::amazon::AmazonScraper;
use stock_notify::scraping::bestbuy::BestBuyScraper;
use stock_notify::scraping::evga::EvgaScraper;
use stock_notify::scraping::newegg::NeweggScraper;
use stock_notify::scraping::{check_availability, check_status, DetailFetch, PageBody, PageResponse, ScrapingProvider};

const SOLD_OUT: &str = "<div class=\"fulfillment-add-to-cart-button\"><div><button disabled>Sold Out</button></div></div>";
const NVIDIA_BUTTON: &str = "<div class=\"cta-button btn show-out-of-stock stock-grey-out\" data-nvnotify-form-path=\"null\" data-theme-override=\"null\">Out Of Stock</div>";
const AMAZON_ROBOT: &str = "<p class=\"a-last\">Sorry, we just need to make sure you're not a robot. For best results, please make sure your browser is accepting cookies.</p>";
const NEWEGG_ROBOT: &str = "We apologize for the confusion, but we can't quite tell if you're a person or a script.";
const NEWEGG_SCRIPT: &str = "<script type=\"text/javascript\" src=\"https://www.newegg.com/api/ItemInfo4?item=N82E168\"></script>";

fn details(name: &str, page: &str) -> ProductDetails {
    ProductDetails::new_from_product_and_page(name.to_string(), page.to_string())
}

fn page(status: u16, text: &str) -> PageResponse {
    PageResponse {
        status,
        url: "https://shop.example/item".to_string(),
        content_type: Some("text/html".to_string()),
        body: Some(PageBody { bytes: text.as_bytes().to_vec(), text: text.to_string() }),
        detail: DetailFetch::Missing,
    }
}

fn gzipped(text: &str) -> PageResponse {
    let mut encoder = flate2::write::GzEncoder::new(Vec::new(), flate2::Compression::default());
    encoder.write_all(text.as_bytes()).unwrap();
    let bytes = encoder.finish().unwrap();
    PageResponse {
        status: 200,
        url: "https://www.amazon.example/dp/B08".to_string(),
        content_type: Some("text/html".to_string()),
        body: Some(PageBody { bytes, text: String::new() }),
        detail: DetailFetch::Missing,
    }
}

#[test]
fn status_429_is_a_rate_limit() {
    assert_eq!(check_status(429, ProviderKey::Evga, "https://a"), Err(NotifyError::RateLimit));
    let p = Product::BestBuy(details("card", "https://b"));
    assert_eq!(p.is_available(&page(429, "anything")), Err(NotifyError::RateLimit));
}

#[test]
fn bnh_block_page_is_a_rate_limit() {
    let block = "https://site-not-available.bhphotovideo.com/500Error";
    assert_eq!(check_status(200, ProviderKey::BnH, block), Err(NotifyError::RateLimit));
    assert_eq!(check_status(200, ProviderKey::Amazon, block), Ok(()));
    let mut response = page(200, "showNotifyWhenAvailable\": false showNotifyWhenInStock\": false");
    response.url = block.to_string();
    assert_eq!(Product::BnH(details("a", "b")).is_available(&response), Err(NotifyError::RateLimit));
}

#[test]
fn statuses_are_classified() {
    let key = ProviderKey::NewEgg;
    assert_eq!(check_status(500, key, "u"), Err(NotifyError::WebServer(500)));
    assert_eq!(check_status(503, key, "u"), Err(NotifyError::WebServer(503)));
    assert_eq!(check_status(599, key, "u"), Err(NotifyError::WebServer(599)));
    assert_eq!(check_status(400, key, "u"), Err(NotifyError::WebClient(400)));
    assert_eq!(check_status(404, key, "u"), Err(NotifyError::WebClient(404)));
    assert_eq!(check_status(499, key, "u"), Err(NotifyError::WebClient(499)));
    assert_eq!(check_status(301, key, "u"), Err(NotifyError::BadStatus(301)));
    assert_eq!(check_status(100, key, "u"), Err(NotifyError::BadStatus(100)));
    assert_eq!(check_status(600, key, "u"), Err(NotifyError::BadStatus(600)));
    assert_eq!(check_status(200, key, "u"), Ok(()));
    assert_eq!(check_status(204, key, "u"), Ok(()));
    assert_eq!(check_status(299, key, "u"), Ok(()));
}

#[test]
fn products_without_page_are_never_found() {
    assert_eq!(Product::Evga(None).is_available(&page(200, "in stock")), Err(NotifyError::NoProductFound));
    assert_eq!(Product::NewEgg(None).is_available(&page(429, "")), Err(NotifyError::NoProductFound));
}

#[test]
fn unreadable_body_is_a_parse_failure() {
    let mut response = page(200, "");
    response.body = None;
    for p in [
        Product::Evga(Some(details("a", "b"))),
        Product::NewEgg(Some(details("a", "b"))),
        Product::BestBuy(details("a", "b")),
        Product::Nvidia(details("a", "b")),
        Product::BnH(details("a", "b")),
        Product::Amazon(details("a", "b")),
    ] {
        assert_eq!(p.is_available(&response), Err(NotifyError::HTMLParseFailed));
    }
}

#[test]
fn newegg_in_stock() {
    let product = Product::NewEgg(Some(details("RTX 3080", "https://www.newegg.com/p/N82E168")));
    let mut response = page(200, &format!("<html><head>{}</head><body></body></html>", NEWEGG_SCRIPT));
    assert_eq!(
        NeweggScraper::detail_url(&response),
        Some("https://www.newegg.com/api/ItemInfo4?item=N82E168".to_string())
    );
    response.detail = DetailFetch::Text("{\"basic\":{\"instock\":true,\"price\":699}}".to_string());
    assert_eq!(product.is_available(&response), Ok(product.clone()));
}

#[test]
fn newegg_out_of_stock_detail() {
    let product = Product::NewEgg(Some(details("RTX 3080", "https://www.newegg.com/p/N82E168")));
    let mut response = page(200, NEWEGG_SCRIPT);
    response.detail = DetailFetch::Text("{\"basic\":{\"instock\":false}}".to_string());
    assert_eq!(product.is_available(&response), Err(NotifyError::NoProductFound));
}

#[test]
fn newegg_without_script_tag() {
    let product = Product::NewEgg(Some(details("RTX 3080", "p")));
    let mut response = page(200, "<html><body>nothing to see</body></html>");
    assert_eq!(NeweggScraper::detail_url(&response), None);
    response.detail = DetailFetch::Text("\"instock\":true".to_string());
    assert_eq!(product.is_available(&response), Err(NotifyError::NoProductFound));
}

#[test]
fn newegg_robot_question_is_a_rate_limit() {
    let product = Product::NewEgg(Some(details("RTX 3080", "p")));
    let mut response = page(200, &format!("{} {}", NEWEGG_ROBOT, NEWEGG_SCRIPT));
    response.detail = DetailFetch::Text("\"instock\":true".to_string());
    assert_eq!(NeweggScraper::detail_url(&response), None);
    assert_eq!(product.is_available(&response), Err(NotifyError::RateLimit));
}

#[test]
fn newegg_detail_failures() {
    let product = Product::NewEgg(Some(details("RTX 3080", "p")));
    let mut response = page(200, NEWEGG_SCRIPT);
    assert_eq!(product.is_available(&response), Err(NotifyError::NoPage));
    response.detail = DetailFetch::Failed("connection reset".to_string());
    assert_eq!(
        product.is_available(&response),
        Err(NotifyError::WebRequestFailed("connection reset".to_string()))
    );
    response.detail = DetailFetch::Unreadable;
    assert_eq!(product.is_available(&response), Err(NotifyError::HTMLParseFailed));
}

#[test]
fn newegg_judge_goes_by_the_search_result() {
    let product = Product::NewEgg(Some(details("a", "p")));
    let data = DetailFetch::Text("\"instock\":true".to_string());
    assert_eq!(NeweggScraper::judge("page", &None, &data, &product), Err(NotifyError::HTMLParseFailed));
    assert_eq!(NeweggScraper::judge("page", &Some(None), &data, &product), Err(NotifyError::NoProductFound));
    assert_eq!(
        NeweggScraper::judge("page", &Some(Some("u".to_string())), &data, &product),
        Ok(product.clone())
    );
}

#[test]
fn bestbuy_out_of_stock() {
    let product = Product::BestBuy(details("RTX 3080", "https://www.bestbuy.com/site/1"));
    let response = page(200, &format!("<html><body>{}</body></html>", SOLD_OUT));
    assert_eq!(product.is_available(&response), Err(NotifyError::NoProductFound));
}

#[test]
fn bestbuy_sold_out_in_other_case() {
    let product = Product::BestBuy(details("RTX 3080", "p"));
    let response = page(200, &SOLD_OUT.to_uppercase());
    assert_eq!(product.is_available(&response), Err(NotifyError::NoProductFound));
}

#[test]
fn bestbuy_in_stock() {
    let product = Product::BestBuy(details("RTX 3080", "p"));
    let response = page(
        200,
        "<div class=\"fulfillment-add-to-cart-button\"><div><button>Add to Cart</button></div></div>",
    );
    assert_eq!(product.is_available(&response), Ok(product.clone()));
    assert_eq!(BestBuyScraper.handle_response(&response, &product), Ok(product.clone()));
    assert_eq!(check_availability(&BestBuyScraper, &response, &product), Ok(product.clone()));
}

#[test]
fn bestbuy_judge_goes_by_the_search_result() {
    let product = Product::BestBuy(details("a", "p"));
    assert_eq!(BestBuyScraper::judge(None, &product), Err(NotifyError::HTMLParseFailed));
    assert_eq!(BestBuyScraper::judge(Some(true), &product), Err(NotifyError::NoProductFound));
    assert_eq!(BestBuyScraper::judge(Some(false), &product), Ok(product.clone()));
}

#[test]
fn nvidia_goes_by_the_grey_button() {
    let product = Product::Nvidia(details("RTX 3080 FE", "p"));
    assert_eq!(
        product.is_available(&page(200, &format!("<body>{}</body>", NVIDIA_BUTTON))),
        Err(NotifyError::NoProductFound)
    );
    assert_eq!(product.is_available(&page(200, "<body>Add to cart</body>")), Ok(product.clone()));
}

#[test]
fn bnh_needs_both_flags_off() {
    let product = Product::BnH(details("RTX 3080", "p"));
    let both = "{\"showNotifyWhenAvailable\": false, \"showNotifyWhenInStock\": false}";
    let one = "{\"showNotifyWhenAvailable\": false, \"showNotifyWhenInStock\": true}";
    assert_eq!(product.is_available(&page(200, both)), Ok(product.clone()));
    assert_eq!(product.is_available(&page(200, one)), Err(NotifyError::NoProductFound));
    assert_eq!(product.is_available(&page(200, "{}")), Err(NotifyError::NoProductFound));
}

#[test]
fn evga_panel_saying_out_of_stock() {
    let product = Product::Evga(Some(details("RTX 3080", "p")));
    let out = "<html><body><div id=\"LFrame_pnlOutOfStock\"><b>Out of Stock</b></div></body></html>";
    assert_eq!(product.is_available(&page(200, out)), Err(NotifyError::NoProductFound));
}

#[test]
fn evga_without_panel_is_in_stock() {
    let product = Product::Evga(Some(details("RTX 3080", "p")));
    let stocked = "<html><body><div id=\"LFrame_pnlBuy\">Add to cart</div></body></html>";
    assert_eq!(product.is_available(&page(200, stocked)), Ok(product.clone()));
    let other_text = "<html><body><div id=\"LFrame_pnlOutOfStock\">Notify me</div></body></html>";
    assert_eq!(product.is_available(&page(200, other_text)), Ok(product.clone()));
}

#[test]
fn evga_uses_the_configured_selector() {
    let mut d = details("RTX 3080", "p");
    d.css_selector = Some(".stock-state".to_string());
    let product = Product::Evga(Some(d));
    let out = "<html><body><span class=\"stock-state\">OUT OF STOCK</span></body></html>";
    assert_eq!(product.is_available(&page(200, out)), Err(NotifyError::NoProductFound));
    let panel_only = "<html><body><div id=\"LFrame_pnlOutOfStock\">Out of Stock</div></body></html>";
    assert_eq!(product.is_available(&page(200, panel_only)), Ok(product.clone()));
}

#[test]
fn evga_selector_that_does_not_parse() {
    let mut d = details("RTX 3080", "p");
    d.css_selector = Some("div[".to_string());
    let product = Product::Evga(Some(d));
    assert_eq!(product.is_available(&page(200, "<html></html>")), Err(NotifyError::HTMLParseFailed));
}

#[test]
fn evga_error_page_and_empty_page_are_server_errors() {
    let product = Product::Evga(Some(details("RTX 3080", "p")));
    let failing = "<html><title>There has been an error while requesting your page</title></html>";
    assert_eq!(product.is_available(&page(200, failing)), Err(NotifyError::WebServer(200)));
    assert_eq!(product.is_available(&page(200, "")), Err(NotifyError::WebServer(200)));
}

#[test]
fn evga_judge_goes_by_the_marker() {
    let product = Product::Evga(Some(details("a", "p")));
    assert_eq!(EvgaScraper::judge(200, "page", &None, &product), Err(NotifyError::HTMLParseFailed));
    assert_eq!(EvgaScraper::judge(200, "page", &Some(None), &product), Ok(product.clone()));
    assert_eq!(
        EvgaScraper::judge(200, "page", &Some(Some("Out Of STOCK".to_string())), &product),
        Err(NotifyError::NoProductFound)
    );
    assert_eq!(
        EvgaScraper::judge(200, "page", &Some(Some("in stock".to_string())), &product),
        Ok(product.clone())
    );
}

#[test]
fn amazon_in_stock() {
    let product = Product::Amazon(details("RTX 3080", "p"));
    let response = gzipped("<html><body><span>In Stock.</span></body></html>");
    assert_eq!(product.is_available(&response), Ok(product.clone()));
}

#[test]
fn amazon_currently_unavailable() {
    let product = Product::Amazon(details("RTX 3080", "p"));
    let response = gzipped("<html><body><span>Currently unavailable.</span></body></html>");
    assert_eq!(product.is_available(&response), Err(NotifyError::NoProductFound));
}

#[test]
fn amazon_other_sellers() {
    let product = Product::Amazon(details("RTX 3080", "p"));
    let response = gzipped("<html><body><a href=\"/o\">available from one of these sellers</a></body></html>");
    assert_eq!(product.is_available(&response), Err(NotifyError::NoProductFound));
}

#[test]
fn amazon_robot_check_is_a_rate_limit() {
    let product = Product::Amazon(details("RTX 3080", "p"));
    let mut response = page(200, &format!("<html><body>{}</body></html>", AMAZON_ROBOT));
    response.content_type = Some("text/html".to_string());
    assert_eq!(product.is_available(&response), Err(NotifyError::RateLimit));
}

#[test]
fn amazon_undecodable_body_is_a_decompression_error() {
    let product = Product::Amazon(details("RTX 3080", "p"));
    let plain = page(200, "<html><body>not compressed</body></html>");
    assert!(matches!(product.is_available(&plain), Err(NotifyError::PageDecompression(_))));
    let mut other_type = page(200, AMAZON_ROBOT);
    other_type.content_type = Some("text/html; charset=utf-8".to_string());
    assert!(matches!(product.is_available(&other_type), Err(NotifyError::PageDecompression(_))));
    let mut no_type = page(200, AMAZON_ROBOT);
    no_type.content_type = None;
    assert!(matches!(product.is_available(&no_type), Err(NotifyError::PageDecompression(_))));
    let mut not_text = page(200, "");
    let mut bytes = AMAZON_ROBOT.as_bytes().to_vec();
    bytes.push(0xff);
    not_text.body = Some(PageBody { bytes, text: String::new() });
    assert!(matches!(product.is_available(&not_text), Err(NotifyError::PageDecompression(_))));
}

#[test]
fn amazon_judges_go_by_their_arguments() {
    let product = Product::Amazon(details("a", "p"));
    assert_eq!(AmazonScraper::judge("page", Some(false), &product), Ok(product.clone()));
    assert_eq!(AmazonScraper::judge("page", Some(true), &product), Err(NotifyError::NoProductFound));
    assert_eq!(AmazonScraper::judge("page", None, &product), Err(NotifyError::HTMLParseFailed));
    assert_eq!(
        AmazonScraper::judge("Currently unavailable.</span>", Some(false), &product),
        Err(NotifyError::NoProductFound)
    );
    let robot = AMAZON_ROBOT.as_bytes().to_vec();
    assert_eq!(
        AmazonScraper::judge_undecodable("bad".to_string(), &Some("text/html".to_string()), &robot),
        NotifyError::RateLimit
    );
    assert_eq!(
        AmazonScraper::judge_undecodable("bad".to_string(), &None, &robot),
        NotifyError::PageDecompression("bad".to_string())
    );
}
