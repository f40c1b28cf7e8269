//! The availability protocol: from a page that was fetched to a verdict.

use vstd::prelude::*;
use crate::error::{numbered, plain, ErrorLabel, ErrorView, NotifyError};
use crate::product::{Product, ProductView, ProviderKey};
use crate::scraping::amazon::AmazonScraper;
use crate::scraping::bestbuy::BestBuyScraper;
use crate::scraping::bnh::BnHScraper;
use crate::scraping::evga::EvgaScraper;
use crate::scraping::newegg::NeweggScraper;
use crate::scraping::nvidia::NvidiaScraper;
use crate::text::same_text;

pub mod amazon;
pub mod bestbuy;
pub mod bnh;
pub mod dispatch;
pub mod evga;
pub mod newegg;
pub mod nvidia;
pub mod pattern;

verus! {

/// The body of a response: the bytes as they came, and the text they decode to.
#[derive(Debug, Clone, PartialEq, Eq)]
pub struct PageBody {
    pub bytes: Vec<u8>,
    pub text: String,
}

/// What became of the second request that a provider's rule asked for.
#[derive(Debug, Clone, PartialEq, Eq)]
pub enum DetailFetch {
    /// No second request was made.
    Missing,
    /// The request failed in transport, with this message.
    Failed(String),
    /// The answer came but its body could not be read.
    Unreadable,
    /// The text of the answer.
    Text(String),
}

/// What the program read off one HTTP exchange.
#[derive(Debug, Clone, PartialEq, Eq)]
pub struct PageResponse {
    /// The status code.
    pub status: u16,
    /// The address the response came from, after redirects.
    pub url: String,
    /// The `Content-Type` header, where it is there and readable.
    pub content_type: Option<String>,
    /// The body, unless reading it failed.
    pub body: Option<PageBody>,
    /// The outcome of the follow-up request, for providers that need one.
    pub detail: DetailFetch,
}

/// What a status line alone says against a product: a rate limit for 429 and
/// for the address to which B&H sends blocked visitors, then server errors,
/// client errors, and every other status outside 200 to 299.
pub open spec fn status_objection(status: u16, key: ProviderKey, url: Seq<char>) -> Option<ErrorView> {
    if status == 429 || (key == ProviderKey::BnH
        && url == "https://site-not-available.bhphotovideo.com/500Error"@) {
        Some(plain(ErrorLabel::RateLimit))
    } else if 500 <= status <= 599 {
        Some(numbered(ErrorLabel::WebServer, status as int))
    } else if 400 <= status <= 499 {
        Some(numbered(ErrorLabel::WebClient, status as int))
    } else if !(200 <= status <= 299) {
        Some(numbered(ErrorLabel::BadStatus, status as int))
    } else {
        None
    }
}

/// Classifies the status of a response to a request for a provider's page.
pub fn check_status(status: u16, key: ProviderKey, url: &str) -> (checked: Result<(), NotifyError>)
    ensures
        match checked {
            Ok(_) => status_objection(status, key, url@) is None,
            Err(e) => status_objection(status, key, url@) == Some(e@),
        },
{
    let blocked = match key {
        ProviderKey::BnH => same_text(url, "https://site-not-available.bhphotovideo.com/500Error"),
        _ => false,
    };
    if status == 429 || blocked {
        Err(NotifyError::RateLimit)
    } else if 500 <= status && status <= 599 {
        Err(NotifyError::WebServer(status))
    } else if 400 <= status && status <= 499 {
        Err(NotifyError::WebClient(status))
    } else if !(200 <= status && status <= 299) {
        Err(NotifyError::BadStatus(status))
    } else {
        Ok(())
    }
}

/// A provider's rule for reading availability off a page.
pub trait ScrapingProvider {
    /// What the page says against the product being available; `None` where
    /// the rule finds it in stock.
    spec fn objection(&self, response: &PageResponse, product: ProductView) -> Option<ErrorView>;

    /// Applies the rule to a response whose status was in order.
    fn handle_response(&self, response: &PageResponse, product: &Product) -> (outcome: Result<
        Product,
        NotifyError,
    >)
        ensures
            match outcome {
                Ok(found) => self.objection(response, product@) is None && found@ == product@,
                Err(e) => self.objection(response, product@) == Some(e@),
            },
    ;
}

/// What a response says against a product under a rule: the status first,
/// then the page.
pub open spec fn refusal<S: ScrapingProvider>(
    scraper: &S,
    response: &PageResponse,
    product: ProductView,
) -> Option<ErrorView> {
    let status = status_objection(response.status, product.key, response.url@);
    if status is Some {
        status
    } else {
        scraper.objection(response, product)
    }
}

/// Runs the shared protocol on a response: the status is classified, and a
/// response in good standing is handed to the provider's rule.
pub fn check_availability<S: ScrapingProvider>(
    scraper: &S,
    response: &PageResponse,
    product: &Product,
) -> (outcome: Result<Product, NotifyError>)
    ensures
        match outcome {
            Ok(found) => refusal(scraper, response, product@) is None && found@ == product@,
            Err(e) => refusal(scraper, response, product@) == Some(e@),
        },
{
    match check_status(response.status, product.provider(), response.url.as_str()) {
        Err(e) => Err(e),
        Ok(_) => scraper.handle_response(response, product),
    }
}

/// What a response says against a product: a product without a page is never
/// found; every other product goes by its provider's rule.
pub open spec fn unavailability(product: ProductView, response: &PageResponse) -> Option<ErrorView> {
    if product.details is None {
        Some(plain(ErrorLabel::NoProductFound))
    } else {
        match product.key {
            ProviderKey::Evga => refusal(&EvgaScraper, response, product),
            ProviderKey::NewEgg => refusal(&NeweggScraper, response, product),
            ProviderKey::BestBuy => refusal(&BestBuyScraper, response, product),
            ProviderKey::Nvidia => refusal(&NvidiaScraper, response, product),
            ProviderKey::BnH => refusal(&BnHScraper, response, product),
            ProviderKey::Amazon => refusal(&AmazonScraper, response, product),
        }
    }
}

/// The address that must be fetched before a response can be judged: the
/// item data of a Newegg page whose status is in order.
pub open spec fn follow_up(product: ProductView, response: &PageResponse) -> Option<Seq<char>> {
    if product.key == ProviderKey::NewEgg && product.details is Some && status_objection(
        response.status,
        product.key,
        response.url@,
    ) is None {
        crate::scraping::newegg::detail_address(response)
    } else {
        None
    }
}

impl Product {
    /// The address to fetch, and to hand in as the response's detail, before
    /// `is_available` is asked; `None` where the response is enough.
    pub fn detail_request(&self, response: &PageResponse) -> (address: Option<String>)
        ensures
            match address {
                Some(found) => follow_up(self@, response) == Some(found@),
                None => follow_up(self@, response) is None,
            },
    {
        match self {
            Product::NewEgg(Some(_)) => {
                match check_status(response.status, ProviderKey::NewEgg, response.url.as_str()) {
                    Ok(_) => NeweggScraper::detail_url(response),
                    Err(_) => None,
                }
            },
            _ => None,
        }
    }

    /// Whether the response to a request for the product's page shows it in
    /// stock: the product itself where it does, and the reason where not.
    pub fn is_available(&self, response: &PageResponse) -> (outcome: Result<Product, NotifyError>)
        ensures
            match outcome {
                Ok(found) => unavailability(self@, response) is None && found@ == self@,
                Err(e) => unavailability(self@, response) == Some(e@),
            },
    {
        match self {
            Product::Evga(Some(_)) => check_availability(&EvgaScraper, response, self),
            Product::NewEgg(Some(_)) => check_availability(&NeweggScraper, response, self),
            Product::BestBuy(_) => check_availability(&BestBuyScraper, response, self),
            Product::Nvidia(_) => check_availability(&NvidiaScraper, response, self),
            Product::BnH(_) => check_availability(&BnHScraper, response, self),
            Product::Amazon(_) => check_availability(&AmazonScraper, response, self),
            _ => Err(NotifyError::NoProductFound),
        }
    }
}

} // verus!
