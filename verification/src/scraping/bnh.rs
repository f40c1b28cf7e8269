//! B&H's product page.

use vstd::prelude::*;
use crate::error::{plain, ErrorLabel, ErrorView, NotifyError};
use crate::product::{Product, ProductView};
use crate::scraping::{PageResponse, ScrapingProvider};
use crate::text::{contains, has_substring};

verus! {

/// The rule for B&H: in stock when the page data switches off both of its
/// "notify me" offers. The rule has not been held against B&H's live pages.
#[derive(Debug, Clone, Copy)]
pub struct BnHScraper;

/// Whether a page's data switches off both "notify me" offers.
pub open spec fn notify_offers_off(text: Seq<char>) -> bool {
    has_substring(text, "showNotifyWhenAvailable\": false"@) && has_substring(
        text,
        "showNotifyWhenInStock\": false"@,
    )
}

impl ScrapingProvider for BnHScraper {
    open spec fn objection(&self, response: &PageResponse, product: ProductView) -> Option<ErrorView> {
        match response.body {
            None => Some(plain(ErrorLabel::HTMLParseFailed)),
            Some(body) => if notify_offers_off(body.text@) {
                None
            } else {
                Some(plain(ErrorLabel::NoProductFound))
            },
        }
    }

    fn handle_response(&self, response: &PageResponse, product: &Product) -> (outcome: Result<
        Product,
        NotifyError,
    >) {
        match &response.body {
            None => Err(NotifyError::HTMLParseFailed),
            Some(body) => {
                if contains(body.text.as_str(), "showNotifyWhenAvailable\": false") && contains(
                    body.text.as_str(),
                    "showNotifyWhenInStock\": false",
                ) {
                    Ok(product.clone())
                } else {
                    Err(NotifyError::NoProductFound)
                }
            },
        }
    }
}

} // verus!
