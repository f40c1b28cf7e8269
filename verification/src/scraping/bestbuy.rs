//! Best Buy's product page.

use vstd::prelude::*;
use crate::error::{plain, ErrorLabel, ErrorView, NotifyError};
use crate::product::{Product, ProductView};
use crate::scraping::pattern::{is_match, regex_matches};
use crate::scraping::{PageResponse, ScrapingProvider};

verus! {

/// The rule for Best Buy: in stock unless the fulfillment block holds a
/// "Sold Out" button.
#[derive(Debug, Clone, Copy)]
pub struct BestBuyScraper;

/// The pattern of the fulfillment block with its "Sold Out" button, read
/// without regard to case.
pub open spec fn sold_out_pattern() -> Seq<char> {
    "<div class=\"fulfillment.+Sold Out</button></div></div>"@
}

/// What the search for the button says against the product: nothing where
/// the button is not there.
pub open spec fn button_objection(button: Option<bool>) -> Option<ErrorView> {
    match button {
        None => Some(plain(ErrorLabel::HTMLParseFailed)),
        Some(true) => Some(plain(ErrorLabel::NoProductFound)),
        Some(false) => None,
    }
}

impl BestBuyScraper {
    /// The verdict, given what the search for the button came to.
    pub fn judge(button: Option<bool>, product: &Product) -> (outcome: Result<Product, NotifyError>)
        ensures
            match outcome {
                Ok(found) => button_objection(button) is None && found@ == product@,
                Err(e) => button_objection(button) == Some(e@),
            },
    {
        match button {
            None => Err(NotifyError::HTMLParseFailed),
            Some(true) => Err(NotifyError::NoProductFound),
            Some(false) => Ok(product.clone()),
        }
    }
}

impl ScrapingProvider for BestBuyScraper {
    open spec fn objection(&self, response: &PageResponse, product: ProductView) -> Option<ErrorView> {
        match response.body {
            None => Some(plain(ErrorLabel::HTMLParseFailed)),
            Some(body) => button_objection(regex_matches(sold_out_pattern(), true, body.text@)),
        }
    }

    fn handle_response(&self, response: &PageResponse, product: &Product) -> (outcome: Result<
        Product,
        NotifyError,
    >) {
        match &response.body {
            None => Err(NotifyError::HTMLParseFailed),
            Some(body) => {
                let button = is_match(
                    "<div class=\"fulfillment.+Sold Out</button></div></div>",
                    true,
                    body.text.as_str(),
                );
                Self::judge(button, product)
            },
        }
    }
}

} // verus!
