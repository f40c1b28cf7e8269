//! Nvidia's store page.

use vstd::prelude::*;
use crate::error::{plain, ErrorLabel, ErrorView, NotifyError};
use crate::product::{Product, ProductView};
use crate::scraping::{PageResponse, ScrapingProvider};
use crate::text::{contains, has_substring};

verus! {

/// The rule for Nvidia: in stock unless the page shows the greyed-out button.
#[derive(Debug, Clone, Copy)]
pub struct NvidiaScraper;

/// The markup of the greyed-out button.
pub open spec fn out_of_stock_button() -> Seq<char> {
    "<div class=\"cta-button btn show-out-of-stock stock-grey-out\" data-nvnotify-form-path=\"null\" data-theme-override=\"null\">Out Of Stock</div>"@
}

impl ScrapingProvider for NvidiaScraper {
    open spec fn objection(&self, response: &PageResponse, product: ProductView) -> Option<ErrorView> {
        match response.body {
            None => Some(plain(ErrorLabel::HTMLParseFailed)),
            Some(body) => if has_substring(body.text@, out_of_stock_button()) {
                Some(plain(ErrorLabel::NoProductFound))
            } else {
                None
            },
        }
    }

    fn handle_response(&self, response: &PageResponse, product: &Product) -> (outcome: Result<
        Product,
        NotifyError,
    >) {
        match &response.body {
            None => Err(NotifyError::HTMLParseFailed),
            Some(body) => {
                if contains(
                    body.text.as_str(),
                    "<div class=\"cta-button btn show-out-of-stock stock-grey-out\" data-nvnotify-form-path=\"null\" data-theme-override=\"null\">Out Of Stock</div>",
                ) {
                    Err(NotifyError::NoProductFound)
                } else {
                    Ok(product.clone())
                }
            },
        }
    }
}

} // verus!
