//! EVGA's product page.

use vstd::prelude::*;
use crate::error::{numbered, plain, ErrorLabel, ErrorView, NotifyError};
use crate::product::{Product, ProductView};
use crate::scraping::newegg::group_text;
use crate::scraping::{PageResponse, ScrapingProvider};
use crate::text::{ascii_lowercase, contains, has_substring, to_ascii_lowercase};

verus! {

/// The rule for EVGA: in stock unless the element that the selector picks
/// says "out of stock".
#[derive(Debug, Clone, Copy)]
pub struct EvgaScraper;

/// The inner HTML of the first element of the document that the CSS selector
/// picks: the outer `None` where the selector does not parse, the inner where
/// it picks nothing.
pub uninterp spec fn selected_inner_html(document: Seq<char>, selector: Seq<char>) -> Option<Option<Seq<char>>>;

/// Parses the selector with `scraper::Selector::parse` and the document with
/// `scraper::Html::parse_document`, and takes the inner HTML of the first
/// element that `Html::select` yields. The answer is the one the crate gives
/// for these arguments; a selector it rejects gives the outer `None`.
#[verifier::external_body]
fn first_inner_html(document: &str, selector: &str) -> (marker: Option<Option<String>>)
    ensures
        group_text(marker) == selected_inner_html(document@, selector@),
{
    match scraper::Selector::parse(selector) {
        Ok(parsed) => match scraper::Html::parse_document(document).select(&parsed).next() {
            Some(element) => Some(Some(element.inner_html())),
            None => Some(None),
        },
        Err(_) => None,
    }
}

/// The title of the page that EVGA serves when its shop fails.
pub open spec fn error_title() -> Seq<char> {
    "There has been an error while requesting your page"@
}

/// The selector of EVGA's own out-of-stock panel.
pub open spec fn stock_panel() -> Seq<char> {
    "#LFrame_pnlOutOfStock"@
}

/// The selector that picks a product's out-of-stock marker: the one
/// configured for the product, or else EVGA's own panel.
pub open spec fn marker_selector(product: ProductView) -> Seq<char> {
    match product.details {
        Some(d) => match d.css_selector {
            Some(selector) => selector,
            None => stock_panel(),
        },
        None => stock_panel(),
    }
}

/// What a page says against the product, given the marker that the selector
/// picked. An empty page and the shop's error page count as a failure of the
/// server, so that they are not taken for stock.
pub open spec fn marker_objection(
    status: u16,
    text: Seq<char>,
    marker: Option<Option<Seq<char>>>,
) -> Option<ErrorView> {
    if text.len() == 0 || has_substring(text, error_title()) {
        Some(numbered(ErrorLabel::WebServer, status as int))
    } else {
        match marker {
            None => Some(plain(ErrorLabel::HTMLParseFailed)),
            Some(None) => None,
            Some(Some(html)) => if has_substring(ascii_lowercase(html), "out of stock"@) {
                Some(plain(ErrorLabel::NoProductFound))
            } else {
                None
            },
        }
    }
}

impl EvgaScraper {
    /// The verdict on a page's text, given the marker that the selector picked.
    pub fn judge(status: u16, text: &str, marker: &Option<Option<String>>, product: &Product) -> (outcome:
        Result<Product, NotifyError>)
        ensures
            match outcome {
                Ok(found) => marker_objection(status, text@, group_text(*marker)) is None && found@
                    == product@,
                Err(e) => marker_objection(status, text@, group_text(*marker)) == Some(e@),
            },
    {
        if text.is_empty() || contains(text, "There has been an error while requesting your page") {
            return Err(NotifyError::WebServer(status));
        }
        match marker {
            None => Err(NotifyError::HTMLParseFailed),
            Some(None) => Ok(product.clone()),
            Some(Some(html)) => {
                let lowered = to_ascii_lowercase(html.as_str());
                if contains(lowered.as_str(), "out of stock") {
                    Err(NotifyError::NoProductFound)
                } else {
                    Ok(product.clone())
                }
            },
        }
    }
}

impl ScrapingProvider for EvgaScraper {
    open spec fn objection(&self, response: &PageResponse, product: ProductView) -> Option<ErrorView> {
        match response.body {
            None => Some(plain(ErrorLabel::HTMLParseFailed)),
            Some(body) => marker_objection(
                response.status,
                body.text@,
                selected_inner_html(body.text@, marker_selector(product)),
            ),
        }
    }

    fn handle_response(&self, response: &PageResponse, product: &Product) -> (outcome: Result<
        Product,
        NotifyError,
    >) {
        match &response.body {
            None => Err(NotifyError::HTMLParseFailed),
            Some(body) => {
                let selector = match product.get_css_selector() {
                    Ok(configured) => configured,
                    Err(_) => "#LFrame_pnlOutOfStock",
                };
                let marker = first_inner_html(body.text.as_str(), selector);
                Self::judge(response.status, body.text.as_str(), &marker, product)
            },
        }
    }
}

} // verus!
