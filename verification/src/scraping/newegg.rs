//! Newegg's product page and the item data it loads.

use vstd::prelude::*;
use crate::error::{plain, worded, ErrorLabel, ErrorView, NotifyError};
use crate::product::{Product, ProductView};
use crate::scraping::pattern::{first_group, regex_first_group};
use crate::scraping::{DetailFetch, PageResponse, ScrapingProvider};
use crate::text::{contains, has_substring};

verus! {

/// The rule for Newegg: the page names a script that loads the item's data,
/// and the item is in stock when that data says so.
#[derive(Debug, Clone, Copy)]
pub struct NeweggScraper;

/// The sentence with which Newegg turns away a visitor it takes for a script.
pub open spec fn robot_question() -> Seq<char> {
    "We apologize for the confusion, but we can't quite tell if you're a person or a script."@
}

/// The pattern of the script tag; its group is the address of the item data.
pub open spec fn detail_pattern() -> Seq<char> {
    "<script type=\"text/javascript\" src=\"(.+ItemInfo4.+)\">"@
}

/// The characters of a search result.
pub open spec fn group_text(group: Option<Option<String>>) -> Option<Option<Seq<char>>> {
    match group {
        Some(Some(found)) => Some(Some(found@)),
        Some(None) => Some(None),
        None => None,
    }
}

/// What the item data says against the product.
pub open spec fn detail_objection(detail: &DetailFetch) -> Option<ErrorView> {
    match detail {
        DetailFetch::Missing => Some(plain(ErrorLabel::NoPage)),
        DetailFetch::Failed(message) => Some(worded(ErrorLabel::WebRequestFailed, message@)),
        DetailFetch::Unreadable => Some(plain(ErrorLabel::HTMLParseFailed)),
        DetailFetch::Text(data) => if has_substring(data@, "\"instock\":true"@) {
            None
        } else {
            Some(plain(ErrorLabel::NoProductFound))
        },
    }
}

/// What a page says against the product, given what the search for the
/// script tag came to and what the item data held.
pub open spec fn page_objection(
    text: Seq<char>,
    script: Option<Option<Seq<char>>>,
    detail: &DetailFetch,
) -> Option<ErrorView> {
    if has_substring(text, robot_question()) {
        Some(plain(ErrorLabel::RateLimit))
    } else {
        match script {
            None => Some(plain(ErrorLabel::HTMLParseFailed)),
            Some(None) => Some(plain(ErrorLabel::NoProductFound)),
            Some(Some(_)) => detail_objection(detail),
        }
    }
}

/// The address of the item data that a response asks to be fetched.
pub open spec fn detail_address(response: &PageResponse) -> Option<Seq<char>> {
    match response.body {
        None => None,
        Some(body) => if has_substring(body.text@, robot_question()) {
            None
        } else {
            match regex_first_group(detail_pattern(), body.text@) {
                Some(Some(address)) => Some(address),
                _ => None,
            }
        },
    }
}

impl NeweggScraper {
    /// The verdict on a page's text, given what the search for the script tag
    /// came to and what the item data held.
    pub fn judge(
        text: &str,
        script: &Option<Option<String>>,
        detail: &DetailFetch,
        product: &Product,
    ) -> (outcome: Result<Product, NotifyError>)
        ensures
            match outcome {
                Ok(found) => page_objection(text@, group_text(*script), detail) is None && found@
                    == product@,
                Err(e) => page_objection(text@, group_text(*script), detail) == Some(e@),
            },
    {
        if contains(
            text,
            "We apologize for the confusion, but we can't quite tell if you're a person or a script.",
        ) {
            return Err(NotifyError::RateLimit);
        }
        match script {
            None => Err(NotifyError::HTMLParseFailed),
            Some(None) => Err(NotifyError::NoProductFound),
            Some(Some(_)) => match detail {
                DetailFetch::Missing => Err(NotifyError::NoPage),
                DetailFetch::Failed(message) => Err(NotifyError::WebRequestFailed(message.clone())),
                DetailFetch::Unreadable => Err(NotifyError::HTMLParseFailed),
                DetailFetch::Text(data) => {
                    if contains(data.as_str(), "\"instock\":true") {
                        Ok(product.clone())
                    } else {
                        Err(NotifyError::NoProductFound)
                    }
                },
            },
        }
    }

    /// The address of the item data to fetch before the page can be judged;
    /// `None` where the page settles the matter by itself.
    pub fn detail_url(response: &PageResponse) -> (address: Option<String>)
        ensures
            match address {
                Some(found) => detail_address(response) == Some(found@),
                None => detail_address(response) is None,
            },
    {
        match &response.body {
            None => None,
            Some(body) => {
                if contains(
                    body.text.as_str(),
                    "We apologize for the confusion, but we can't quite tell if you're a person or a script.",
                ) {
                    None
                } else {
                    match first_group(
                        "<script type=\"text/javascript\" src=\"(.+ItemInfo4.+)\">",
                        body.text.as_str(),
                    ) {
                        Some(Some(address)) => Some(address),
                        _ => None,
                    }
                }
            },
        }
    }
}

impl ScrapingProvider for NeweggScraper {
    open spec fn objection(&self, response: &PageResponse, product: ProductView) -> Option<ErrorView> {
        match response.body {
            None => Some(plain(ErrorLabel::HTMLParseFailed)),
            Some(body) => page_objection(
                body.text@,
                regex_first_group(detail_pattern(), body.text@),
                &response.detail,
            ),
        }
    }

    fn handle_response(&self, response: &PageResponse, product: &Product) -> (outcome: Result<
        Product,
        NotifyError,
    >) {
        match &response.body {
            None => Err(NotifyError::HTMLParseFailed),
            Some(body) => {
                let script = first_group(
                    "<script type=\"text/javascript\" src=\"(.+ItemInfo4.+)\">",
                    body.text.as_str(),
                );
                Self::judge(body.text.as_str(), &script, &response.detail, product)
            },
        }
    }
}

} // verus!
