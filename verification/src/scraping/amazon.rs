//! Amazon's product page, which arrives compressed.

use vstd::prelude::*;
use vstd::utf8::{decode_utf8, valid_utf8};
use std::io::Read;
use crate::error::{plain, worded, ErrorLabel, ErrorView, NotifyError};
use crate::product::{Product, ProductView};
use crate::scraping::pattern::{is_match, regex_matches};
use crate::scraping::{PageResponse, ScrapingProvider};
use crate::text::{contains, has_substring, optional_text, same_text};

verus! {

/// The rule for Amazon: in stock unless the page says "Currently
/// unavailable" or points to other sellers.
#[derive(Debug, Clone, Copy)]
pub struct AmazonScraper;

/// The text that a gzip stream decompresses to, or the decoder's complaint.
pub uninterp spec fn gunzip_text(bytes: Seq<u8>) -> Result<Seq<char>, Seq<char>>;

/// The characters on either side of a decoding outcome.
pub open spec fn outcome_text(outcome: Result<String, String>) -> Result<Seq<char>, Seq<char>> {
    match outcome {
        Ok(text) => Ok(text@),
        Err(complaint) => Err(complaint@),
    }
}

/// Reads the bytes to their end through `flate2::read::GzDecoder` as one
/// string. The answer is the one the crate gives for these bytes; where the
/// stream is not gzip or not text, it is the message of the decoder's error.
#[verifier::external_body]
fn gunzip(bytes: &Vec<u8>) -> (outcome: Result<String, String>)
    ensures
        outcome_text(outcome) == gunzip_text(bytes@),
{
    let mut decoder = flate2::read::GzDecoder::new(bytes.as_slice());
    let mut text = String::new();
    match decoder.read_to_string(&mut text) {
        Ok(_) => Ok(text),
        Err(complaint) => Err(complaint.to_string()),
    }
}

/// `String::from_utf8` on a copy of the bytes: the string they encode where
/// they are valid UTF-8, and `None` where they are not.
#[verifier::external_body]
fn utf8_text(bytes: &Vec<u8>) -> (text: Option<String>)
    ensures
        match text {
            Some(decoded) => valid_utf8(bytes@) && decoded@ == decode_utf8(bytes@),
            None => !valid_utf8(bytes@),
        },
{
    match String::from_utf8(bytes.clone()) {
        Ok(decoded) => Some(decoded),
        Err(_) => None,
    }
}

/// The paragraph with which Amazon asks a visitor to prove it is no robot.
pub open spec fn robot_check() -> Seq<char> {
    "<p class=\"a-last\">Sorry, we just need to make sure you're not a robot. For best results, please make sure your browser is accepting cookies.</p>"@
}

/// The pattern of the link to other sellers, read without regard to case.
pub open spec fn other_sellers_pattern() -> Seq<char> {
    "Available from .+these sellers</a>"@
}

/// What a decompressed page says against the product, given what the search
/// for the link to other sellers came to.
pub open spec fn decoded_objection(page: Seq<char>, other_sellers: Option<bool>) -> Option<ErrorView> {
    if has_substring(page, "Currently unavailable.</span>"@) {
        Some(plain(ErrorLabel::NoProductFound))
    } else {
        match other_sellers {
            None => Some(plain(ErrorLabel::HTMLParseFailed)),
            Some(true) => Some(plain(ErrorLabel::NoProductFound)),
            Some(false) => None,
        }
    }
}

/// Whether a body that would not decompress is Amazon's robot check served
/// as plain HTML.
pub open spec fn is_robot_check(content_type: Option<Seq<char>>, bytes: Seq<u8>) -> bool {
    &&& content_type == Some("text/html"@)
    &&& valid_utf8(bytes)
    &&& has_substring(decode_utf8(bytes), robot_check())
}

/// What a body that would not decompress says against the product: a rate
/// limit where it is the robot check, else the decoder's complaint.
pub open spec fn undecodable_objection(
    complaint: Seq<char>,
    content_type: Option<Seq<char>>,
    bytes: Seq<u8>,
) -> ErrorView {
    if is_robot_check(content_type, bytes) {
        plain(ErrorLabel::RateLimit)
    } else {
        worded(ErrorLabel::PageDecompression, complaint)
    }
}

impl AmazonScraper {
    /// The verdict on a decompressed page, given what the search for the link
    /// to other sellers came to.
    pub fn judge(page: &str, other_sellers: Option<bool>, product: &Product) -> (outcome: Result<
        Product,
        NotifyError,
    >)
        ensures
            match outcome {
                Ok(found) => decoded_objection(page@, other_sellers) is None && found@ == product@,
                Err(e) => decoded_objection(page@, other_sellers) == Some(e@),
            },
    {
        if contains(page, "Currently unavailable.</span>") {
            return Err(NotifyError::NoProductFound);
        }
        match other_sellers {
            None => Err(NotifyError::HTMLParseFailed),
            Some(true) => Err(NotifyError::NoProductFound),
            Some(false) => Ok(product.clone()),
        }
    }

    /// The error for a body that would not decompress.
    pub fn judge_undecodable(complaint: String, content_type: &Option<String>, bytes: &Vec<u8>) -> (error:
        NotifyError)
        ensures
            error@ == undecodable_objection(complaint@, optional_text(*content_type), bytes@),
    {
        let html = match content_type {
            Some(kind) => same_text(kind.as_str(), "text/html"),
            None => false,
        };
        if html {
            match utf8_text(bytes) {
                Some(page) => {
                    if contains(
                        page.as_str(),
                        "<p class=\"a-last\">Sorry, we just need to make sure you're not a robot. For best results, please make sure your browser is accepting cookies.</p>",
                    ) {
                        return NotifyError::RateLimit;
                    }
                },
                None => {},
            }
        }
        NotifyError::PageDecompression(complaint)
    }
}

impl ScrapingProvider for AmazonScraper {
    open spec fn objection(&self, response: &PageResponse, product: ProductView) -> Option<ErrorView> {
        match response.body {
            None => Some(plain(ErrorLabel::HTMLParseFailed)),
            Some(body) => match gunzip_text(body.bytes@) {
                Ok(page) => decoded_objection(page, regex_matches(other_sellers_pattern(), true, page)),
                Err(complaint) => Some(
                    undecodable_objection(complaint, optional_text(response.content_type), body.bytes@),
                ),
            },
        }
    }

    fn handle_response(&self, response: &PageResponse, product: &Product) -> (outcome: Result<
        Product,
        NotifyError,
    >) {
        match &response.body {
            None => Err(NotifyError::HTMLParseFailed),
            Some(body) => match gunzip(&body.bytes) {
                Ok(page) => {
                    let other_sellers = is_match("Available from .+these sellers</a>", true, page.as_str());
                    Self::judge(page.as_str(), other_sellers, product)
                },
                Err(complaint) => Err(
                    Self::judge_undecodable(complaint, &response.content_type, &body.bytes),
                ),
            },
        }
    }
}

} // verus!
