//! The catalog's earlier form of a product, kept so that catalogs written
//! in it can still be read.

use vstd::prelude::*;
use crate::product::{named_page, product_from, Product, ProductDetails, ProductView, ProviderKey};
use crate::text::same_text;

verus! {

/// A product in the catalog's earlier form, which knew four providers and
/// wrote Nvidia's cards as a name and a page.
#[derive(Debug, PartialEq, Eq, Hash)]
pub enum ProviderType {
    Evga(Option<ProductDetails>),
    NewEgg(Option<ProductDetails>),
    BestBuy(ProductDetails),
    FE(String, String),
}

/// Whether a catalog key is one that the earlier form knew.
pub open spec fn known_before(key: Seq<char>) -> bool {
    ||| key == "evgartx"@
    ||| key == "evga"@
    ||| key == "neweggrtx"@
    ||| key == "newegg"@
    ||| key == "nvidia"@
    ||| key == "bestbuy"@
}

impl ProviderType {
    /// The product that the value stands for.
    pub open spec fn as_product(&self) -> ProductView {
        match self {
            ProviderType::Evga(Some(d)) => ProductView { key: ProviderKey::Evga, details: Some(d@) },
            ProviderType::Evga(None) => ProductView { key: ProviderKey::Evga, details: None },
            ProviderType::NewEgg(Some(d)) => ProductView { key: ProviderKey::NewEgg, details: Some(d@) },
            ProviderType::NewEgg(None) => ProductView { key: ProviderKey::NewEgg, details: None },
            ProviderType::BestBuy(d) => ProductView { key: ProviderKey::BestBuy, details: Some(d@) },
            ProviderType::FE(name, page) => ProductView {
                key: ProviderKey::Nvidia,
                details: Some(named_page(name@, page@)),
            },
        }
    }

    /// The value that a catalog key, a name and a page stand for; `None` for
    /// a key that the earlier form did not know.
    pub fn from_product(key: &str, product: String, page: String) -> (made: Option<Self>)
        ensures
            match made {
                Some(p) => known_before(key@) && product_from(key@, product@, page@) == Some(p.as_product()),
                None => !known_before(key@),
            },
    {
        if same_text(key, "evgartx") {
            Some(ProviderType::Evga(Some(ProductDetails::new_from_product_and_page(product, page))))
        } else if same_text(key, "neweggrtx") {
            Some(ProviderType::NewEgg(Some(ProductDetails::new_from_product_and_page(product, page))))
        } else if same_text(key, "bestbuy") {
            Some(ProviderType::BestBuy(ProductDetails::new_from_product_and_page(product, page)))
        } else if same_text(key, "evga") {
            Some(ProviderType::Evga(None))
        } else if same_text(key, "newegg") {
            Some(ProviderType::NewEgg(None))
        } else if same_text(key, "nvidia") {
            Some(ProviderType::FE(product, page))
        } else {
            None
        }
    }

    /// The same product in the catalog's present form.
    pub fn into_product(self) -> (product: Product)
        ensures
            product@ == self.as_product(),
    {
        match self {
            ProviderType::Evga(details) => Product::Evga(details),
            ProviderType::NewEgg(details) => Product::NewEgg(details),
            ProviderType::BestBuy(details) => Product::BestBuy(details),
            ProviderType::FE(name, page) => Product::Nvidia(
                ProductDetails::new_from_product_and_page(name, page),
            ),
        }
    }
}

/// For a key that the earlier form knew, the product it stands for is the
/// one that the present form reads from the same key, name and page; keys
/// that only the present form knows give nothing in the earlier one.
pub proof fn lemma_forms_agree(key: Seq<char>, product: Seq<char>, page: Seq<char>)
    ensures
        known_before(key) ==> product_from(key, product, page) is Some,
        !known_before(key) && product_from(key, product, page) is Some ==> key == "bnh"@ || key
            == "amazon"@,
{
}

} // verus!
