//! The catalog's products and what can be read off them.

use vstd::prelude::*;
use vstd::string::StringExecFns;
use rand::Rng;
use crate::error::NotifyError;
use crate::text::{clone_optional, optional_text, same_text};

verus! {

/// The retailer a product is sold by.
#[derive(Debug, Clone, Copy, PartialEq, Eq, Hash, Structural)]
pub enum ProviderKey {
    Evga,
    NewEgg,
    BestBuy,
    Nvidia,
    BnH,
    Amazon,
}

/// The identifier under which a provider appears in subscriptions, in the
/// rate-limit table and in the watermarks.
pub open spec fn key_name(key: ProviderKey) -> Seq<char> {
    match key {
        ProviderKey::Evga => "evga"@,
        ProviderKey::NewEgg => "newegg"@,
        ProviderKey::BestBuy => "bestbuy"@,
        ProviderKey::Nvidia => "nvidia"@,
        ProviderKey::BnH => "bnh"@,
        ProviderKey::Amazon => "amazon"@,
    }
}

impl ProviderKey {
    /// The provider's identifier.
    pub fn name(self) -> (name: &'static str)
        ensures
            name@ == key_name(self),
    {
        match self {
            ProviderKey::Evga => "evga",
            ProviderKey::NewEgg => "newegg",
            ProviderKey::BestBuy => "bestbuy",
            ProviderKey::Nvidia => "nvidia",
            ProviderKey::BnH => "bnh",
            ProviderKey::Amazon => "amazon",
        }
    }

    /// The provider's position among the providers, from 0.
    pub open spec fn index(self) -> int {
        match self {
            ProviderKey::Evga => 0,
            ProviderKey::NewEgg => 1,
            ProviderKey::BestBuy => 2,
            ProviderKey::Nvidia => 3,
            ProviderKey::BnH => 4,
            ProviderKey::Amazon => 5,
        }
    }

    /// The position of `self` among the providers.
    pub fn position(self) -> (at: usize)
        ensures
            at == self.index(),
    {
        match self {
            ProviderKey::Evga => 0,
            ProviderKey::NewEgg => 1,
            ProviderKey::BestBuy => 2,
            ProviderKey::Nvidia => 3,
            ProviderKey::BnH => 4,
            ProviderKey::Amazon => 5,
        }
    }
}

/// What the catalog records of one product page.
#[derive(Debug, PartialEq, Eq, Hash)]
pub struct ProductDetails {
    pub product: String,
    pub page: String,
    pub css_selector: Option<String>,
    pub active: Option<bool>,
    pub active_chance: Option<u8>,
}

/// The mathematical value of a `ProductDetails`.
pub struct DetailsView {
    pub product: Seq<char>,
    pub page: Seq<char>,
    pub css_selector: Option<Seq<char>>,
    pub active: Option<bool>,
    pub active_chance: Option<u8>,
}

impl View for ProductDetails {
    type V = DetailsView;

    open spec fn view(&self) -> DetailsView {
        DetailsView {
            product: self.product@,
            page: self.page@,
            css_selector: optional_text(self.css_selector),
            active: self.active,
            active_chance: self.active_chance,
        }
    }
}

impl Clone for ProductDetails {
    fn clone(&self) -> (copy: Self)
        ensures
            copy@ == self@,
    {
        ProductDetails {
            product: self.product.clone(),
            page: self.page.clone(),
            css_selector: clone_optional(&self.css_selector),
            active: self.active,
            active_chance: self.active_chance,
        }
    }
}

impl ProductDetails {
    /// Details with a name and a page and nothing else set.
    pub fn new_from_product_and_page(product: String, page: String) -> (details: Self)
        ensures
            details@ == named_page(product@, page@),
    {
        ProductDetails { product, page, css_selector: None, active: None, active_chance: None }
    }

    /// The record with its selector, flag and sampling weight replaced.
    pub fn with_settings(
        self,
        css_selector: Option<String>,
        active: Option<bool>,
        active_chance: Option<u8>,
    ) -> (changed: Self)
        ensures
            changed@ == (DetailsView {
                product: self@.product,
                page: self@.page,
                css_selector: optional_text(css_selector),
                active,
                active_chance,
            }),
    {
        ProductDetails { product: self.product, page: self.page, css_selector, active, active_chance }
    }

    /// Whether two records agree in every field.
    pub fn same_as(&self, other: &ProductDetails) -> (same: bool)
        ensures
            same == (self@ == other@),
    {
        let selectors = match (&self.css_selector, &other.css_selector) {
            (Some(a), Some(b)) => *a == *b,
            (None, None) => true,
            _ => false,
        };
        let flags = match (self.active, other.active) {
            (Some(a), Some(b)) => a == b,
            (None, None) => true,
            _ => false,
        };
        let chances = match (self.active_chance, other.active_chance) {
            (Some(a), Some(b)) => a == b,
            (None, None) => true,
            _ => false,
        };
        self.product == other.product && self.page == other.page && selectors && flags && chances
    }
}

/// The details that `new_from_product_and_page` builds.
pub open spec fn named_page(product: Seq<char>, page: Seq<char>) -> DetailsView {
    DetailsView { product, page, css_selector: None, active: None, active_chance: None }
}

/// A trackable product. The two mail-sourced providers may stand without
/// details: such a value says only that the provider announced something.
#[derive(Debug, PartialEq, Eq, Hash)]
pub enum Product {
    Evga(Option<ProductDetails>),
    NewEgg(Option<ProductDetails>),
    BestBuy(ProductDetails),
    Nvidia(ProductDetails),
    BnH(ProductDetails),
    Amazon(ProductDetails),
}

/// The identity of a product: its provider and its details, if it has any.
pub struct ProductView {
    pub key: ProviderKey,
    pub details: Option<DetailsView>,
}

impl View for Product {
    type V = ProductView;

    open spec fn view(&self) -> ProductView {
        match self {
            Product::Evga(Some(d)) => ProductView { key: ProviderKey::Evga, details: Some(d@) },
            Product::Evga(None) => ProductView { key: ProviderKey::Evga, details: None },
            Product::NewEgg(Some(d)) => ProductView { key: ProviderKey::NewEgg, details: Some(d@) },
            Product::NewEgg(None) => ProductView { key: ProviderKey::NewEgg, details: None },
            Product::BestBuy(d) => ProductView { key: ProviderKey::BestBuy, details: Some(d@) },
            Product::Nvidia(d) => ProductView { key: ProviderKey::Nvidia, details: Some(d@) },
            Product::BnH(d) => ProductView { key: ProviderKey::BnH, details: Some(d@) },
            Product::Amazon(d) => ProductView { key: ProviderKey::Amazon, details: Some(d@) },
        }
    }
}

impl Clone for Product {
    fn clone(&self) -> (copy: Self)
        ensures
            copy@ == self@,
    {
        match self {
            Product::Evga(Some(d)) => Product::Evga(Some(d.clone())),
            Product::Evga(None) => Product::Evga(None),
            Product::NewEgg(Some(d)) => Product::NewEgg(Some(d.clone())),
            Product::NewEgg(None) => Product::NewEgg(None),
            Product::BestBuy(d) => Product::BestBuy(d.clone()),
            Product::Nvidia(d) => Product::Nvidia(d.clone()),
            Product::BnH(d) => Product::BnH(d.clone()),
            Product::Amazon(d) => Product::Amazon(d.clone()),
        }
    }
}

/// The `active` flag of a product: set unless the details clear it.
pub open spec fn active_flag(product: ProductView) -> bool {
    match product.details {
        Some(d) => match d.active {
            Some(flag) => flag,
            None => true,
        },
        None => true,
    }
}

/// How many polling cycles in ten a product takes part in: its sampling
/// weight, at most ten; ten where no weight is set.
pub open spec fn chance_in_ten(product: ProductView) -> int {
    match product.details {
        Some(d) => match d.active_chance {
            Some(chance) => if chance >= 10 { 10 } else { chance as int },
            None => 10,
        },
        None => 10,
    }
}

/// The product that a catalog key, a name and a page stand for.
pub open spec fn product_from(key: Seq<char>, product: Seq<char>, page: Seq<char>) -> Option<ProductView> {
    let details = Some(named_page(product, page));
    if key == "evgartx"@ {
        Some(ProductView { key: ProviderKey::Evga, details })
    } else if key == "neweggrtx"@ {
        Some(ProductView { key: ProviderKey::NewEgg, details })
    } else if key == "bestbuy"@ {
        Some(ProductView { key: ProviderKey::BestBuy, details })
    } else if key == "evga"@ {
        Some(ProductView { key: ProviderKey::Evga, details: None })
    } else if key == "newegg"@ {
        Some(ProductView { key: ProviderKey::NewEgg, details: None })
    } else if key == "nvidia"@ {
        Some(ProductView { key: ProviderKey::Nvidia, details })
    } else if key == "bnh"@ {
        Some(ProductView { key: ProviderKey::BnH, details })
    } else if key == "amazon"@ {
        Some(ProductView { key: ProviderKey::Amazon, details })
    } else {
        None
    }
}

/// The catalog key under which a product is written down: the one that
/// `product_from` reads back as this provider, with or without details.
pub open spec fn catalog_key(product: ProductView) -> Seq<char> {
    match product.key {
        ProviderKey::Evga => if product.details is Some {
            "evgartx"@
        } else {
            "evga"@
        },
        ProviderKey::NewEgg => if product.details is Some {
            "neweggrtx"@
        } else {
            "newegg"@
        },
        ProviderKey::BestBuy => "bestbuy"@,
        ProviderKey::Nvidia => "nvidia"@,
        ProviderKey::BnH => "bnh"@,
        ProviderKey::Amazon => "amazon"@,
    }
}

/// A product with the selector, the flag and the sampling weight of its
/// details replaced; a product without details is left as it is.
pub open spec fn with_settings(
    product: ProductView,
    css_selector: Option<Seq<char>>,
    active: Option<bool>,
    active_chance: Option<u8>,
) -> ProductView {
    match product.details {
        Some(d) => ProductView {
            key: product.key,
            details: Some(
                DetailsView { product: d.product, page: d.page, css_selector, active, active_chance },
            ),
        },
        None => product,
    }
}

/// The words with which a provider's offer begins.
pub open spec fn offer_opening(key: ProviderKey) -> Seq<char> {
    match key {
        ProviderKey::Evga => "EVGA has new "@,
        ProviderKey::NewEgg => "NewEgg has new "@,
        ProviderKey::BestBuy => "Bestbuy has "@,
        ProviderKey::Nvidia => "Nvidia has "@,
        ProviderKey::BnH => "BnH has "@,
        ProviderKey::Amazon => "Amazon has "@,
    }
}

/// The announcement of a provider whose product is not known.
pub open spec fn bare_announcement(key: ProviderKey) -> Seq<char> {
    if key == ProviderKey::Evga {
        "EVGA has new products!"@
    } else {
        "NewEgg has new products!"@
    }
}

/// The notification text for a product.
pub open spec fn stock_message(product: ProductView) -> Seq<char> {
    match product.details {
        Some(d) => offer_opening(product.key) + d.product + " for sale at "@ + d.page,
        None => bare_announcement(product.key),
    }
}

/// A product's catalog key, with its name and page, reads back as the
/// product with no settings made.
pub proof fn lemma_catalog_key_reads_back(product: ProductView)
    requires
        product.details is None ==> product.key == ProviderKey::Evga || product.key == ProviderKey::NewEgg,
    ensures
        match product.details {
            Some(d) => product_from(catalog_key(product), d.product, d.page) == Some(
                with_settings(product, None, None, None),
            ),
            None => forall|name: Seq<char>, page: Seq<char>|
                product_from(catalog_key(product), name, page) == Some(product),
        },
{
    reveal_strlit("evgartx");
    reveal_strlit("neweggrtx");
    reveal_strlit("bestbuy");
    reveal_strlit("evga");
    reveal_strlit("newegg");
    reveal_strlit("nvidia");
    reveal_strlit("bnh");
    reveal_strlit("amazon");
    assert("evgartx"@.len() == 7 && "neweggrtx"@.len() == 9 && "bestbuy"@.len() == 7);
    assert("evga"@.len() == 4 && "newegg"@.len() == 6 && "nvidia"@.len() == 6);
    assert("bnh"@.len() == 3 && "amazon"@.len() == 6);
    assert("evgartx"@[0] == 'e' && "bestbuy"@[0] == 'b');
    assert("newegg"@[1] == 'e' && "nvidia"@[1] == 'v' && "amazon"@[0] == 'a' && "newegg"@[0] == 'n');
}

/// One Bernoulli draw of `rand::Rng::gen_ratio` on the thread's generator:
/// certain to hit when the ratio is one, certain to miss when it is zero,
/// and open in between.
#[verifier::external_body]
fn draw(numerator: u32, denominator: u32) -> (hit: bool)
    requires
        denominator > 0,
        numerator <= denominator,
    ensures
        numerator == denominator ==> hit,
        numerator == 0 ==> !hit,
{
    rand::thread_rng().gen_ratio(numerator, denominator)
}

impl Product {
    /// The provider of the product.
    pub fn provider(&self) -> (key: ProviderKey)
        ensures
            key == self@.key,
    {
        match self {
            Product::Evga(_) => ProviderKey::Evga,
            Product::NewEgg(_) => ProviderKey::NewEgg,
            Product::BestBuy(_) => ProviderKey::BestBuy,
            Product::Nvidia(_) => ProviderKey::Nvidia,
            Product::BnH(_) => ProviderKey::BnH,
            Product::Amazon(_) => ProviderKey::Amazon,
        }
    }

    /// The details of the product, where it has any.
    pub fn details(&self) -> (details: Option<&ProductDetails>)
        ensures
            match details {
                Some(d) => self@.details == Some(d@),
                None => self@.details is None,
            },
    {
        match self {
            Product::Evga(Some(d)) | Product::NewEgg(Some(d)) => Some(d),
            Product::Evga(None) | Product::NewEgg(None) => None,
            Product::BestBuy(d) | Product::Nvidia(d) | Product::BnH(d) | Product::Amazon(d) => Some(d),
        }
    }

    /// Only the two mail-sourced providers can stand without details.
    pub proof fn lemma_bare_is_mail_sourced(&self)
        ensures
            self@.details is None ==> self@.key == ProviderKey::Evga || self@.key == ProviderKey::NewEgg,
    {
    }

    /// Whether two products are the same product: same provider, same details.
    pub fn same_as(&self, other: &Product) -> (same: bool)
        ensures
            same == (self@ == other@),
    {
        if self.provider() != other.provider() {
            return false;
        }
        match (self.details(), other.details()) {
            (Some(a), Some(b)) => a.same_as(b),
            (None, None) => true,
            _ => false,
        }
    }

    /// The page of the product; `NoPage` exactly when it has no details.
    pub fn get_url(&self) -> (url: Result<&str, NotifyError>)
        ensures
            match self@.details {
                Some(d) => url is Ok && url->Ok_0@ == d.page,
                None => url == Err::<&str, NotifyError>(NotifyError::NoPage),
            },
    {
        match self.details() {
            Some(d) => Ok(d.page.as_str()),
            None => Err(NotifyError::NoPage),
        }
    }

    /// The display name of the product, where it has details.
    pub fn get_name(&self) -> (name: Option<&str>)
        ensures
            match self@.details {
                Some(d) => name is Some && name->Some_0@ == d.product,
                None => name is None,
            },
    {
        match self.details() {
            Some(d) => Some(d.product.as_str()),
            None => None,
        }
    }

    /// The CSS selector configured for the product; `NoneCSSSelector` exactly
    /// when the product has no details or the details name no selector.
    pub fn get_css_selector(&self) -> (selector: Result<&str, NotifyError>)
        ensures
            match self@.details {
                Some(d) => match d.css_selector {
                    Some(s) => selector is Ok && selector->Ok_0@ == s,
                    None => selector == Err::<&str, NotifyError>(NotifyError::NoneCSSSelector),
                },
                None => selector == Err::<&str, NotifyError>(NotifyError::NoneCSSSelector),
            },
    {
        match self.details() {
            Some(d) => match &d.css_selector {
                Some(s) => Ok(s.as_str()),
                None => Err(NotifyError::NoneCSSSelector),
            },
            None => Err(NotifyError::NoneCSSSelector),
        }
    }

    /// The identifier of the product's provider.
    pub fn to_key(&self) -> (key: &'static str)
        ensures
            key@ == key_name(self@.key),
    {
        self.provider().name()
    }

    /// The product's `active` flag.
    pub fn active_flag(&self) -> (flag: bool)
        ensures
            flag == active_flag(self@),
    {
        match self.details() {
            Some(d) => match d.active {
                Some(flag) => flag,
                None => true,
            },
            None => true,
        }
    }

    /// The product's sampling weight as a number of cycles in ten.
    pub fn chance_in_ten(&self) -> (chance: u32)
        ensures
            chance == chance_in_ten(self@),
            chance <= 10,
    {
        match self.details() {
            Some(d) => match d.active_chance {
                Some(chance) => if chance >= 10 { 10 } else { chance as u32 },
                None => 10,
            },
            None => 10,
        }
    }

    /// Whether the product takes part in a cycle in which its draw came out
    /// as `hit`: the flag and the draw must both hold.
    pub fn is_active_given(&self, hit: bool) -> (active: bool)
        ensures
            active == (active_flag(self@) && hit),
    {
        self.active_flag() && hit
    }

    /// The product's sampling draw for one cycle: a hit in `chance_in_ten`
    /// cycles of ten.
    pub fn draw_chance(&self) -> (hit: bool)
        ensures
            chance_in_ten(self@) == 10 ==> hit,
            chance_in_ten(self@) == 0 ==> !hit,
    {
        draw(self.chance_in_ten(), 10)
    }

    /// Whether the product takes part in this cycle. A product whose flag is
    /// cleared never does; one whose flag is set does in `chance_in_ten` of
    /// ten cycles, decided by a random draw.
    pub fn is_active(&self) -> (active: bool)
        ensures
            active ==> active_flag(self@) && chance_in_ten(self@) > 0,
            active_flag(self@) && chance_in_ten(self@) == 10 ==> active,
    {
        let hit = self.draw_chance();
        self.is_active_given(hit)
    }

    /// The product that a catalog key, a name and a page stand for; `None`
    /// for a key that no provider has.
    pub fn from_product(key: &str, product: String, page: String) -> (made: Option<Product>)
        ensures
            match made {
                Some(p) => product_from(key@, product@, page@) == Some(p@),
                None => product_from(key@, product@, page@) is None,
            },
    {
        if same_text(key, "evgartx") {
            Some(Product::Evga(Some(ProductDetails::new_from_product_and_page(product, page))))
        } else if same_text(key, "neweggrtx") {
            Some(Product::NewEgg(Some(ProductDetails::new_from_product_and_page(product, page))))
        } else if same_text(key, "bestbuy") {
            Some(Product::BestBuy(ProductDetails::new_from_product_and_page(product, page)))
        } else if same_text(key, "evga") {
            Some(Product::Evga(None))
        } else if same_text(key, "newegg") {
            Some(Product::NewEgg(None))
        } else if same_text(key, "nvidia") {
            Some(Product::Nvidia(ProductDetails::new_from_product_and_page(product, page)))
        } else if same_text(key, "bnh") {
            Some(Product::BnH(ProductDetails::new_from_product_and_page(product, page)))
        } else if same_text(key, "amazon") {
            Some(Product::Amazon(ProductDetails::new_from_product_and_page(product, page)))
        } else {
            None
        }
    }

    /// The key under which the product is written down in the catalog.
    pub fn catalog_key(&self) -> (key: &'static str)
        ensures
            key@ == catalog_key(self@),
    {
        match self {
            Product::Evga(Some(_)) => "evgartx",
            Product::Evga(None) => "evga",
            Product::NewEgg(Some(_)) => "neweggrtx",
            Product::NewEgg(None) => "newegg",
            Product::BestBuy(_) => "bestbuy",
            Product::Nvidia(_) => "nvidia",
            Product::BnH(_) => "bnh",
            Product::Amazon(_) => "amazon",
        }
    }

    /// The product with the selector, the flag and the sampling weight of
    /// its details replaced.
    pub fn with_settings(
        self,
        css_selector: Option<String>,
        active: Option<bool>,
        active_chance: Option<u8>,
    ) -> (changed: Product)
        ensures
            changed@ == with_settings(self@, optional_text(css_selector), active, active_chance),
    {
        match self {
            Product::Evga(Some(d)) => Product::Evga(Some(d.with_settings(css_selector, active, active_chance))),
            Product::NewEgg(Some(d)) => Product::NewEgg(
                Some(d.with_settings(css_selector, active, active_chance)),
            ),
            Product::BestBuy(d) => Product::BestBuy(d.with_settings(css_selector, active, active_chance)),
            Product::Nvidia(d) => Product::Nvidia(d.with_settings(css_selector, active, active_chance)),
            Product::BnH(d) => Product::BnH(d.with_settings(css_selector, active, active_chance)),
            Product::Amazon(d) => Product::Amazon(d.with_settings(css_selector, active, active_chance)),
            bare => bare,
        }
    }

    /// The notification text for the product.
    pub fn new_stock_message(&self) -> (message: String)
        ensures
            message@ == stock_message(self@),
    {
        match self.details() {
            Some(d) => {
                let opening = match self.provider() {
                    ProviderKey::Evga => "EVGA has new ",
                    ProviderKey::NewEgg => "NewEgg has new ",
                    ProviderKey::BestBuy => "Bestbuy has ",
                    ProviderKey::Nvidia => "Nvidia has ",
                    ProviderKey::BnH => "BnH has ",
                    ProviderKey::Amazon => "Amazon has ",
                };
                String::from_str(opening).concat(d.product.as_str()).concat(" for sale at ").concat(
                    d.page.as_str(),
                )
            },
            None => {
                proof {
                    self.lemma_bare_is_mail_sourced();
                }
                match self.provider() {
                    ProviderKey::Evga => String::from_str("EVGA has new products!"),
                    _ => String::from_str("NewEgg has new products!"),
                }
            },
        }
    }
}

} // verus!
