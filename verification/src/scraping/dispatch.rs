//! One polling cycle: who is polled, and what becomes of the outcomes.

use vstd::prelude::*;
use crate::config::{rate_limited, retry_time, scrape_allowed, ApplicationConfig};
use crate::error::{ErrorLabel, NotifyError};
use crate::product::{active_flag, chance_in_ten, Product, ProductView, ProviderKey};

verus! {

/// Whether a product is polled in a cycle that starts at `now`, given how
/// its sampling draw came out: its flag is set, the draw hit, and its
/// provider may be polled.
pub open spec fn takes_part(product: ProductView, hit: bool, config: &ApplicationConfig, now: int) -> bool {
    &&& active_flag(product)
    &&& hit
    &&& scrape_allowed(config.scraping_timeout, config.ratelimit_keys@, product.key, now)
}

/// The draw of the product at a position; a product without a draw missed.
pub open spec fn draw_at(hits: Seq<bool>, at: int) -> bool {
    0 <= at < hits.len() && hits[at]
}

/// The products among the first `upto` of the catalog that are polled, in
/// the catalog's order.
pub open spec fn polled(
    products: Seq<Product>,
    hits: Seq<bool>,
    config: &ApplicationConfig,
    now: int,
    upto: int,
) -> Seq<ProductView>
    decreases upto,
{
    if upto <= 0 {
        Seq::empty()
    } else {
        let before = polled(products, hits, config, now, upto - 1);
        if takes_part(products[upto - 1]@, draw_at(hits, upto - 1), config, now) {
            before.push(products[upto - 1]@)
        } else {
            before
        }
    }
}

/// The identities of a sequence of products.
pub open spec fn views(products: Seq<Product>) -> Seq<ProductView> {
    products.map_values(|p: Product| p@)
}

/// Whether a sampling draw is one that the product's weight allows: a
/// weight of ten or more always hits, a weight of zero never does.
pub open spec fn fair_draw(product: ProductView, hit: bool) -> bool {
    &&& chance_in_ten(product) == 10 ==> hit
    &&& chance_in_ten(product) == 0 ==> !hit
}

/// Every product that is polled has its flag set and a provider that may be
/// polled: a provider that is rate-limited at `now` is left out, whatever the
/// product's flag and draw.
pub proof fn lemma_polled_respects_limits(
    products: Seq<Product>,
    hits: Seq<bool>,
    config: &ApplicationConfig,
    now: int,
    upto: int,
)
    requires
        0 <= upto <= products.len(),
    ensures
        forall|j: int|
            0 <= j < polled(products, hits, config, now, upto).len() ==> {
                let chosen = #[trigger] polled(products, hits, config, now, upto)[j];
                &&& active_flag(chosen)
                &&& scrape_allowed(config.scraping_timeout, config.ratelimit_keys@, chosen.key, now)
                &&& exists|i: int| 0 <= i < upto && (#[trigger] products[i])@ == chosen
            },
    decreases upto,
{
    if upto > 0 {
        lemma_polled_respects_limits(products, hits, config, now, upto - 1);
        let before = polled(products, hits, config, now, upto - 1);
        let all = polled(products, hits, config, now, upto);
        assert forall|j: int| 0 <= j < all.len() implies {
            let chosen = #[trigger] all[j];
            &&& active_flag(chosen)
            &&& scrape_allowed(config.scraping_timeout, config.ratelimit_keys@, chosen.key, now)
            &&& exists|i: int| 0 <= i < upto && (#[trigger] products[i])@ == chosen
        } by {
            if j < before.len() {
                let chosen = before[j];
                assert(all[j] == chosen);
                let i = choose|i: int| 0 <= i < upto - 1 && (#[trigger] products[i])@ == chosen;
                assert(products[i]@ == chosen);
            } else {
                assert(products[upto - 1]@ == all[j]);
            }
        }
    }
}

/// A provider that is rate-limited at `now` has none of its products polled,
/// whatever their flags and however their draws came out.
pub proof fn lemma_rate_limited_left_out(
    products: Seq<Product>,
    hits: Seq<bool>,
    config: &ApplicationConfig,
    now: int,
    key: ProviderKey,
)
    requires
        rate_limited(config.ratelimit_keys@, key, now),
    ensures
        forall|j: int|
            0 <= j < polled(products, hits, config, now, products.len() as int).len() ==> (#[trigger] polled(
                products,
                hits,
                config,
                now,
                products.len() as int,
            )[j]).key != key,
{
    lemma_polled_respects_limits(products, hits, config, now, products.len() as int);
}

/// The products to poll in a cycle that starts at `now`, given the sampling
/// draw of each product of the catalog, by position.
pub fn select_products(
    products: &Vec<Product>,
    hits: &Vec<bool>,
    config: &ApplicationConfig,
    now: i64,
) -> (chosen: Vec<Product>)
    ensures
        views(chosen@) == polled(products@, hits@, config, now as int, products@.len() as int),
{
    let mut chosen: Vec<Product> = Vec::new();
    let mut i: usize = 0;
    assert(views(chosen@) =~= polled(products@, hits@, config, now as int, 0));
    while i < products.len()
        invariant
            i <= products@.len(),
            views(chosen@) == polled(products@, hits@, config, now as int, i as int),
        decreases products@.len() - i,
    {
        let product = &products[i];
        let hit = i < hits.len() && hits[i];
        if product.is_active_given(hit) && config.should_scrape_at(product.provider(), now) {
            let ghost before = chosen@;
            chosen.push(product.clone());
            assert(views(chosen@) =~= views(before).push(product@));
        }
        i += 1;
    }
    chosen
}

/// The products to poll in a cycle that starts at `now`: a sampling draw is
/// made for each product of the catalog, and the products are chosen by it.
pub fn active_products(products: &Vec<Product>, config: &ApplicationConfig, now: i64) -> (chosen: Vec<
    Product,
>)
    ensures
        exists|hits: Seq<bool>|
            {
                &&& hits.len() == products@.len()
                &&& forall|i: int| 0 <= i < hits.len() ==> fair_draw(products@[i]@, #[trigger] hits[i])
                &&& views(chosen@) == polled(products@, hits, config, now as int, products@.len() as int)
            },
        forall|j: int|
            0 <= j < chosen@.len() ==> {
                &&& active_flag((#[trigger] chosen@[j])@)
                &&& scrape_allowed(
                    config.scraping_timeout,
                    config.ratelimit_keys@,
                    chosen@[j]@.key,
                    now as int,
                )
            },
{
    let mut hits: Vec<bool> = Vec::new();
    let mut i: usize = 0;
    while i < products.len()
        invariant
            i <= products@.len(),
            hits@.len() == i,
            forall|k: int| 0 <= k < i ==> fair_draw(products@[k]@, #[trigger] hits@[k]),
        decreases products@.len() - i,
    {
        hits.push(products[i].draw_chance());
        i += 1;
    }
    let chosen = select_products(products, &hits, config, now);
    proof {
        lemma_polled_respects_limits(products@, hits@, config, now as int, products@.len() as int);
        assert forall|j: int| 0 <= j < chosen@.len() implies {
            &&& active_flag((#[trigger] chosen@[j])@)
            &&& scrape_allowed(config.scraping_timeout, config.ratelimit_keys@, chosen@[j]@.key, now as int)
        } by {
            assert(views(chosen@)[j] == chosen@[j]@);
        }
    }
    chosen
}

/// A product that was polled, and what its availability check came to.
#[derive(Debug, PartialEq, Eq)]
pub struct CheckOutcome {
    pub product: Product,
    pub result: Result<Product, NotifyError>,
}

impl Clone for CheckOutcome {
    fn clone(&self) -> (copy: Self)
        ensures
            copy.product@ == self.product@,
            found_view(&copy) == found_view(self),
            copy.result matches Err(e) ==> self.result matches Err(f) && e@ == f@,
    {
        let result = match &self.result {
            Ok(found) => Ok(found.clone()),
            Err(e) => Err(e.clone()),
        };
        CheckOutcome { product: self.product.clone(), result }
    }
}

/// The product that a check found in stock, if it found one.
pub open spec fn found_view(outcome: &CheckOutcome) -> Option<ProductView> {
    match outcome.result {
        Ok(found) => Some(found@),
        Err(_) => None,
    }
}

/// Whether a check ended in a rate limit for this provider.
pub open spec fn signals_limit(outcome: &CheckOutcome, key: ProviderKey) -> bool {
    &&& outcome.result matches Err(e) && e@.label == ErrorLabel::RateLimit
    &&& outcome.product@.key == key
}

/// Whether a check ran to a verdict for this provider: in stock, or not found.
pub open spec fn counts_as_checked(outcome: &CheckOutcome, key: ProviderKey) -> bool {
    &&& outcome.product@.key == key
    &&& outcome.result matches Err(e) ==> e@.label == ErrorLabel::NoProductFound
}

/// Whether one of the first `upto` checks found this product in stock.
pub open spec fn found_by(outcomes: Seq<CheckOutcome>, upto: int, product: ProductView) -> bool {
    exists|i: int| 0 <= i < upto && #[trigger] found_view(&outcomes[i]) == Some(product)
}

/// The products that the first `upto` checks found in stock, each once, in
/// the order in which they were first found.
pub open spec fn gathered(outcomes: Seq<CheckOutcome>, upto: int) -> Seq<ProductView>
    decreases upto,
{
    if upto <= 0 {
        Seq::empty()
    } else {
        let before = gathered(outcomes, upto - 1);
        match found_view(&outcomes[upto - 1]) {
            Some(product) => if before.contains(product) {
                before
            } else {
                before.push(product)
            },
            None => before,
        }
    }
}

/// Whether one of the first `upto` checks ended in a rate limit for this provider.
pub open spec fn limited_by(outcomes: Seq<CheckOutcome>, upto: int, key: ProviderKey) -> bool {
    exists|i: int| 0 <= i < upto && #[trigger] signals_limit(&outcomes[i], key)
}

/// How many of the first `upto` checks ran to a verdict for this provider.
pub open spec fn checked_count(outcomes: Seq<CheckOutcome>, key: ProviderKey, upto: int) -> int
    decreases upto,
{
    if upto <= 0 {
        0
    } else {
        checked_count(outcomes, key, upto - 1) + if counts_as_checked(&outcomes[upto - 1], key) {
            1int
        } else {
            0int
        }
    }
}

/// How many of the first `upto` checks found their product in stock.
pub open spec fn found_count(outcomes: Seq<CheckOutcome>, upto: int) -> int
    decreases upto,
{
    if upto <= 0 {
        0
    } else {
        found_count(outcomes, upto - 1) + if outcomes[upto - 1].result is Ok {
            1int
        } else {
            0int
        }
    }
}

/// The rate-limit table after the first `upto` outcomes: every provider that
/// signalled a rate limit waits until the retry time, the others keep what
/// they had.
pub open spec fn limits_after(
    before: Map<ProviderKey, int>,
    outcomes: Seq<CheckOutcome>,
    upto: int,
    now: int,
) -> Map<ProviderKey, int> {
    Map::new(
        |key: ProviderKey| before.contains_key(key) || limited_by(outcomes, upto, key),
        |key: ProviderKey|
            if limited_by(outcomes, upto, key) {
                retry_time(now)
            } else {
                before[key]
            },
    )
}

/// Whether some product of the sequence has this identity.
pub open spec fn holds(products: Seq<Product>, product: ProductView) -> bool {
    exists|j: int| 0 <= j < products.len() && (#[trigger] products[j])@ == product
}

/// No two products of the sequence are the same product.
pub open spec fn distinct(products: Seq<Product>) -> bool {
    forall|i: int, j: int| 0 <= i < j < products.len() ==> (#[trigger] products[i])@ != (#[trigger] products[j])@
}

/// What a cycle came to.
#[derive(Debug)]
pub struct CycleReport {
    /// The products found in stock, each once.
    pub found: Vec<Product>,
    /// For each provider, by its position, how many checks ran to a verdict.
    pub checked: Vec<usize>,
    /// Whether any provider signalled a rate limit.
    pub rate_limited: bool,
    /// How many finds were left out because the product was already found.
    pub collisions: usize,
}

/// A product is held by a sequence exactly when its identity is among the
/// sequence's identities.
pub proof fn lemma_holds_is_contains(products: Seq<Product>, product: ProductView)
    ensures
        holds(products, product) == views(products).contains(product),
{
    if holds(products, product) {
        let j = choose|j: int| 0 <= j < products.len() && (#[trigger] products[j])@ == product;
        assert(views(products)[j] == product);
    }
    if views(products).contains(product) {
        let j = choose|j: int| 0 <= j < views(products).len() && views(products)[j] == product;
        assert(products[j]@ == product);
    }
}

proof fn lemma_found_step(outcomes: Seq<CheckOutcome>, upto: int, product: ProductView)
    requires
        0 <= upto < outcomes.len(),
    ensures
        found_by(outcomes, upto + 1, product) == (found_by(outcomes, upto, product) || found_view(
            &outcomes[upto],
        ) == Some(product)),
{
    if found_by(outcomes, upto + 1, product) {
        let i = choose|i: int| 0 <= i < upto + 1 && #[trigger] found_view(&outcomes[i]) == Some(product);
        if i < upto {
            assert(found_view(&outcomes[i]) == Some(product));
        }
    }
    if found_by(outcomes, upto, product) {
        let i = choose|i: int| 0 <= i < upto && #[trigger] found_view(&outcomes[i]) == Some(product);
        assert(found_view(&outcomes[i]) == Some(product));
    }
    if found_view(&outcomes[upto]) == Some(product) {
        assert(found_by(outcomes, upto + 1, product));
    }
}

/// Where every check that found something found the same product, that
/// product is gathered once, however many checks found it.
pub proof fn lemma_identical_finds_once(outcomes: Seq<CheckOutcome>, upto: int, product: ProductView)
    requires
        0 <= upto <= outcomes.len(),
        forall|i: int|
            0 <= i < upto && (#[trigger] found_view(&outcomes[i])) is Some ==> found_view(&outcomes[i])
                == Some(product),
    ensures
        gathered(outcomes, upto) == if found_by(outcomes, upto, product) {
            seq![product]
        } else {
            Seq::<ProductView>::empty()
        },
    decreases upto,
{
    if upto > 0 {
        lemma_identical_finds_once(outcomes, upto - 1, product);
        lemma_found_step(outcomes, upto - 1, product);
        let before = gathered(outcomes, upto - 1);
        if found_view(&outcomes[upto - 1]) is Some {
            assert(found_view(&outcomes[upto - 1]) == Some(product));
            if found_by(outcomes, upto - 1, product) {
                assert(before =~= seq![product]);
                assert(before[0] == product);
            } else {
                assert(before.push(product) =~= seq![product]);
            }
        }
    }
}

proof fn lemma_limited_step(outcomes: Seq<CheckOutcome>, upto: int, key: ProviderKey)
    requires
        0 <= upto < outcomes.len(),
    ensures
        limited_by(outcomes, upto + 1, key) == (limited_by(outcomes, upto, key) || signals_limit(
            &outcomes[upto],
            key,
        )),
{
    if limited_by(outcomes, upto + 1, key) {
        let i = choose|i: int| 0 <= i < upto + 1 && #[trigger] signals_limit(&outcomes[i], key);
        if i < upto {
            assert(signals_limit(&outcomes[i], key));
        }
    }
    if limited_by(outcomes, upto, key) {
        let i = choose|i: int| 0 <= i < upto && #[trigger] signals_limit(&outcomes[i], key);
        assert(signals_limit(&outcomes[i], key));
    }
    if signals_limit(&outcomes[upto], key) {
        assert(limited_by(outcomes, upto + 1, key));
    }
}

/// Adds a product to the products found, unless it is among them already.
pub fn insert_unique(found: &mut Vec<Product>, product: Product) -> (inserted: bool)
    requires
        distinct(old(found)@),
    ensures
        distinct(final(found)@),
        inserted == !holds(old(found)@, product@),
        inserted ==> final(found)@ == old(found)@.push(product),
        !inserted ==> final(found)@ == old(found)@,
        forall|v: ProductView| #[trigger]
            holds(final(found)@, v) == (holds(old(found)@, v) || v == product@),
{
    let mut j: usize = 0;
    while j < found.len()
        invariant
            j <= found@.len(),
            *found == *old(found),
            distinct(found@),
            forall|k: int| 0 <= k < j ==> (#[trigger] found@[k])@ != product@,
        decreases found@.len() - j,
    {
        if found[j].same_as(&product) {
            assert(found@[j as int]@ == product@);
            return false;
        }
        j += 1;
    }
    let ghost wanted = product@;
    found.push(product);
    proof {
        let before = old(found)@;
        let after = found@;
        assert forall|v: ProductView| #[trigger] holds(after, v) == (holds(before, v) || v == wanted) by {
            if holds(before, v) {
                let k = choose|k: int| 0 <= k < before.len() && (#[trigger] before[k])@ == v;
                assert(after[k]@ == v);
            }
            if v == wanted {
                assert(after[before.len() as int]@ == v);
            }
            if holds(after, v) {
                let k = choose|k: int| 0 <= k < after.len() && (#[trigger] after[k])@ == v;
                if k < before.len() {
                    assert(before[k]@ == v);
                }
            }
        }
    }
    true
}

/// Takes in the outcomes of a cycle's checks, made at `now`. The products
/// found in stock are gathered, each once; each provider that signalled a
/// rate limit is left alone until the retry time; and the checks that ran to
/// a verdict are counted per provider. No outcome stops the others from
/// being taken in.
pub fn get_providers_from_scraping(
    config: &mut ApplicationConfig,
    outcomes: &Vec<CheckOutcome>,
    now: i64,
) -> (report: CycleReport)
    ensures
        views(report.found@) == gathered(outcomes@, outcomes@.len() as int),
        distinct(report.found@),
        forall|v: ProductView| #[trigger]
            holds(report.found@, v) == found_by(outcomes@, outcomes@.len() as int, v),
        report.found@.len() + report.collisions == found_count(outcomes@, outcomes@.len() as int),
        report.checked@.len() == 6,
        forall|key: ProviderKey| #[trigger]
            report.checked@[key.index()] == checked_count(outcomes@, key, outcomes@.len() as int),
        report.rate_limited == (exists|key: ProviderKey| #[trigger]
            limited_by(outcomes@, outcomes@.len() as int, key)),
        final(config).ratelimit_keys@ == limits_after(
            old(config).ratelimit_keys@,
            outcomes@,
            outcomes@.len() as int,
            now as int,
        ),
        *final(config) == (ApplicationConfig { ratelimit_keys: final(config).ratelimit_keys, ..*old(config) }),
{
    let mut found: Vec<Product> = Vec::new();
    let mut checked: Vec<usize> = vec![0, 0, 0, 0, 0, 0];
    let mut rate_limited = false;
    let mut collisions: usize = 0;
    let mut i: usize = 0;
    assert(config.ratelimit_keys@ =~= limits_after(old(config).ratelimit_keys@, outcomes@, 0, now as int));
    assert(views(found@) =~= gathered(outcomes@, 0));
    while i < outcomes.len()
        invariant
            i <= outcomes@.len(),
            views(found@) == gathered(outcomes@, i as int),
            distinct(found@),
            forall|v: ProductView| #[trigger] holds(found@, v) == found_by(outcomes@, i as int, v),
            found@.len() + collisions == found_count(outcomes@, i as int),
            found_count(outcomes@, i as int) <= i,
            checked@.len() == 6,
            forall|key: ProviderKey| #[trigger]
                checked@[key.index()] == checked_count(outcomes@, key, i as int),
            forall|key: ProviderKey| #[trigger] checked_count(outcomes@, key, i as int) <= i,
            rate_limited == (exists|key: ProviderKey| #[trigger] limited_by(outcomes@, i as int, key)),
            config.ratelimit_keys@ == limits_after(
                old(config).ratelimit_keys@,
                outcomes@,
                i as int,
                now as int,
            ),
            *config == (ApplicationConfig { ratelimit_keys: config.ratelimit_keys, ..*old(config) }),
        decreases outcomes@.len() - i,
    {
        let outcome = &outcomes[i];
        let key = outcome.product.provider();
        let ghost found_before = found@;
        let ghost checked_before = checked@;
        let mut verdict = false;
        match &outcome.result {
            Ok(product) => {
                verdict = true;
                if !insert_unique(&mut found, product.clone()) {
                    collisions += 1;
                }
            },
            Err(e) => {
                match e.label() {
                    ErrorLabel::RateLimit => {
                        rate_limited = true;
                        config.add_ratelimit(key, now);
                    },
                    ErrorLabel::NoProductFound => {
                        verdict = true;
                    },
                    _ => {},
                }
            },
        }
        if verdict {
            let at = key.position();
            let count = checked[at];
            assert(count == checked_count(outcomes@, key, i as int));
            checked.set(at, count + 1);
        }
        proof {
            let upto = i as int;
            match found_view(&outcomes@[upto]) {
                Some(v) => {
                    lemma_holds_is_contains(found_before, v);
                    assert(views(found@) =~= gathered(outcomes@, upto + 1));
                },
                None => {},
            }
            assert forall|v: ProductView| #[trigger] holds(found@, v) == found_by(outcomes@, upto + 1, v) by {
                lemma_found_step(outcomes@, upto, v);
            }
            assert forall|k: ProviderKey| #[trigger]
                checked@[k.index()] == checked_count(outcomes@, k, upto + 1) by {
                assert(checked_before[k.index()] == checked_count(outcomes@, k, upto));
                if k != key {
                    assert(k.index() != key.index());
                }
            }
            assert forall|k: ProviderKey| #[trigger] checked_count(outcomes@, k, upto + 1) <= upto + 1 by {
                assert(checked_count(outcomes@, k, upto) <= upto);
            }
            assert forall|k: ProviderKey| #[trigger]
                limited_by(outcomes@, upto + 1, k) == (limited_by(outcomes@, upto, k) || signals_limit(
                    &outcomes@[upto],
                    k,
                )) by {
                lemma_limited_step(outcomes@, upto, k);
            }
            if signals_limit(&outcomes@[upto], key) {
                assert(limited_by(outcomes@, upto + 1, key));
            }
            if exists|k: ProviderKey| #[trigger] limited_by(outcomes@, upto, k) {
                let k = choose|k: ProviderKey| #[trigger] limited_by(outcomes@, upto, k);
                assert(limited_by(outcomes@, upto + 1, k));
            }
            if exists|k: ProviderKey| #[trigger] limited_by(outcomes@, upto + 1, k) {
                let k = choose|k: ProviderKey| #[trigger] limited_by(outcomes@, upto + 1, k);
                assert(limited_by(outcomes@, upto, k) || signals_limit(&outcomes@[upto], k));
            }
            assert(config.ratelimit_keys@ =~= limits_after(
                old(config).ratelimit_keys@,
                outcomes@,
                upto + 1,
                now as int,
            ));
        }
        i += 1;
    }
    CycleReport { found, checked, rate_limited, collisions }
}

} // verus!
