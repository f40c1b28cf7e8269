//! Restock signals from the mailbox, and the watermarks that keep an old
//! message from counting twice.

use vstd::prelude::*;
use crate::config::ApplicationConfig;
use crate::product::{Product, ProductView, ProviderKey};
use crate::scraping::dispatch::{distinct, holds, insert_unique, lemma_holds_is_contains, views};
use crate::text::{ascii_lowercase, contains, has_substring, to_ascii_lowercase};

verus! {

/// What the program read off one message of the inbox: its subject, where it
/// has one that is text, and the time the server received it, in seconds
/// since the Unix epoch.
#[derive(Debug, Clone, PartialEq, Eq)]
pub struct MailMessage {
    pub subject: Option<String>,
    pub date: Option<i64>,
}

/// How many of the latest messages of the inbox are looked at.
pub const INBOX_WINDOW: u32 = 50;

/// The sequence numbers of the messages to fetch from an inbox that holds
/// `exists` messages: the latest fifty, or all where there are fewer; `None`
/// for an empty inbox. Sequence numbers start at 1.
pub fn inbox_window(exists: u32) -> (window: Option<(u32, u32)>)
    ensures
        exists == 0 ==> window is None,
        exists > 0 ==> window == Some(
            (
                if exists > INBOX_WINDOW {
                    (exists - INBOX_WINDOW + 1) as u32
                } else {
                    1u32
                },
                exists,
            ),
        ),
{
    if exists == 0 {
        None
    } else if exists > INBOX_WINDOW {
        Some((exists - INBOX_WINDOW + 1, exists))
    } else {
        Some((1, exists))
    }
}

/// The watermarks of the two mail-sourced providers.
pub struct Watermarks {
    pub evga: int,
    pub newegg: int,
}

/// Whether a subject names a provider, in any case.
pub open spec fn mentions(subject: Seq<char>, name: Seq<char>) -> bool {
    has_substring(ascii_lowercase(subject), name)
}

/// The provider that a message announces stock of: the subject names it, and
/// the message is later than the provider's watermark. EVGA is asked first.
pub open spec fn signal_of(message: &MailMessage, marks: Watermarks) -> Option<ProviderKey> {
    match (message.subject, message.date) {
        (Some(subject), Some(date)) => if mentions(subject@, "evga"@) && date > marks.evga {
            Some(ProviderKey::Evga)
        } else if mentions(subject@, "newegg"@) && date > marks.newegg {
            Some(ProviderKey::NewEgg)
        } else {
            None
        },
        _ => None,
    }
}

/// The watermarks after a message was read: the announced provider's mark
/// moves up to the message's time.
pub open spec fn marks_after_message(message: &MailMessage, marks: Watermarks) -> Watermarks {
    match signal_of(message, marks) {
        Some(ProviderKey::Evga) => Watermarks { evga: message.date->Some_0 as int, newegg: marks.newegg },
        Some(ProviderKey::NewEgg) => Watermarks { evga: marks.evga, newegg: message.date->Some_0 as int },
        _ => marks,
    }
}

/// The watermarks after the first `upto` messages were read in order.
pub open spec fn marks_after(messages: Seq<MailMessage>, start: Watermarks, upto: int) -> Watermarks
    decreases upto,
{
    if upto <= 0 {
        start
    } else {
        marks_after_message(&messages[upto - 1], marks_after(messages, start, upto - 1))
    }
}

/// A product that stands for a provider's announcement.
pub open spec fn announcement(key: ProviderKey) -> ProductView {
    ProductView { key, details: None }
}

/// The announcement that the message at a position gives rise to, when the
/// messages are read in order.
pub open spec fn announced_at(messages: Seq<MailMessage>, start: Watermarks, at: int) -> Option<ProductView> {
    match signal_of(&messages[at], marks_after(messages, start, at)) {
        Some(key) => Some(announcement(key)),
        None => None,
    }
}

/// The announcements that the first `upto` messages give rise to, each once,
/// in the order in which they first came.
pub open spec fn announced(messages: Seq<MailMessage>, start: Watermarks, upto: int) -> Seq<ProductView>
    decreases upto,
{
    if upto <= 0 {
        Seq::empty()
    } else {
        let before = announced(messages, start, upto - 1);
        match announced_at(messages, start, upto - 1) {
            Some(product) => if before.contains(product) {
                before
            } else {
                before.push(product)
            },
            None => before,
        }
    }
}

/// Whether one of the first `upto` messages gives rise to this announcement.
pub open spec fn announced_by(
    messages: Seq<MailMessage>,
    start: Watermarks,
    upto: int,
    product: ProductView,
) -> bool {
    exists|i: int| 0 <= i < upto && #[trigger] announced_at(messages, start, i) == Some(product)
}

/// The watermarks that a configuration holds.
pub open spec fn marks_of(config: &ApplicationConfig) -> Watermarks {
    Watermarks { evga: config.last_seen_evga as int, newegg: config.last_seen_newegg as int }
}

/// Reading one message never moves a watermark back.
pub proof fn lemma_message_advances(message: &MailMessage, marks: Watermarks)
    ensures
        marks_after_message(message, marks).evga >= marks.evga,
        marks_after_message(message, marks).newegg >= marks.newegg,
{
}

/// Whatever messages are read, and however their times are ordered, the
/// watermarks at a later point of the reading are not below those at an
/// earlier point.
pub proof fn lemma_watermarks_monotone(
    messages: Seq<MailMessage>,
    start: Watermarks,
    earlier: int,
    later: int,
)
    requires
        0 <= earlier <= later,
    ensures
        marks_after(messages, start, later).evga >= marks_after(messages, start, earlier).evga,
        marks_after(messages, start, later).newegg >= marks_after(messages, start, earlier).newegg,
    decreases later,
{
    if earlier < later {
        lemma_watermarks_monotone(messages, start, earlier, later - 1);
        lemma_message_advances(&messages[later - 1], marks_after(messages, start, later - 1));
    }
}

proof fn lemma_announced_step(messages: Seq<MailMessage>, start: Watermarks, upto: int, product: ProductView)
    requires
        0 <= upto < messages.len(),
    ensures
        announced_by(messages, start, upto + 1, product) == (announced_by(messages, start, upto, product)
            || announced_at(messages, start, upto) == Some(product)),
{
    if announced_by(messages, start, upto + 1, product) {
        let i = choose|i: int| 0 <= i < upto + 1 && #[trigger] announced_at(messages, start, i) == Some(product);
        if i < upto {
            assert(announced_at(messages, start, i) == Some(product));
        }
    }
    if announced_by(messages, start, upto, product) {
        let i = choose|i: int| 0 <= i < upto && #[trigger] announced_at(messages, start, i) == Some(product);
        assert(announced_at(messages, start, i) == Some(product));
    }
    if announced_at(messages, start, upto) == Some(product) {
        assert(announced_by(messages, start, upto + 1, product));
    }
}

/// Whether a subject names a provider, in any case.
pub fn names_provider(subject: &str, name: &str) -> (named: bool)
    ensures
        named == mentions(subject@, name@),
{
    let lowered = to_ascii_lowercase(subject);
    contains(lowered.as_str(), name)
}

/// Reads one message against the watermarks. A message that announces stock
/// moves its provider's watermark up to its own time and gives the
/// provider's announcement; any other message changes nothing.
pub fn read_message(config: &mut ApplicationConfig, message: &MailMessage) -> (signal: Option<Product>)
    ensures
        marks_of(final(config)) == marks_after_message(message, marks_of(old(config))),
        *final(config) == (ApplicationConfig {
            last_seen_evga: final(config).last_seen_evga,
            last_seen_newegg: final(config).last_seen_newegg,
            ..*old(config)
        }),
        final(config).last_seen_evga >= old(config).last_seen_evga,
        final(config).last_seen_newegg >= old(config).last_seen_newegg,
        match signal {
            Some(product) => signal_of(message, marks_of(old(config))) == Some(product@.key)
                && product@ == announcement(product@.key),
            None => signal_of(message, marks_of(old(config))) is None,
        },
{
    match (&message.subject, message.date) {
        (Some(subject), Some(date)) => {
            if names_provider(subject.as_str(), "evga") && date > config.last_seen_evga {
                config.last_seen_evga = date;
                Some(Product::Evga(None))
            } else if names_provider(subject.as_str(), "newegg") && date > config.last_seen_newegg {
                config.last_seen_newegg = date;
                Some(Product::NewEgg(None))
            } else {
                None
            }
        },
        _ => None,
    }
}

/// Reads the messages of the inbox in order and gathers the announcements
/// they give rise to, each once. The watermarks move up as the messages are
/// read and never back.
pub fn get_providers_from_mail(config: &mut ApplicationConfig, messages: &Vec<MailMessage>) -> (found: Vec<
    Product,
>)
    ensures
        marks_of(final(config)) == marks_after(messages@, marks_of(old(config)), messages@.len() as int),
        *final(config) == (ApplicationConfig {
            last_seen_evga: final(config).last_seen_evga,
            last_seen_newegg: final(config).last_seen_newegg,
            ..*old(config)
        }),
        final(config).last_seen_evga >= old(config).last_seen_evga,
        final(config).last_seen_newegg >= old(config).last_seen_newegg,
        views(found@) == announced(messages@, marks_of(old(config)), messages@.len() as int),
        distinct(found@),
        forall|v: ProductView| #[trigger]
            holds(found@, v) == announced_by(messages@, marks_of(old(config)), messages@.len() as int, v),
{
    let mut found: Vec<Product> = Vec::new();
    let mut i: usize = 0;
    let ghost start = marks_of(old(config));
    assert(views(found@) =~= announced(messages@, start, 0));
    while i < messages.len()
        invariant
            i <= messages@.len(),
            start == marks_of(old(config)),
            views(found@) == announced(messages@, start, i as int),
            marks_of(config) == marks_after(messages@, start, i as int),
            *config == (ApplicationConfig {
                last_seen_evga: config.last_seen_evga,
                last_seen_newegg: config.last_seen_newegg,
                ..*old(config)
            }),
            config.last_seen_evga >= old(config).last_seen_evga,
            config.last_seen_newegg >= old(config).last_seen_newegg,
            distinct(found@),
            forall|v: ProductView| #[trigger] holds(found@, v) == announced_by(messages@, start, i as int, v),
        decreases messages@.len() - i,
    {
        let ghost found_before = found@;
        match read_message(config, &messages[i]) {
            Some(product) => {
                insert_unique(&mut found, product);
            },
            None => {},
        }
        proof {
            match announced_at(messages@, start, i as int) {
                Some(v) => {
                    lemma_holds_is_contains(found_before, v);
                    assert(views(found@) =~= announced(messages@, start, i as int + 1));
                },
                None => {},
            }
            assert forall|v: ProductView| #[trigger]
                holds(found@, v) == announced_by(messages@, start, i as int + 1, v) by {
                lemma_announced_step(messages@, start, i as int, v);
            }
        }
        i += 1;
    }
    found
}

} // verus!
