//! Who is told of a product that was found, and when.

use vstd::prelude::*;
use crate::config::{after_batch, cadence_open, ApplicationConfig, Config, Subscriber, COOLDOWN_SECONDS};
use crate::error::NotifyError;
use crate::product::{key_name, stock_message, Product};
use crate::text::{clone_optional, optional_text};

verus! {

/// The notifier: its configuration and the state it carries between cycles.
#[derive(Debug, Clone, PartialEq, Eq)]
pub struct Notifier {
    pub config: Config,
}

/// One text message to send.
#[derive(Debug, Clone, PartialEq, Eq)]
pub struct TextMessage {
    pub from: String,
    pub to: String,
    pub body: String,
}

/// What is to be done about one product that was found.
#[derive(Debug, Clone, PartialEq, Eq)]
pub struct NotificationPlan {
    /// Whether the product's page is to be opened in a browser.
    pub open_browser: bool,
    /// The webhook to post the product to, where one is configured.
    pub webhook: Option<String>,
    /// The text messages to send, one per recipient.
    pub messages: Vec<TextMessage>,
}

/// The subscribers who are told of products of a provider, in the order of
/// the configuration.
pub open spec fn recipients(subscribers: Seq<Subscriber>, key: Seq<char>) -> Seq<Subscriber> {
    subscribers.filter(|s: Subscriber| s.wants(key))
}

/// Whether text messages go out at `now`: the channel is configured and the
/// cadence gate is open.
pub open spec fn sms_permitted(config: &ApplicationConfig, now: int) -> bool {
    &&& config.twilio_account_id is Some
    &&& config.twilio_auth_token is Some
    &&& config.from_phone_number is Some
    &&& cadence_open(config.last_notification_sent as int, now, COOLDOWN_SECONDS as int)
}

/// The number of text messages that a product found at `now` gives rise to.
pub open spec fn messages_due(config: &Config, product: &Product, now: int) -> nat {
    if sms_permitted(&config.application_config, now) {
        recipients(config.subscribers@, key_name(product@.key)).len()
    } else {
        0
    }
}

/// How many of the first `upto` deliveries went through.
pub open spec fn delivered_count(deliveries: Seq<Result<(), NotifyError>>, upto: int) -> int
    decreases upto,
{
    if upto <= 0 {
        0
    } else {
        delivered_count(deliveries, upto - 1) + if deliveries[upto - 1] is Ok {
            1int
        } else {
            0int
        }
    }
}

proof fn lemma_recipients_step(subscribers: Seq<Subscriber>, key: Seq<char>, upto: int)
    requires
        0 <= upto < subscribers.len(),
    ensures
        recipients(subscribers.take(upto + 1), key) == if subscribers[upto].wants(key) {
            recipients(subscribers.take(upto), key).push(subscribers[upto])
        } else {
            recipients(subscribers.take(upto), key)
        },
{
    reveal(Seq::filter);
    assert(subscribers.take(upto + 1).drop_last() =~= subscribers.take(upto));
}

/// After a batch in which a notification went through at `sent`, a product
/// found before the cooldown has passed gives rise to no text message, even
/// if it is the product of that batch and still in stock.
pub proof fn lemma_second_cycle_silent(
    config: &Config,
    product: &Product,
    delivered: int,
    sent: i64,
    later: int,
)
    requires
        delivered > 0,
        later - sent < COOLDOWN_SECONDS,
    ensures
        messages_due(
            &(Config { application_config: after_batch(config.application_config, delivered, sent), ..*config }),
            product,
            later,
        ) == 0,
{
}

/// A batch in which nothing went through does not use up the cooldown: what
/// was due before it is due after it.
pub proof fn lemma_failed_batch_keeps_gate(config: &Config, product: &Product, ended: i64, later: int)
    ensures
        messages_due(
            &(Config { application_config: after_batch(config.application_config, 0, ended), ..*config }),
            product,
            later,
        ) == messages_due(config, product, later),
{
}

impl Notifier {
    /// A notifier with this configuration.
    pub fn new(config: Config) -> (notifier: Self)
        ensures
            notifier.config == config,
    {
        Notifier { config }
    }

    /// Whether the notifier runs cycle after cycle.
    pub fn daemon_mode(&self) -> (daemon: bool)
        ensures
            daemon == self.config.application_config.daemon_mode,
    {
        self.config.application_config.daemon_mode
    }

    /// The number that text messages are sent from.
    pub fn get_from_phone_number(&self) -> (number: Option<&String>)
        ensures
            match number {
                Some(from) => self.config.application_config.from_phone_number == Some(*from),
                None => self.config.application_config.from_phone_number is None,
            },
    {
        self.config.application_config.from_phone_number.as_ref()
    }

    /// The active subscribers whose services list the provider, in the order
    /// of the configuration.
    pub fn active_subscribers(&self, key: &str) -> (chosen: Vec<&Subscriber>)
        ensures
            chosen@.len() == recipients(self.config.subscribers@, key@).len(),
            forall|i: int|
                0 <= i < chosen@.len() ==> *(#[trigger] chosen@[i]) == recipients(
                    self.config.subscribers@,
                    key@,
                )[i],
    {
        let subscribers = &self.config.subscribers;
        let mut chosen: Vec<&Subscriber> = Vec::new();
        let mut i: usize = 0;
        proof {
            reveal(Seq::filter);
            assert(subscribers@.take(0) =~= Seq::<Subscriber>::empty());
        }
        while i < subscribers.len()
            invariant
                i <= subscribers@.len(),
                chosen@.len() == recipients(subscribers@.take(i as int), key@).len(),
                forall|j: int|
                    0 <= j < chosen@.len() ==> *(#[trigger] chosen@[j]) == recipients(
                        subscribers@.take(i as int),
                        key@,
                    )[j],
            decreases subscribers@.len() - i,
        {
            proof {
                lemma_recipients_step(subscribers@, key@, i as int);
            }
            if subscribers[i].is_subscribed(key) {
                chosen.push(&subscribers[i]);
            }
            i += 1;
        }
        assert(subscribers@.take(subscribers@.len() as int) =~= subscribers@);
        chosen
    }

    /// What is to be done about a product found at `now`. The browser and the
    /// webhook go by the configuration alone. Text messages go out only while
    /// the channel is configured and the cadence gate is open: then one to
    /// each recipient, in order, with the product's message.
    pub fn handle_found_product(&self, product: &Product, now: i64) -> (plan: NotificationPlan)
        ensures
            plan.open_browser == self.config.application_config.should_open_browser,
            optional_text(plan.webhook) == optional_text(self.config.application_config.discord_url),
            plan.messages@.len() == messages_due(&self.config, product, now as int),
            forall|i: int|
                0 <= i < plan.messages@.len() ==> {
                    let message = #[trigger] plan.messages@[i];
                    &&& message.to@ == recipients(
                        self.config.subscribers@,
                        key_name(product@.key),
                    )[i].to_phone_number@
                    &&& message.body@ == stock_message(product@)
                    &&& Some(message.from@) == optional_text(
                        self.config.application_config.from_phone_number,
                    )
                },
    {
        let settings = &self.config.application_config;
        let mut messages: Vec<TextMessage> = Vec::new();
        if settings.has_twilio_config() && settings.should_send_notification_at(now) {
            let subscribers = self.active_subscribers(product.to_key());
            let ghost due = recipients(self.config.subscribers@, key_name(product@.key));
            match &settings.from_phone_number {
                Some(from) => {
                    let mut i: usize = 0;
                    while i < subscribers.len()
                        invariant
                            i <= subscribers@.len(),
                            subscribers@.len() == due.len(),
                            forall|j: int| 0 <= j < subscribers@.len() ==> *(#[trigger] subscribers@[j]) == due[j],
                            messages@.len() == i,
                            forall|j: int|
                                0 <= j < i ==> {
                                    let message = #[trigger] messages@[j];
                                    &&& message.to@ == due[j].to_phone_number@
                                    &&& message.body@ == stock_message(product@)
                                    &&& message.from@ == from@
                                },
                        decreases subscribers@.len() - i,
                    {
                        let subscriber = subscribers[i];
                        messages.push(
                            TextMessage {
                                from: from.clone(),
                                to: subscriber.to_phone_number.clone(),
                                body: product.new_stock_message(),
                            },
                        );
                        i += 1;
                    }
                },
                None => {},
            }
        }
        NotificationPlan {
            open_browser: settings.should_open_browser(),
            webhook: clone_optional(&settings.discord_url),
            messages,
        }
    }

    /// Takes in the outcome of each delivery of a batch that ended at `now`,
    /// and says how many went through. A delivery that failed stops no other
    /// from counting; the cadence restarts if at least one went through.
    pub fn settle_batch(&mut self, deliveries: &Vec<Result<(), NotifyError>>, now: i64) -> (delivered: usize)
        ensures
            delivered == delivered_count(deliveries@, deliveries@.len() as int),
            final(self).config.subscribers == old(self).config.subscribers,
            final(self).config.products == old(self).config.products,
            final(self).config.application_config == after_batch(
                old(self).config.application_config,
                delivered as int,
                now,
            ),
    {
        let mut delivered: usize = 0;
        let mut i: usize = 0;
        while i < deliveries.len()
            invariant
                i <= deliveries@.len(),
                delivered == delivered_count(deliveries@, i as int),
                delivered <= i,
            decreases deliveries@.len() - i,
        {
            if deliveries[i].is_ok() {
                delivered += 1;
            }
            i += 1;
        }
        self.record_batch(delivered, now);
        delivered
    }

    /// Takes in how a batch of notifications went: `delivered` of them went
    /// through, and the batch ended at `now`. The cadence restarts only if at
    /// least one went through.
    pub fn record_batch(&mut self, delivered: usize, now: i64)
        ensures
            final(self).config.subscribers == old(self).config.subscribers,
            final(self).config.products == old(self).config.products,
            final(self).config.application_config == after_batch(
                old(self).config.application_config,
                delivered as int,
                now,
            ),
    {
        self.config.application_config.record_batch(delivered, now);
    }
}

} // verus!
