//! The forward decision: emoji filter, exact threshold, recency gate,
//! de-duplication, routing lookup and choice of forwarding strategy.

use crate::routing::RoutingTable;
use std::collections::HashSet;
use vstd::prelude::*;

verus! {

broadcast use vstd::std_specs::hash::group_hash_axioms;

/// Number of milliseconds in one day of UTC time.
pub const MILLIS_PER_DAY: i64 = 86_400_000;

/// The emoji of a reaction.
#[derive(Clone, Debug, PartialEq, Eq)]
pub enum ReactionEmoji {
    /// A custom emoji of a guild, known by its identifier.
    Custom { id: u64 },
    /// A standard emoji, known by its text.
    Unicode { name: String },
}

/// Whether `emoji` is the custom emoji with identifier `agree`.
pub open spec fn is_agree(emoji: ReactionEmoji, agree: u64) -> bool {
    match emoji {
        ReactionEmoji::Custom { id } => id == agree,
        ReactionEmoji::Unicode { .. } => false,
    }
}

/// Settings of the decision engine.
#[derive(Clone, Copy, Debug, PartialEq, Eq, Structural)]
pub struct EngineConfig {
    /// Identifier of the custom emoji that counts as agreement.
    pub agree_emoji: u64,
    /// The count at which a message is forwarded.
    pub threshold: u64,
    /// How many days after it was sent a message may still be forwarded.
    pub recency_days: u64,
    /// A user who may set routes in every guild, beside its owner.
    pub admin_id: u64,
}

/// A reaction was added to a message.
#[derive(Clone, Debug, PartialEq, Eq)]
pub struct ReactionEvent {
    pub message_id: u64,
    pub guild_id: Option<u64>,
    pub channel_id: u64,
    pub emoji: ReactionEmoji,
}

/// One emoji's tally among a message's reactions.
#[derive(Clone, Debug, PartialEq, Eq)]
pub struct ReactionTally {
    pub emoji: ReactionEmoji,
    pub count: u64,
}

/// What the decision reads of the reacted message, fetched after the event.
#[derive(Clone, Copy, Debug, PartialEq, Eq, Structural)]
pub struct MessageFacts {
    /// The current count of the agree emoji on the message.
    pub agree_count: u64,
    /// When the message was sent, in milliseconds since the Unix epoch.
    pub sent_at_ms: i64,
    /// Whether the message carries interactive components.
    pub has_components: bool,
}

/// Why nothing is forwarded.
#[derive(Clone, Copy, Debug, PartialEq, Eq, Structural)]
pub enum SkipReason {
    OtherEmoji,
    ThresholdMissed,
    Stale,
    AlreadyForwarded,
    NoRoute,
}

/// The outcome of a reaction event.
#[derive(Clone, Copy, Debug, PartialEq, Eq, Structural)]
pub enum ForwardDecision {
    /// Nothing is sent.
    Skip { reason: SkipReason },
    /// Send a native forward reference to the message into `target_channel`.
    ForwardByReference { target_channel: u64 },
    /// Repost the message into `target_channel` through a webhook.
    ForwardByWebhook { target_channel: u64 },
}

impl ForwardDecision {
    pub open spec fn is_forward(self) -> bool {
        !(self is Skip)
    }
}

/// The first tally of the agree emoji in `tallies`, or zero when there is none.
pub open spec fn agree_count_of(tallies: Seq<ReactionTally>, agree: u64) -> u64
    decreases tallies.len(),
{
    if tallies.len() == 0 {
        0
    } else if is_agree(tallies[0].emoji, agree) {
        tallies[0].count
    } else {
        agree_count_of(tallies.drop_first(), agree)
    }
}

/// Whether a message sent at `sent_at_ms` is past the recency window at `now_ms`.
pub open spec fn is_stale_spec(sent_at_ms: i64, recency_days: u64, now_ms: i64) -> bool {
    sent_at_ms + recency_days * MILLIS_PER_DAY < now_ms
}

/// What a reaction event leads to, given the message, the time, the
/// messages forwarded so far and the routes.
pub open spec fn decision_of(
    cfg: EngineConfig,
    ev: ReactionEvent,
    facts: MessageFacts,
    now_ms: i64,
    forwarded: Set<u64>,
    routes: Map<u64, u64>,
) -> ForwardDecision {
    if !is_agree(ev.emoji, cfg.agree_emoji) {
        ForwardDecision::Skip { reason: SkipReason::OtherEmoji }
    } else if facts.agree_count != cfg.threshold {
        ForwardDecision::Skip { reason: SkipReason::ThresholdMissed }
    } else if is_stale_spec(facts.sent_at_ms, cfg.recency_days, now_ms) {
        ForwardDecision::Skip { reason: SkipReason::Stale }
    } else if forwarded.contains(ev.message_id) {
        ForwardDecision::Skip { reason: SkipReason::AlreadyForwarded }
    } else {
        match ev.guild_id {
            Some(g) if routes.contains_key(g) => if facts.has_components {
                ForwardDecision::ForwardByReference { target_channel: routes[g] }
            } else {
                ForwardDecision::ForwardByWebhook { target_channel: routes[g] }
            },
            _ => ForwardDecision::Skip { reason: SkipReason::NoRoute },
        }
    }
}

/// The forwarded messages after the event: the message is marked once it
/// passes the emoji, threshold and recency checks, before its route is read.
pub open spec fn forwarded_after(
    cfg: EngineConfig,
    ev: ReactionEvent,
    facts: MessageFacts,
    now_ms: i64,
    forwarded: Set<u64>,
) -> Set<u64> {
    if is_agree(ev.emoji, cfg.agree_emoji) && facts.agree_count == cfg.threshold
        && !is_stale_spec(facts.sent_at_ms, cfg.recency_days, now_ms) {
        forwarded.insert(ev.message_id)
    } else {
        forwarded
    }
}

/// The identifiers of the messages already forwarded during this process.
pub struct ForwardRecord {
    seen: HashSet<u64>,
}

impl View for ForwardRecord {
    type V = Set<u64>;

    closed spec fn view(&self) -> Set<u64> {
        self.seen@
    }
}

impl ForwardRecord {
    /// A record with no message in it.
    pub fn new() -> (r: ForwardRecord)
        ensures
            r@ == Set::<u64>::empty(),
    {
        ForwardRecord { seen: HashSet::new() }
    }

    /// Whether `message_id` was forwarded already.
    pub fn contains(&self, message_id: u64) -> (r: bool)
        ensures
            r == self@.contains(message_id),
    {
        self.seen.contains(&message_id)
    }

    /// Marks `message_id` as forwarded, and says whether it was new.
    pub fn check_and_insert(&mut self, message_id: u64) -> (fresh: bool)
        ensures
            fresh == !old(self)@.contains(message_id),
            final(self)@ == old(self)@.insert(message_id),
    {
        self.seen.insert(message_id)
    }
}

/// Whether `emoji` is the agree emoji of `cfg`.
pub fn is_agree_emoji(emoji: &ReactionEmoji, cfg: &EngineConfig) -> (r: bool)
    ensures
        r == is_agree(*emoji, cfg.agree_emoji),
{
    match emoji {
        ReactionEmoji::Custom { id } => *id == cfg.agree_emoji,
        ReactionEmoji::Unicode { .. } => false,
    }
}

/// Whether the event's message must be fetched to decide: only reactions
/// with the agree emoji can lead to a forward.
pub fn wants_message(cfg: &EngineConfig, ev: &ReactionEvent) -> (r: bool)
    ensures
        r == is_agree(ev.emoji, cfg.agree_emoji),
        !r ==> forall|facts: MessageFacts, now_ms: i64, f: Set<u64>, m: Map<u64, u64>|
            !(#[trigger] decision_of(*cfg, *ev, facts, now_ms, f, m)).is_forward(),
{
    is_agree_emoji(&ev.emoji, cfg)
}

/// The count of the agree emoji among a message's reactions: the first
/// tally of that emoji, or zero when the message has none.
pub fn agree_count(tallies: &Vec<ReactionTally>, cfg: &EngineConfig) -> (r: u64)
    ensures
        r == agree_count_of(tallies@, cfg.agree_emoji),
{
    let mut i: usize = 0;
    proof {
        assert(tallies@.skip(0) == tallies@);
    }
    while i < tallies.len()
        invariant
            i <= tallies@.len(),
            agree_count_of(tallies@, cfg.agree_emoji) == agree_count_of(
                tallies@.skip(i as int),
                cfg.agree_emoji,
            ),
        decreases tallies@.len() - i,
    {
        proof {
            assert(tallies@.skip(i as int).drop_first() == tallies@.skip(i + 1));
        }
        if is_agree_emoji(&tallies[i].emoji, cfg) {
            return tallies[i].count;
        }
        i = i + 1;
    }
    0
}

/// Whether a message sent at `sent_at_ms` is older, at `now_ms`, than
/// `recency_days` days.
pub fn is_stale(sent_at_ms: i64, recency_days: u64, now_ms: i64) -> (r: bool)
    ensures
        r == is_stale_spec(sent_at_ms, recency_days, now_ms),
{
    assert(recency_days * MILLIS_PER_DAY <= u64::MAX * MILLIS_PER_DAY) by (nonlinear_arith);
    let window: i128 = recency_days as i128 * MILLIS_PER_DAY as i128;
    let bound: i128 = sent_at_ms as i128 + window;
    bound < now_ms as i128
}

/// Decides what a reaction event leads to, and marks the message in
/// `forwarded` when it passes the emoji, threshold and recency checks. The
/// check and the mark are one step on the record, so two events on one
/// message never both forward it.
pub fn decide(
    cfg: &EngineConfig,
    ev: &ReactionEvent,
    facts: &MessageFacts,
    now_ms: i64,
    forwarded: &mut ForwardRecord,
    routes: &RoutingTable,
) -> (d: ForwardDecision)
    ensures
        d == decision_of(*cfg, *ev, *facts, now_ms, old(forwarded)@, routes@),
        final(forwarded)@ == forwarded_after(*cfg, *ev, *facts, now_ms, old(forwarded)@),
{
    if !is_agree_emoji(&ev.emoji, cfg) {
        return ForwardDecision::Skip { reason: SkipReason::OtherEmoji };
    }
    if facts.agree_count != cfg.threshold {
        return ForwardDecision::Skip { reason: SkipReason::ThresholdMissed };
    }
    if is_stale(facts.sent_at_ms, cfg.recency_days, now_ms) {
        return ForwardDecision::Skip { reason: SkipReason::Stale };
    }
    if !forwarded.check_and_insert(ev.message_id) {
        return ForwardDecision::Skip { reason: SkipReason::AlreadyForwarded };
    }
    let target = match ev.guild_id {
        Some(g) => routes.get(g),
        None => None,
    };
    match target {
        None => ForwardDecision::Skip { reason: SkipReason::NoRoute },
        Some(c) => if facts.has_components {
            ForwardDecision::ForwardByReference { target_channel: c }
        } else {
            ForwardDecision::ForwardByWebhook { target_channel: c }
        },
    }
}

/// Relies on chrono's `Utc::now` and `DateTime::timestamp_millis`: the
/// current time in milliseconds since the Unix epoch. Nothing is promised of
/// the value.
#[verifier::external_body]
fn now_millis() -> (r: i64) {
    chrono::Utc::now().timestamp_millis()
}

/// Decides on a reaction event at the current time, as `decide` does.
pub fn decide_now(
    cfg: &EngineConfig,
    ev: &ReactionEvent,
    facts: &MessageFacts,
    forwarded: &mut ForwardRecord,
    routes: &RoutingTable,
) -> (d: ForwardDecision)
    ensures
        exists|now_ms: i64|
            d == decision_of(*cfg, *ev, *facts, now_ms, old(forwarded)@, routes@)
                && final(forwarded)@ == forwarded_after(
                *cfg,
                *ev,
                *facts,
                now_ms,
                old(forwarded)@,
            ),
{
    let now_ms = now_millis();
    decide(cfg, ev, facts, now_ms, forwarded, routes)
}

/// A count other than the threshold never forwards and leaves the record of
/// forwarded messages as it was, whatever else holds: the trigger is
/// `count == threshold`, not `count >= threshold`.
pub proof fn lemma_off_threshold_never_forwards(
    cfg: EngineConfig,
    ev: ReactionEvent,
    facts: MessageFacts,
    now_ms: i64,
    forwarded: Set<u64>,
    routes: Map<u64, u64>,
)
    requires
        facts.agree_count != cfg.threshold,
    ensures
        !decision_of(cfg, ev, facts, now_ms, forwarded, routes).is_forward(),
        forwarded_after(cfg, ev, facts, now_ms, forwarded) == forwarded,
{
}

/// The record only grows; a message in it is never forwarded again, and a
/// message that is forwarded is in the record afterwards. So of two events on the same
/// message, decided one after the other on the shared record, at most one
/// forwards, whatever their counts, times and routes.
pub proof fn lemma_forwards_at_most_once(
    cfg: EngineConfig,
    first: ReactionEvent,
    first_facts: MessageFacts,
    first_now_ms: i64,
    second: ReactionEvent,
    second_facts: MessageFacts,
    second_now_ms: i64,
    forwarded: Set<u64>,
    first_routes: Map<u64, u64>,
    second_routes: Map<u64, u64>,
)
    requires
        first.message_id == second.message_id,
    ensures
        forwarded.subset_of(forwarded_after(cfg, first, first_facts, first_now_ms, forwarded)),
        forwarded.contains(first.message_id) ==> !decision_of(
            cfg,
            first,
            first_facts,
            first_now_ms,
            forwarded,
            first_routes,
        ).is_forward(),
        decision_of(cfg, first, first_facts, first_now_ms, forwarded, first_routes).is_forward()
            ==> forwarded_after(cfg, first, first_facts, first_now_ms, forwarded).contains(
            first.message_id,
        ),
        !(decision_of(cfg, first, first_facts, first_now_ms, forwarded, first_routes).is_forward()
            && decision_of(
            cfg,
            second,
            second_facts,
            second_now_ms,
            forwarded_after(cfg, first, first_facts, first_now_ms, forwarded),
            second_routes,
        ).is_forward()),
{
}

/// A message older than the recency window is never forwarded, whatever its
/// count.
pub proof fn lemma_stale_never_forwards(
    cfg: EngineConfig,
    ev: ReactionEvent,
    facts: MessageFacts,
    now_ms: i64,
    forwarded: Set<u64>,
    routes: Map<u64, u64>,
)
    requires
        facts.sent_at_ms + cfg.recency_days * MILLIS_PER_DAY < now_ms,
    ensures
        !decision_of(cfg, ev, facts, now_ms, forwarded, routes).is_forward(),
{
}

/// In a guild with no route nothing is forwarded, and the outcome is a
/// plain skip, not an error.
pub proof fn lemma_unrouted_never_forwards(
    cfg: EngineConfig,
    ev: ReactionEvent,
    facts: MessageFacts,
    now_ms: i64,
    forwarded: Set<u64>,
    routes: Map<u64, u64>,
)
    requires
        match ev.guild_id {
            Some(g) => !routes.contains_key(g),
            None => true,
        },
    ensures
        decision_of(cfg, ev, facts, now_ms, forwarded, routes) is Skip,
{
}

} // verus!
