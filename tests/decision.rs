use reaction_forwarder::decision::{
    agree_count, decide, decide_now, wants_message, EngineConfig, ForwardDecision, ForwardRecord,
    MessageFacts, ReactionEmoji, ReactionEvent, ReactionTally, SkipReason, MILLIS_PER_DAY,
};
use reaction_forwarder::routing::RoutingTable;

const AGREE: u64 = 230782152164245505;
const NOW: i64 = 1_700_000_000_000;

fn config() -> EngineConfig {
    EngineConfig { agree_emoji: AGREE, threshold: 1, recency_days: 3, admin_id: 859472531974520832 }
}

fn agree_event(message_id: u64, guild: Option<u64>) -> ReactionEvent {
    ReactionEvent {
        message_id,
        guild_id: guild,
        channel_id: 77,
        emoji: ReactionEmoji::Custom { id: AGREE },
    }
}

fn facts(count: u64, age_ms: i64, has_components: bool) -> MessageFacts {
    MessageFacts { agree_count: count, sent_at_ms: NOW - age_ms, has_components }
}

fn routed(guild: u64, channel: u64) -> RoutingTable {
    let mut t = RoutingTable::new();
    t.set(guild, channel);
    t
}

#[test]
fn first_agree_reaction_forwards_by_webhook() {
    let routes = routed(5, 900);
    let mut record = ForwardRecord::new();
    let d = decide(&config(), &agree_event(1, Some(5)), &facts(1, MILLIS_PER_DAY, false), NOW, &mut record, &routes);
    assert_eq!(d, ForwardDecision::ForwardByWebhook { target_channel: 900 });
    assert!(record.contains(1));
}

#[test]
fn second_agree_reaction_does_not_forward_again() {
    let routes = routed(5, 900);
    let mut record = ForwardRecord::new();
    let cfg = config();
    let first = decide(&cfg, &agree_event(1, Some(5)), &facts(1, MILLIS_PER_DAY, false), NOW, &mut record, &routes);
    assert!(matches!(first, ForwardDecision::ForwardByWebhook { .. }));
    let second = decide(&cfg, &agree_event(1, Some(5)), &facts(2, MILLIS_PER_DAY, false), NOW, &mut record, &routes);
    assert_eq!(second, ForwardDecision::Skip { reason: SkipReason::ThresholdMissed });
    let again = decide(&cfg, &agree_event(1, Some(5)), &facts(1, MILLIS_PER_DAY, false), NOW, &mut record, &routes);
    assert_eq!(again, ForwardDecision::Skip { reason: SkipReason::AlreadyForwarded });
}

#[test]
fn message_with_components_forwards_by_reference() {
    let routes = routed(5, 900);
    let mut record = ForwardRecord::new();
    let d = decide(&config(), &agree_event(2, Some(5)), &facts(1, MILLIS_PER_DAY, true), NOW, &mut record, &routes);
    assert_eq!(d, ForwardDecision::ForwardByReference { target_channel: 900 });
}

#[test]
fn count_other_than_threshold_never_forwards() {
    let routes = routed(5, 900);
    let mut record = ForwardRecord::new();
    for count in [0u64, 2, 3, 100] {
        let d = decide(&config(), &agree_event(3, Some(5)), &facts(count, 0, false), NOW, &mut record, &routes);
        assert_eq!(d, ForwardDecision::Skip { reason: SkipReason::ThresholdMissed });
    }
    assert!(!record.contains(3));
}

#[test]
fn threshold_of_two_triggers_only_at_two() {
    let routes = routed(5, 900);
    let mut record = ForwardRecord::new();
    let cfg = EngineConfig { threshold: 2, ..config() };
    let one = decide(&cfg, &agree_event(4, Some(5)), &facts(1, 0, false), NOW, &mut record, &routes);
    assert_eq!(one, ForwardDecision::Skip { reason: SkipReason::ThresholdMissed });
    let two = decide(&cfg, &agree_event(4, Some(5)), &facts(2, 0, false), NOW, &mut record, &routes);
    assert_eq!(two, ForwardDecision::ForwardByWebhook { target_channel: 900 });
}

#[test]
fn stale_message_is_not_forwarded() {
    let routes = routed(5, 900);
    let mut record = ForwardRecord::new();
    let d = decide(&config(), &agree_event(6, Some(5)), &facts(1, 4 * MILLIS_PER_DAY, false), NOW, &mut record, &routes);
    assert_eq!(d, ForwardDecision::Skip { reason: SkipReason::Stale });
    assert!(!record.contains(6));
}

#[test]
fn message_exactly_at_window_edge_is_still_recent() {
    let routes = routed(5, 900);
    let mut record = ForwardRecord::new();
    let d = decide(&config(), &agree_event(7, Some(5)), &facts(1, 3 * MILLIS_PER_DAY, false), NOW, &mut record, &routes);
    assert_eq!(d, ForwardDecision::ForwardByWebhook { target_channel: 900 });
    let late = decide(&config(), &agree_event(8, Some(5)), &facts(1, 3 * MILLIS_PER_DAY + 1, false), NOW, &mut record, &routes);
    assert_eq!(late, ForwardDecision::Skip { reason: SkipReason::Stale });
}

#[test]
fn unrouted_guild_skips_and_marks_message() {
    let routes = routed(5, 900);
    let mut record = ForwardRecord::new();
    let d = decide(&config(), &agree_event(9, Some(6)), &facts(1, 0, false), NOW, &mut record, &routes);
    assert_eq!(d, ForwardDecision::Skip { reason: SkipReason::NoRoute });
    assert!(record.contains(9));
    let no_guild = decide(&config(), &agree_event(10, None), &facts(1, 0, false), NOW, &mut record, &routes);
    assert_eq!(no_guild, ForwardDecision::Skip { reason: SkipReason::NoRoute });
}

#[test]
fn other_emoji_is_ignored() {
    let routes = routed(5, 900);
    let mut record = ForwardRecord::new();
    let cfg = config();
    let custom = ReactionEvent { emoji: ReactionEmoji::Custom { id: 1 }, ..agree_event(11, Some(5)) };
    let unicode = ReactionEvent { emoji: ReactionEmoji::Unicode { name: "\u{1f44d}".to_string() }, ..agree_event(11, Some(5)) };
    assert!(!wants_message(&cfg, &custom));
    assert!(!wants_message(&cfg, &unicode));
    assert!(wants_message(&cfg, &agree_event(11, Some(5))));
    let d = decide(&cfg, &custom, &facts(1, 0, false), NOW, &mut record, &routes);
    assert_eq!(d, ForwardDecision::Skip { reason: SkipReason::OtherEmoji });
    let u = decide(&cfg, &unicode, &facts(1, 0, false), NOW, &mut record, &routes);
    assert_eq!(u, ForwardDecision::Skip { reason: SkipReason::OtherEmoji });
    assert!(!record.contains(11));
}

#[test]
fn agree_count_takes_first_matching_tally_or_zero() {
    let cfg = config();
    let tallies = vec![
        ReactionTally { emoji: ReactionEmoji::Unicode { name: "x".to_string() }, count: 9 },
        ReactionTally { emoji: ReactionEmoji::Custom { id: 3 }, count: 8 },
        ReactionTally { emoji: ReactionEmoji::Custom { id: AGREE }, count: 4 },
        ReactionTally { emoji: ReactionEmoji::Custom { id: AGREE }, count: 6 },
    ];
    assert_eq!(agree_count(&tallies, &cfg), 4);
    assert_eq!(agree_count(&tallies[..2].to_vec(), &cfg), 0);
    assert_eq!(agree_count(&Vec::new(), &cfg), 0);
}

#[test]
fn check_and_insert_reports_new_once() {
    let mut record = ForwardRecord::new();
    assert!(record.check_and_insert(42));
    assert!(!record.check_and_insert(42));
    assert!(record.contains(42));
    assert!(!record.contains(43));
}

#[test]
fn decide_now_uses_current_time() {
    let routes = routed(5, 900);
    let mut record = ForwardRecord::new();
    let now = chrono::Utc::now().timestamp_millis();
    let recent = MessageFacts { agree_count: 1, sent_at_ms: now - MILLIS_PER_DAY, has_components: false };
    let d = decide_now(&config(), &agree_event(20, Some(5)), &recent, &mut record, &routes);
    assert_eq!(d, ForwardDecision::ForwardByWebhook { target_channel: 900 });
    let old = MessageFacts { agree_count: 1, sent_at_ms: now - 10 * MILLIS_PER_DAY, has_components: false };
    let s = decide_now(&config(), &agree_event(21, Some(5)), &old, &mut record, &routes);
    assert_eq!(s, ForwardDecision::Skip { reason: SkipReason::Stale });
}
