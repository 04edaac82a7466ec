use reaction_forwarder::command::{command_target, is_ws_char, parse_set_channel, parse_u64_range};
use reaction_forwarder::decision::EngineConfig;

const ADMIN: u64 = 859472531974520832;

fn config() -> EngineConfig {
    EngineConfig { agree_emoji: 230782152164245505, threshold: 1, recency_days: 3, admin_id: ADMIN }
}

#[test]
fn parses_command_with_identifier() {
    assert_eq!(parse_set_channel(".setchanid 123456789012345678"), Some(123456789012345678));
    assert_eq!(parse_set_channel("  .setchanid\t42   extra words "), Some(42));
    assert_eq!(parse_set_channel("\u{3000}.setchanid\u{a0}9"), Some(9));
    assert_eq!(parse_set_channel(".setchanid +7"), Some(7));
    assert_eq!(parse_set_channel(".setchanid 18446744073709551615"), Some(u64::MAX));
    assert_eq!(parse_set_channel(".setchanidfoo 5"), Some(5));
}

#[test]
fn rejects_malformed_commands() {
    assert_eq!(parse_set_channel(".setchanid"), None);
    assert_eq!(parse_set_channel(".setchanid   "), None);
    assert_eq!(parse_set_channel(".setchanid abc"), None);
    assert_eq!(parse_set_channel(".setchanid 12a"), None);
    assert_eq!(parse_set_channel(".setchanid -5"), None);
    assert_eq!(parse_set_channel(".setchanid +"), None);
    assert_eq!(parse_set_channel(".setchanid 18446744073709551616"), None);
    assert_eq!(parse_set_channel(".setchanid 99999999999999999999999"), None);
    assert_eq!(parse_set_channel("hello .setchanid 5"), None);
    assert_eq!(parse_set_channel(".setchan 5"), None);
    assert_eq!(parse_set_channel(""), None);
}

#[test]
fn parses_decimal_ranges_like_std() {
    let s = "x+0042y";
    assert_eq!(parse_u64_range(s, 1, 6), Some(42));
    assert_eq!(parse_u64_range(s, 2, 6), Some(42));
    assert_eq!(parse_u64_range(s, 1, 2), None);
    assert_eq!(parse_u64_range(s, 3, 3), None);
    assert_eq!(parse_u64_range(s, 2, 7), None);
    for t in ["0", "17", "+3", "18446744073709551615"] {
        assert_eq!(parse_u64_range(t, 0, t.len()), t.parse::<u64>().ok());
    }
}

#[test]
fn white_space_matches_std() {
    for c in ['\t', '\n', ' ', '\u{85}', '\u{a0}', '\u{2003}', '\u{3000}', 'a', '.', '\u{200b}'] {
        assert_eq!(is_ws_char(c), c.is_whitespace());
    }
}

#[test]
fn only_owner_or_admin_person_may_set() {
    let cfg = config();
    let text = ".setchanid 321";
    assert_eq!(command_target(&cfg, false, 10, 10, text), Some(321));
    assert_eq!(command_target(&cfg, false, ADMIN, 10, text), Some(321));
    assert_eq!(command_target(&cfg, false, 11, 10, text), None);
    assert_eq!(command_target(&cfg, true, 10, 10, text), None);
    assert_eq!(command_target(&cfg, false, 10, 10, ".setchanid x"), None);
}
