use voice_notice::handler::Handler;
use voice_notice::notice::{
    build_notice, describe, jst_time, resolve_display_name, JOIN_RGB, LEAVE_RGB, NOTICE_TITLE,
    UNKNOWN_USER,
};
use voice_notice::settings::parse_id;
use voice_notice::{
    classify, ConfigError, Decision, NoticeColor, PresenceSnapshot, SecretKey, Settings,
    SkipReason, Transition,
};

const G: u64 = 1_000_000_000_000_000_001;
const H: u64 = 42;
const LOG: u64 = 555;
const C1: u64 = 10;
const C2: u64 = 20;

fn snap(guild_id: Option<u64>, channel_id: Option<u64>) -> PresenceSnapshot {
    PresenceSnapshot { user_id: 7, guild_id, channel_id }
}

fn handler() -> Handler {
    Handler::new(Settings { discord_token: "token".to_string(), guild_id: G, log_channel_id: LOG })
}

#[test]
fn no_previous_state_is_a_join() {
    assert_eq!(classify(None, snap(Some(G), Some(C1))), Transition::Joined);
    assert_eq!(classify(None, snap(Some(H), Some(C2))), Transition::Joined);
}

#[test]
fn leaving_every_channel_is_a_leave() {
    assert_eq!(classify(Some(snap(Some(G), Some(C1))), snap(Some(G), None)), Transition::Left);
}

#[test]
fn staying_or_moving_is_other() {
    assert_eq!(classify(Some(snap(Some(G), Some(C1))), snap(Some(G), Some(C1))), Transition::Other);
    assert_eq!(classify(Some(snap(Some(G), Some(C1))), snap(Some(G), Some(C2))), Transition::Other);
    let mut other_user = snap(Some(G), Some(C2));
    other_user.user_id = 8;
    assert_eq!(classify(Some(snap(Some(G), Some(C1))), other_user), Transition::Other);
}

#[test]
fn other_guild_is_skipped() {
    let h = handler();
    assert_eq!(h.voice_state_update(None, snap(Some(H), Some(C1))), Decision::Skip(SkipReason::OtherGuild));
    assert_eq!(
        h.voice_state_update(Some(snap(Some(H), Some(C1))), snap(Some(H), None)),
        Decision::Skip(SkipReason::OtherGuild)
    );
}

#[test]
fn missing_guild_is_skipped() {
    let h = handler();
    assert_eq!(h.voice_state_update(None, snap(None, Some(C1))), Decision::Skip(SkipReason::MissingGuild));
}

#[test]
fn display_name_fallback_order() {
    assert_eq!(resolve_display_name(Some("A".to_string()), Some("B".to_string())), "A");
    assert_eq!(resolve_display_name(None, Some("B".to_string())), "B");
    assert_eq!(resolve_display_name(None, None), "Unknown user");
    assert_eq!(UNKNOWN_USER, "Unknown user");
}

#[test]
fn formatting_is_repeatable() {
    let a = build_notice(Transition::Left, "Bob", 1_700_000_000, 5);
    let b = build_notice(Transition::Left, "Bob", 1_700_000_000, 5);
    assert_eq!(a.title, b.title);
    assert_eq!(a.description, b.description);
    assert_eq!(a.color, b.color);
    assert_eq!(a.timestamp, b.timestamp);
    let c = build_notice(Transition::Left, "Bob", 1_800_000_000, 0);
    assert_eq!(a.description, c.description);
    assert_ne!(a.timestamp, c.timestamp);
}

#[test]
fn join_scenario_dispatches_positive_notice() {
    let h = handler();
    let d = h.voice_state_update(None, snap(Some(G), Some(C1)));
    assert_eq!(d, Decision::Announce(Transition::Joined));
    let out = h.notice_for(Transition::Joined, None, Some("Alice".to_string()), 1_700_000_000, 0);
    assert_eq!(out.channel_id, LOG);
    assert_eq!(out.notice.title, NOTICE_TITLE);
    assert_eq!(out.notice.title, "Voice Channel Notice");
    assert_eq!(out.notice.description, "**Alice** がVCに入りました");
    assert!(out.notice.description.contains("Alice"));
    assert_eq!(out.notice.color, NoticeColor::Positive);
    assert_eq!(out.notice.color.rgb(), 0x2aed24);
    assert_eq!(out.notice.timestamp.unix_seconds, 1_700_000_000);
    assert_eq!(out.notice.timestamp.utc_offset_seconds, 9 * 3600);
}

#[test]
fn leave_scenario_dispatches_negative_notice() {
    let h = handler();
    let d = h.voice_state_update(Some(snap(Some(G), Some(C1))), snap(Some(G), None));
    assert_eq!(d, Decision::Announce(Transition::Left));
    let out = h.notice_for(Transition::Left, Some("Ali".to_string()), Some("Alice".to_string()), 0, 0);
    assert_eq!(out.channel_id, LOG);
    assert_eq!(out.notice.description, "**Ali** がVCから抜けました");
    assert_eq!(out.notice.color, NoticeColor::Negative);
    assert_eq!(out.notice.color.rgb(), LEAVE_RGB);
    assert_ne!(JOIN_RGB, LEAVE_RGB);
}

#[test]
fn channel_move_scenario_dispatches_nothing() {
    let h = handler();
    let d = h.voice_state_update(Some(snap(Some(G), Some(C1))), snap(Some(G), Some(C2)));
    assert_eq!(d, Decision::Skip(SkipReason::NotAnnounced));
}

#[test]
fn other_guild_scenario_dispatches_nothing() {
    let h = handler();
    for (prev, cur) in [
        (None, snap(Some(H), Some(C1))),
        (Some(snap(Some(H), Some(C1))), snap(Some(H), None)),
        (Some(snap(Some(H), Some(C1))), snap(Some(H), Some(C2))),
    ] {
        assert_eq!(h.voice_state_update(prev, cur), Decision::Skip(SkipReason::OtherGuild));
    }
}

#[test]
fn describe_names_member_verbatim() {
    assert_eq!(describe(Transition::Joined, "<@x*>"), "**<@x*>** がVCに入りました");
    assert_eq!(describe(Transition::Left, ""), "**** がVCから抜けました");
}

#[test]
fn jst_time_uses_nine_hour_offset() {
    let t = jst_time(-5, 999);
    assert_eq!(t.unix_seconds, -5);
    assert_eq!(t.nanos, 999);
    assert_eq!(t.utc_offset_seconds, 32400);
}

#[test]
fn parse_id_accepts_decimal_u64() {
    assert_eq!(parse_id("0"), Some(0));
    assert_eq!(parse_id("1234567890"), Some(1234567890));
    assert_eq!(parse_id("18446744073709551615"), Some(u64::MAX));
}

#[test]
fn parse_id_rejects_bad_input() {
    assert_eq!(parse_id(""), None);
    assert_eq!(parse_id("18446744073709551616"), None);
    assert_eq!(parse_id("99999999999999999999x"), None);
    assert_eq!(parse_id("12a"), None);
    assert_eq!(parse_id("-1"), None);
    assert_eq!(parse_id(" 1"), None);
}

#[test]
fn settings_from_secrets() {
    let s = Settings::from_secrets(Some("tok".to_string()), Some("12".to_string()), Some("34".to_string())).unwrap();
    assert_eq!(s.discord_token, "tok");
    assert_eq!(s.guild_id, 12);
    assert_eq!(s.log_channel_id, 34);
}

#[test]
fn settings_errors_in_order() {
    let e = |t: Option<&str>, g: Option<&str>, l: Option<&str>| {
        Settings::from_secrets(t.map(String::from), g.map(String::from), l.map(String::from)).unwrap_err()
    };
    assert_eq!(e(None, None, None), ConfigError::Missing(SecretKey::DiscordToken));
    assert_eq!(e(Some("t"), None, Some("x")), ConfigError::Missing(SecretKey::GuildId));
    assert_eq!(e(Some("t"), Some("x"), None), ConfigError::Unparsable(SecretKey::GuildId));
    assert_eq!(e(Some("t"), Some("1"), None), ConfigError::Missing(SecretKey::LogChannelId));
    assert_eq!(e(Some("t"), Some("1"), Some("")), ConfigError::Unparsable(SecretKey::LogChannelId));
    assert_eq!(SecretKey::GuildId.name(), "GUILD_ID");
    assert_eq!(SecretKey::LogChannelId.name(), "LOG_CHANNEL_ID");
    assert_eq!(SecretKey::DiscordToken.name(), "DISCORD_TOKEN");
}

#[test]
fn actionable_transitions() {
    assert!(Transition::Joined.actionable());
    assert!(Transition::Left.actionable());
    assert!(!Transition::Other.actionable());
}

#[test]
fn parse_id_accepts_one_leading_plus() {
    assert_eq!(parse_id("+5"), Some(5));
    assert_eq!(parse_id("+0"), Some(0));
    assert_eq!(parse_id("+18446744073709551615"), Some(u64::MAX));
}

#[test]
fn parse_id_rejects_misplaced_signs() {
    assert_eq!(parse_id("+"), None);
    assert_eq!(parse_id("++5"), None);
    assert_eq!(parse_id("+-5"), None);
    assert_eq!(parse_id("5+"), None);
    assert_eq!(parse_id("+ 5"), None);
    assert_eq!(parse_id("+18446744073709551616"), None);
}

#[test]
fn settings_accept_signed_ids() {
    let s = Settings::from_secrets(Some("t".to_string()), Some("+5".to_string()), Some("6".to_string())).unwrap();
    assert_eq!(s.guild_id, 5);
    assert_eq!(s.log_channel_id, 6);
}
