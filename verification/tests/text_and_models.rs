use agent_sessions::models::{AgentType, MessageRole};
use agent_sessions::text::{decimal_string, is_blank, prefix_chars, split_lines, join_text};
use agent_sessions::time::UtcTime;

#[test]
fn lines_split_at_newlines_and_drop_carriage_returns() {
    assert_eq!(split_lines("a\nb"), vec!["a".to_string(), "b".to_string()]);
    assert_eq!(split_lines("a\r\nb\n"), vec!["a".to_string(), "b".to_string()]);
    assert_eq!(split_lines(""), Vec::<String>::new());
    assert_eq!(split_lines("\n"), vec!["".to_string()]);
    assert_eq!(split_lines("x\r"), vec!["x\r".to_string()]);
    assert_eq!(split_lines("a\n\nb"), vec!["a".to_string(), "".to_string(), "b".to_string()]);
}

#[test]
fn lines_agree_with_std() {
    for text in ["one\ntwo\r\nthree", "\r\n\r\n", "tail\r", "ü\nß\r\n€"] {
        let ours = split_lines(text);
        let theirs: Vec<String> = text.lines().map(|l| l.to_string()).collect();
        assert_eq!(ours, theirs);
    }
}

#[test]
fn blank_lines_are_white_space_only() {
    assert!(is_blank(""));
    assert!(is_blank(" \t\r\u{3000}\u{a0}"));
    assert!(!is_blank("  x "));
    for text in ["", " ", "a", "\u{2028}", "\u{200b}", "\u{85}\u{1680}"] {
        assert_eq!(is_blank(text), text.trim().is_empty());
    }
}

#[test]
fn decimal_numerals() {
    assert_eq!(decimal_string(0), "0");
    assert_eq!(decimal_string(7), "7");
    assert_eq!(decimal_string(10), "10");
    assert_eq!(decimal_string(4294967295), "4294967295");
    assert_eq!(decimal_string(u64::MAX), u64::MAX.to_string());
}

#[test]
fn prefixes_count_characters() {
    assert_eq!(prefix_chars("héllo", 2), "hé");
    assert_eq!(prefix_chars("abc", 10), "abc");
    assert_eq!(prefix_chars("", 3), "");
    assert_eq!(join_text("ab", "cd"), "abcd");
}

#[test]
fn agent_names_round_trip() {
    for a in [AgentType::ClaudeCode, AgentType::Codex, AgentType::Cursor] {
        assert_eq!(AgentType::from_str(a.as_str()), Some(a));
    }
    assert_eq!(AgentType::Codex.as_str(), "codex");
    assert_eq!(AgentType::from_str("gemini"), None);
    assert_eq!(AgentType::from_str("Codex"), None);
}

#[test]
fn role_names_round_trip() {
    for r in [MessageRole::User, MessageRole::Assistant, MessageRole::System, MessageRole::Tool] {
        assert_eq!(MessageRole::from_str(r.as_str()), Some(r));
    }
    assert_eq!(MessageRole::Assistant.as_str(), "assistant");
    assert_eq!(MessageRole::from_str("human"), None);
}

#[test]
fn rfc3339_times() {
    let t = UtcTime::parse_rfc3339("2024-01-02T03:04:05Z").unwrap();
    assert_eq!(t.timestamp(), 1704164645);
    assert_eq!(t.subsec_nanos(), 0);
    let u = UtcTime::parse_rfc3339("2024-01-02T04:04:05.5+01:00").unwrap();
    assert_eq!(u.timestamp(), 1704164645);
    assert_eq!(u.subsec_nanos(), 500_000_000);
    assert!(UtcTime::parse_rfc3339("yesterday").is_none());
    assert_eq!(UtcTime::epoch().to_rfc3339(), "1970-01-01T00:00:00+00:00");
    assert_eq!(t.to_rfc3339(), "2024-01-02T03:04:05+00:00");
}

#[test]
fn timestamps_out_of_range() {
    assert!(UtcTime::from_timestamp(0, 2_000_000_000).is_none());
    assert!(UtcTime::from_timestamp(i64::MAX, 0).is_none());
    let t = UtcTime::from_timestamp(86_400, 7).unwrap();
    assert_eq!((t.timestamp(), t.subsec_nanos()), (86_400, 7));
    assert_eq!(UtcTime::epoch().timestamp(), 0);
    assert!(UtcTime::now().timestamp() > 1_600_000_000);
    assert!(UtcTime::now().is_representable());
}

#[test]
fn representable_range_edges() {
    assert!(UtcTime::from_timestamp(-8_334_601_228_800, 0).is_some());
    assert!(UtcTime::from_timestamp(-8_334_601_228_801, 0).is_none());
    assert!(UtcTime::from_timestamp(8_210_266_876_799, 999_999_999).is_some());
    assert!(UtcTime::from_timestamp(8_210_266_876_800, 0).is_none());
    assert!(UtcTime::from_timestamp(59, 1_500_000_000).is_some());
    assert!(UtcTime::from_timestamp(58, 1_500_000_000).is_none());
    assert!(UtcTime::from_timestamp(-1, 1_999_999_999).is_some());
}

#[test]
fn rfc3339_text_reads_back_in_four_digit_years() {
    let cases: [(i64, u32); 7] = [
        (0, 0),
        (1_700_000_000, 123_000_000),
        (1_700_000_000, 123_456_000),
        (1_700_000_000, 123_456_789),
        (1_700_000_039, 1_500_000_000),
        (-62_167_219_200, 0),
        (253_402_300_799, 999_999_999),
    ];
    for (secs, nanos) in cases {
        let t = UtcTime::from_timestamp(secs, nanos).unwrap();
        let back = UtcTime::parse_rfc3339(&t.to_rfc3339()).unwrap();
        assert_eq!((back.timestamp(), back.subsec_nanos()), (secs, nanos));
    }
    let leap = UtcTime::from_timestamp(1_700_000_039, 1_500_000_000).unwrap();
    assert_eq!(leap.to_rfc3339(), "2023-11-14T22:13:60.500+00:00");
    let late = UtcTime::from_timestamp(253_402_300_800, 0).unwrap();
    assert_eq!(late.to_rfc3339(), "+10000-01-01T00:00:00+00:00");
    assert!(UtcTime::parse_rfc3339(&late.to_rfc3339()).is_none());
}
