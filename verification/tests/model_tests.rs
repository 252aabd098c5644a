use null_chat::model::{
    format_ts, generate_server_code, now_unix, push_ellipsis, short_id, user_color_index,
    user_initials, GroupMember, UserProfile, WireKind, WireMessage,
};
use null_chat::text::{digit_char, push_two_digits};

#[test]
fn format_ts_examples() {
    assert_eq!(format_ts(0), "00:00");
    assert_eq!(format_ts(3661), "01:01");
    assert_eq!(format_ts(86399), "23:59");
    assert_eq!(format_ts(86400 + 3600 * 13 + 60 * 7 + 59), "13:07");
}

#[test]
fn format_ts_large_value() {
    assert_eq!(format_ts(u64::MAX), "07:00");
}

#[test]
fn now_unix_is_after_2020() {
    assert!(now_unix() > 1_577_836_800);
}

#[test]
fn user_color_index_examples() {
    assert_eq!(user_color_index("alice"), 1);
    assert_eq!(user_color_index("bob"), 2);
    assert_eq!(user_color_index(""), 5);
}

#[test]
fn user_color_index_reads_only_sixteen_bytes() {
    assert_eq!(user_color_index("0123456789abcdef"), 1);
    assert_eq!(user_color_index("0123456789abcdefXYZ"), 1);
    assert_eq!(
        user_color_index("0123456789abcdef-anything"),
        user_color_index("0123456789abcdef")
    );
}

#[test]
fn user_initials_two_words() {
    assert_eq!(user_initials("alice bob"), "AB");
    assert_eq!(user_initials("  ada   lovelace  king"), "AL");
}

#[test]
fn user_initials_one_word() {
    assert_eq!(user_initials("zed"), "Z");
    assert_eq!(user_initials("  x"), "X");
}

#[test]
fn user_initials_no_word() {
    assert_eq!(user_initials(""), "?");
    assert_eq!(user_initials(" \t\n "), "?");
}

#[test]
fn user_initials_unicode() {
    assert_eq!(user_initials("émile zola"), "ÉZ");
    assert_eq!(user_initials("straße"), "S");
    assert_eq!(user_initials("ßen"), "SS");
}

#[test]
fn short_id_examples() {
    assert_eq!(short_id("short"), "short");
    assert_eq!(short_id("exactly12chr"), "exactly12chr");
    assert_eq!(short_id("abcdefghijklmnop"), "abcdefghij...");
}

#[test]
fn push_ellipsis_appends() {
    let mut s = String::from("abc");
    push_ellipsis(&mut s);
    assert_eq!(s, "abc...");
}

#[test]
fn server_code_shape() {
    for _ in 0..20 {
        let code = generate_server_code();
        assert_eq!(code.len(), 8);
        assert!(code.chars().all(|c| "ABCDEFGHJKLMNPQRSTUVWXYZ23456789".contains(c)));
    }
}

#[test]
fn digits_helpers() {
    assert_eq!(digit_char(0), '0');
    assert_eq!(digit_char(9), '9');
    let mut s = String::new();
    push_two_digits(&mut s, 7);
    push_two_digits(&mut s, 42);
    assert_eq!(s, "0742");
}

#[test]
fn model_values_hold_fields() {
    let profile = UserProfile { display_name: "me".to_string(), user_id: "id".to_string(), created_at: 5 };
    assert_eq!(profile.created_at, 5);
    let member = GroupMember { user_id: "u".to_string(), display_name: "U".to_string() };
    assert_eq!(member.display_name, "U");
    let wire = WireMessage {
        kind: WireKind::GroupMessage { group_id: "g".to_string() },
        from_id: "a".to_string(),
        from_name: "A".to_string(),
        target_id: "g".to_string(),
        body: "hi".to_string(),
        timestamp: 1,
    };
    assert!(matches!(wire.kind, WireKind::GroupMessage { ref group_id } if group_id == "g"));
}
