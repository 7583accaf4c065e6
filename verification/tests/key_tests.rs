use image_gateway::key::{
    build_key, compose_key, replace_spaces, sanitize, Timestamp, DISALLOWED, OBJECT_KEY_PREFIX,
    TIMESTAMP_LAYOUT,
};

fn at(secs: i64) -> Timestamp {
    Timestamp::from_unix_seconds(secs).expect("instant within the layout's span")
}

#[test]
fn constants_have_their_values() {
    assert_eq!(OBJECT_KEY_PREFIX, "images");
    assert_eq!(TIMESTAMP_LAYOUT, "%d-%m-%Y_%H:%M:%S");
    assert_eq!(DISALLOWED, "[^a-zA-Z0-9.]");
}

#[test]
fn replace_spaces_turns_each_space_into_an_underscore() {
    assert_eq!(replace_spaces("My Photo!.png"), "My_Photo!.png");
    assert_eq!(replace_spaces("  a  b "), "__a__b_");
    assert_eq!(replace_spaces("no-space"), "no-space");
    assert_eq!(replace_spaces(""), "");
    assert_eq!(replace_spaces("tab\there"), "tab\there");
}

#[test]
fn sanitize_removes_spaces_and_symbols() {
    assert_eq!(sanitize("My Photo!.png"), "MyPhoto.png");
    assert_eq!(sanitize("a b_c-d(e)[f]{g}.JPG"), "abcdefg.JPG");
    assert_eq!(sanitize("report 2024 (final) v1.2.tar.gz"), "report2024finalv1.2.tar.gz");
}

#[test]
fn sanitize_keeps_allowed_characters_in_order() {
    assert_eq!(sanitize("zyx.CBA.321"), "zyx.CBA.321");
    assert_eq!(sanitize("z!y@x#.$C%B^A&.*3(2)1"), "zyx.CBA.321");
    assert_eq!(sanitize("..a..b.."), "..a..b..");
}

#[test]
fn sanitize_does_not_fold_case() {
    assert_eq!(sanitize("MiXeD CaSe.PnG"), "MiXeDCaSe.PnG");
}

#[test]
fn sanitize_removes_underscores_and_line_breaks() {
    assert_eq!(sanitize("a_b"), "ab");
    assert_eq!(sanitize("a\nb\r\nc\td"), "abcd");
    assert_eq!(sanitize("/etc/../passwd"), "etc..passwd");
}

#[test]
fn sanitize_removes_characters_outside_ascii() {
    assert_eq!(sanitize("caf\u{e9}.png"), "caf.png");
    assert_eq!(sanitize("\u{5199}\u{771f}.jpg"), ".jpg");
    assert_eq!(sanitize("\u{0663}\u{ff21}x"), "x");
    assert_eq!(sanitize("\u{1f600}"), "");
}

#[test]
fn sanitize_of_nothing_allowed_is_empty() {
    assert_eq!(sanitize(""), "");
    assert_eq!(sanitize("   "), "");
    assert_eq!(sanitize("!@#$%^&*()"), "");
}

#[test]
fn sanitize_is_idempotent() {
    for name in ["My Photo!.png", "a b c", "", "caf\u{e9} au lait.jpeg", "x_y_z", "..", "A-1 B-2"] {
        let once = sanitize(name);
        let twice = sanitize(&once);
        assert_eq!(once, twice);
        assert!(once.chars().all(|c| c.is_ascii_alphanumeric() || c == '.'));
    }
}

#[test]
fn compose_key_joins_the_four_parts() {
    assert_eq!(
        compose_key("images", "14-12-2022_01:01:01", "customer", "somecustomer.jpg"),
        "images/14-12-2022_01:01:01_customer_somecustomer.jpg"
    );
    assert_eq!(compose_key("", "", "", ""), "/__");
    assert_eq!(compose_key("p", "s", "c d", "n"), "p/s_c d_n");
}

#[test]
fn build_key_at_a_fixed_instant() {
    let key = build_key("images", "avatar", "My Photo!.png", &at(1_670_979_661));
    assert_eq!(key, "images/14-12-2022_01:01:01_avatar_MyPhoto.png");
}

#[test]
fn build_key_at_the_epoch() {
    let key = build_key("images", "customer", "some customer.jpg", &at(0));
    assert_eq!(key, "images/01-01-1970_00:00:00_customer_somecustomer.jpg");
}

#[test]
fn build_key_takes_the_category_as_given() {
    let key = build_key("images", "my cat/egory!", "a b.png", &at(1_000_000_000));
    assert_eq!(key, "images/09-09-2001_01:46:40_my cat/egory!_ab.png");
}

#[test]
fn build_key_with_empty_names() {
    let key = build_key("images", "", "", &at(1_234_567_890));
    assert_eq!(key, "images/13-02-2009_23:31:30__");
}

#[test]
fn build_key_collides_within_one_second() {
    let first = build_key("images", "avatar", "a.png", &at(1_700_000_000));
    let second = build_key("images", "avatar", "a.png", &at(1_700_000_000));
    let later = build_key("images", "avatar", "a.png", &at(1_700_000_001));
    assert_eq!(first, second);
    assert_ne!(first, later);
}

#[test]
fn build_key_starts_with_the_prefix_and_a_slash() {
    for (category, name, secs) in
        [("avatar", "a.png", 0i64), ("", "", 86_399), ("x y", "!!!", -1), ("c", "n", 4_102_444_800)]
    {
        let key = build_key(OBJECT_KEY_PREFIX, category, name, &at(secs));
        assert!(key.starts_with("images/"));
        assert_ne!(key, "images/");
    }
}

#[test]
fn build_key_before_the_epoch() {
    let key = build_key("images", "c", "n", &at(-1));
    assert_eq!(key, "images/31-12-1969_23:59:59_c_n");
}

#[test]
fn build_key_on_a_leap_day() {
    let key = build_key("images", "c", "n", &at(1_709_209_800));
    assert_eq!(key, "images/29-02-2024_12:30:00_c_n");
}

#[test]
fn timestamp_span_starts_with_the_year_zero() {
    assert!(Timestamp::from_unix_seconds(-62_167_219_201).is_none());
    let first = at(-62_167_219_200);
    assert_eq!(first.unix_seconds(), -62_167_219_200);
    assert_eq!(build_key("images", "c", "n", &first), "images/01-01-0000_00:00:00_c_n");
}

#[test]
fn timestamp_span_ends_with_the_year_9999() {
    assert!(Timestamp::from_unix_seconds(253_402_300_800).is_none());
    let last = at(253_402_300_799);
    assert_eq!(last.unix_seconds(), 253_402_300_799);
    assert_eq!(build_key("images", "c", "n", &last), "images/31-12-9999_23:59:59_c_n");
}

#[test]
fn timestamp_rejects_the_ends_of_the_integer_range() {
    assert!(Timestamp::from_unix_seconds(i64::MIN).is_none());
    assert!(Timestamp::from_unix_seconds(i64::MAX).is_none());
}

#[test]
fn timestamp_keeps_its_seconds() {
    for secs in [0i64, 1, -1, 1_670_979_661, 253_402_300_799] {
        assert_eq!(at(secs).unix_seconds(), secs);
    }
    assert_eq!(at(5), at(5));
    assert_ne!(at(5), at(6));
}

#[test]
fn build_key_stamp_has_the_shape_of_the_layout() {
    for secs in [-62_167_219_200i64, -1, 0, 951_782_400, 1_670_979_661, 32_503_680_000, 253_402_300_799] {
        let key = build_key("images", "c", "n", &at(secs));
        let stamp: Vec<char> = key.chars().skip(7).take(19).collect();
        assert_eq!(key.len(), 7 + 19 + 4);
        for (i, c) in stamp.iter().enumerate() {
            match i {
                2 | 5 => assert_eq!(*c, '-'),
                10 => assert_eq!(*c, '_'),
                13 | 16 => assert_eq!(*c, ':'),
                _ => assert!(c.is_ascii_digit()),
            }
        }
    }
}
