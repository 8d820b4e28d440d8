use shimmie_bot::text::{parse_id, push_decimal, push_signed, str_eq};

fn decimal(n: u64) -> String {
    let mut s = String::new();
    push_decimal(&mut s, n);
    s
}

fn signed(i: i64) -> String {
    let mut s = String::from("id=");
    push_signed(&mut s, i);
    s
}

#[test]
fn decimal_renders_like_display() {
    assert_eq!(decimal(0), "0");
    assert_eq!(decimal(7), "7");
    assert_eq!(decimal(10), "10");
    assert_eq!(decimal(12345), "12345");
    assert_eq!(decimal(u64::MAX), u64::MAX.to_string());
}

#[test]
fn signed_renders_like_display() {
    assert_eq!(signed(0), "id=0");
    assert_eq!(signed(-1), "id=-1");
    assert_eq!(signed(42), "id=42");
    assert_eq!(signed(i64::MIN), format!("id={}", i64::MIN));
    assert_eq!(signed(i64::MAX), format!("id={}", i64::MAX));
}

#[test]
fn parse_id_reads_like_u64_from_str() {
    for text in ["0", "7", "+5", "007", "1351307021340639374", "18446744073709551615", "18446744073709551616",
        "", "+", "-", "-1", "-0", "12a", " 1", "1 ", "++1", "99999999999999999999999"] {
        assert_eq!(parse_id(text), text.parse::<u64>().ok(), "on {:?}", text);
    }
}

#[test]
fn parse_id_round_trips_decimal() {
    for n in [0u64, 1, 9, 10, 99, 100, 4096, 1351307021340639374, u64::MAX] {
        assert_eq!(parse_id(&decimal(n)), Some(n));
    }
}

#[test]
fn str_eq_compares_characters() {
    assert!(str_eq("gif", "gif"));
    assert!(!str_eq("gif", "gifs"));
    assert!(!str_eq("GIF", "gif"));
    assert!(str_eq("", ""));
    assert!(str_eq("fuchs🦊", "fuchs🦊"));
    assert!(!str_eq("fuchs🦊", "fuchs🐺"));
}
