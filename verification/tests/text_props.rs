use borkcraft::err_tools::ErrorX;
use borkcraft::increment::Inc;
use borkcraft::string_tools::{newliner, tabber};
use borkcraft::text::{i64_to_string, parse_i32, quote_wrap, str_eq, str_lt, strip_quotes};

#[test]
fn renders_integers_in_decimal() {
    assert_eq!(i64_to_string(0), "0");
    assert_eq!(i64_to_string(7), "7");
    assert_eq!(i64_to_string(10), "10");
    assert_eq!(i64_to_string(64), "64");
    assert_eq!(i64_to_string(-5), "-5");
    assert_eq!(i64_to_string(2147483647), "2147483647");
    assert_eq!(i64_to_string(-2147483648), "-2147483648");
}

#[test]
fn parses_integers_like_std() {
    assert_eq!(parse_i32("0"), Some(0));
    assert_eq!(parse_i32("10"), Some(10));
    assert_eq!(parse_i32("-5"), Some(-5));
    assert_eq!(parse_i32("+64"), Some(64));
    assert_eq!(parse_i32("2147483647"), Some(2147483647));
    assert_eq!(parse_i32("-2147483648"), Some(-2147483648));
    assert_eq!(parse_i32("2147483648"), None);
    assert_eq!(parse_i32("-2147483649"), None);
    assert_eq!(parse_i32(""), None);
    assert_eq!(parse_i32("-"), None);
    assert_eq!(parse_i32("+"), None);
    assert_eq!(parse_i32("12a"), None);
    assert_eq!(parse_i32("a12"), None);
    assert_eq!(parse_i32(" 12"), None);
    assert_eq!(parse_i32("99999999999999999999"), None);
}

#[test]
fn render_then_parse_gives_the_integer_back() {
    for v in [0i64, 1, -1, 9, 10, 99, 100, -2147483648, 2147483647, 123456789] {
        let s = i64_to_string(v);
        assert_eq!(parse_i32(&s), Some(v as i32));
    }
}

#[test]
fn quote_wrap_and_strip_round_trip() {
    assert_eq!(quote_wrap("Overworld"), "\"Overworld\"");
    assert_eq!(strip_quotes("\"Overworld\""), "Overworld");
    assert_eq!(strip_quotes(quote_wrap("spawn").as_str()), "spawn");
    assert_eq!(strip_quotes(quote_wrap("").as_str()), "");
    // every double quote goes, inner ones included
    assert_eq!(strip_quotes("a\"b\"c"), "abc");
}

#[test]
fn lexicographic_order_on_strings() {
    assert!(str_lt("a", "b"));
    assert!(!str_lt("b", "a"));
    assert!(!str_lt("a", "a"));
    assert!(str_lt("a", "ab"));
    assert!(!str_lt("ab", "a"));
    assert!(str_lt("", "a"));
    assert!(str_lt("Alpha", "alpha"));
    assert!(str_lt("Luke", "Steve"));
    assert!(str_eq("same", "same"));
    assert!(!str_eq("same", "Same"));
}

#[test]
fn layout_string_builders() {
    assert_eq!(newliner(3), "\n\n\n");
    assert_eq!(tabber(2), "\t\t");
    assert_eq!(newliner(0), "");
}

#[test]
fn counter_counts_and_renders() {
    let mut inc = Inc::new();
    assert_eq!(inc.up(), 1);
    assert_eq!(inc.up(), 2);
    assert_eq!(inc.up_str(), "3");
    assert_eq!(inc.reset(), 0);
    assert_eq!(inc.up(), 1);
}

#[test]
fn error_carries_its_message() {
    let e = ErrorX::new("something broke");
    assert_eq!(e.message(), "something broke");
    let b = ErrorX::new_box("boxed");
    assert_eq!(b.message(), "boxed");
}
