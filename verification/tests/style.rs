//! The compact text of an ordered list's style.
use djot_ast::block::{FenceStyle, NumberStyle, OrderedListStyle};
use djot_ast::Error;

const NUMBERS: [(NumberStyle, char); 5] = [
    (NumberStyle::Arabic, '1'),
    (NumberStyle::LowerAlpha, 'a'),
    (NumberStyle::UpperAlpha, 'A'),
    (NumberStyle::LowerRoman, 'i'),
    (NumberStyle::UpperRoman, 'I'),
];

fn invalid(s: &str) -> Error {
    Error::General(format!("invalid ordered list style '{}'", s))
}

#[test]
fn every_style_comes_back_from_its_text() {
    let fences = [FenceStyle::Dot, FenceStyle::RightParen, FenceStyle::BothParen];
    let mut seen = 0;
    for (number, _) in NUMBERS {
        for fence in fences {
            let style = OrderedListStyle::new(number, fence);
            let text = style.to_string();
            assert!(text.chars().count() == 2 || text.chars().count() == 3);
            assert_eq!(OrderedListStyle::from_str(&text), Ok(style));
            seen += 1;
        }
    }
    assert_eq!(seen, 15);
}

#[test]
fn styles_have_their_canonical_text() {
    for (number, mark) in NUMBERS {
        assert_eq!(
            OrderedListStyle::new(number, FenceStyle::Dot).to_string(),
            format!("{}.", mark)
        );
        assert_eq!(
            OrderedListStyle::new(number, FenceStyle::RightParen).to_string(),
            format!("{})", mark)
        );
        assert_eq!(
            OrderedListStyle::new(number, FenceStyle::BothParen).to_string(),
            format!("({})", mark)
        );
    }
}

#[test]
fn texts_are_read_mark_by_mark() {
    assert_eq!(
        OrderedListStyle::from_str("1."),
        Ok(OrderedListStyle { number: NumberStyle::Arabic, fence: FenceStyle::Dot })
    );
    assert_eq!(
        OrderedListStyle::from_str("(a)"),
        Ok(OrderedListStyle { number: NumberStyle::LowerAlpha, fence: FenceStyle::BothParen })
    );
    assert_eq!(
        OrderedListStyle::from_str("I)"),
        Ok(OrderedListStyle { number: NumberStyle::UpperRoman, fence: FenceStyle::RightParen })
    );
}

#[test]
fn malformed_texts_fail_and_are_quoted() {
    for s in ["", "1", "(1", "x.", "1x", "(", "(x)", "(1.", "(1x", ".", ")", "1(", "é."] {
        assert_eq!(OrderedListStyle::from_str(s), Err(invalid(s)));
    }
}

#[test]
fn what_follows_the_style_is_not_read() {
    assert_eq!(
        OrderedListStyle::from_str("1.abc"),
        Ok(OrderedListStyle { number: NumberStyle::Arabic, fence: FenceStyle::Dot })
    );
    assert_eq!(
        OrderedListStyle::from_str("(A))"),
        Ok(OrderedListStyle { number: NumberStyle::UpperAlpha, fence: FenceStyle::BothParen })
    );
}

#[test]
fn the_failure_shows_as_a_general_error() {
    let e = OrderedListStyle::from_str("x.").unwrap_err();
    assert_eq!(e.message(), "general error: invalid ordered list style 'x.'");
}

#[test]
fn a_style_is_parsed_from_a_text() {
    assert_eq!(
        "a)".parse::<OrderedListStyle>(),
        Ok(OrderedListStyle { number: NumberStyle::LowerAlpha, fence: FenceStyle::RightParen })
    );
    assert_eq!("a".parse::<OrderedListStyle>(), Err(invalid("a")));
}
