use rust_wiki::wiki_data::rewards::{TreasureEntry, TreasureMap};
use rust_wiki::wikitext::stage_info::internal::treasure::write_name_and_amount;
use rust_wiki::wikitext::format_parser::{parse_si_format, try_parse_si_format, ParseType};
use rust_wiki::wikitext::number_utils::{
    get_precision_f, plural, plural_f, seconds_repr, time_repr, write_seconds,
};

#[test]
fn precision_of_frames() {
    assert_eq!(get_precision_f(30), 0);
    assert_eq!(get_precision_f(3), 1);
    assert_eq!(get_precision_f(1), 2);
    assert_eq!(get_precision_f(0), 0);
}

#[test]
fn plurals() {
    assert_eq!(plural(1, "cat", "cats"), "cat");
    assert_eq!(plural(0, "cat", "cats"), "cats");
    assert_eq!(plural(2, "cat", "cats"), "cats");
    assert_eq!(plural_f(30, "second", "seconds"), "second");
    assert_eq!(plural_f(1, "second", "seconds"), "seconds");
    assert_eq!(plural_f(60, "second", "seconds"), "seconds");
}

#[test]
fn seconds_of_frames() {
    assert_eq!(seconds_repr(30), "1");
    assert_eq!(seconds_repr(0), "0");
    assert_eq!(seconds_repr(45), "1.5");
    assert_eq!(seconds_repr(3), "0.1");
    assert_eq!(seconds_repr(1), "0.03");
    assert_eq!(seconds_repr(2), "0.07");
    assert_eq!(seconds_repr(29), "0.97");
    assert_eq!(seconds_repr(29_999), "999.97");
    assert_eq!(seconds_repr(900), "30");
    let mut buf = "t=".to_string();
    write_seconds(&mut buf, 100);
    assert_eq!(buf, "t=3.33");
}

#[test]
fn seconds_agree_with_float_formatting() {
    for f in 0..30_000u32 {
        let time_s = f64::from(f) / 30.0;
        let precision = get_precision_f(f);
        assert_eq!(seconds_repr(f), format!("{time_s:.precision$}"));
    }
}

fn xp_text(amount: u32) -> String {
    let names = TreasureMap::new(vec![TreasureEntry { id: 6, name: "XP".to_string() }]);
    let mut buf = String::new();
    write_name_and_amount(&mut buf, &names, 6, amount);
    buf
}

#[test]
fn formatted_numbers() {
    assert_eq!(xp_text(0), "0 XP");
    assert_eq!(xp_text(999), "999 XP");
    assert_eq!(xp_text(1_000), "1,000 XP");
    assert_eq!(xp_text(1_234_567), "1,234,567 XP");
    assert_eq!(time_repr(1_500), ("1,500".to_string(), "50".to_string()));
    assert_eq!(time_repr(7), ("7".to_string(), "0.23".to_string()));
}

#[test]
fn si_format_pieces() {
    let nodes = parse_si_format("abc ${name} def${x}${y}");
    let got: Vec<(&str, ParseType)> = nodes.iter().map(|n| (n.content, n.ptype)).collect();
    assert_eq!(
        got,
        vec![
            ("abc ", ParseType::Text),
            ("name", ParseType::Variable),
            (" def", ParseType::Text),
            ("x", ParseType::Variable),
            ("y", ParseType::Variable),
        ]
    );
}

#[test]
fn si_format_text_only() {
    let nodes = parse_si_format("plain {text} $ here");
    assert_eq!(nodes.len(), 1);
    assert_eq!(nodes[0].content, "plain {text} $ here");
    assert_eq!(nodes[0].ptype, ParseType::Text);
    assert_eq!(parse_si_format("").len(), 0);
}

#[test]
fn si_format_unicode_and_empty_var() {
    let nodes = parse_si_format("★${}é${a}");
    let got: Vec<(&str, ParseType)> = nodes.iter().map(|n| (n.content, n.ptype)).collect();
    assert_eq!(
        got,
        vec![
            ("★", ParseType::Text),
            ("", ParseType::Variable),
            ("é", ParseType::Text),
            ("a", ParseType::Variable),
        ]
    );
}

#[test]
fn si_format_unclosed() {
    assert!(try_parse_si_format("a ${b").is_none());
    assert!(try_parse_si_format("a ${b} ${c").is_none());
    assert!(try_parse_si_format("a ${b}").is_some());
}

#[test]
fn si_format_written_back() {
    let format = "a ${b} c${d}${e}f";
    let back: String = parse_si_format(format)
        .iter()
        .map(|n| match n.ptype {
            ParseType::Text => n.content.to_string(),
            ParseType::Variable => format!("${{{}}}", n.content),
        })
        .collect();
    assert_eq!(back, format);
}

#[test]
fn grouping_keeps_digits() {
    for n in [0u32, 7, 999, 1_000, 65_536, 1_234_567, u32::MAX] {
        assert_eq!(xp_text(n).replace(',', ""), format!("{n} XP"));
    }
}
