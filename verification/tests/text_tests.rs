use chat_gpt_line::stream::data_marker_str;
use chat_gpt_line::text::{after_first_occurrence, chars_of, remove_occurrences, string_from};

#[test]
fn remove_every_marker() {
    assert_eq!(remove_occurrences("data: {\"a\":1}", "data:"), " {\"a\":1}");
    assert_eq!(remove_occurrences("data:data:x", "data:"), "x");
    assert_eq!(remove_occurrences("dadata:ta:", "data:"), "data:");
    assert_eq!(remove_occurrences("", "data:"), "");
    assert_eq!(remove_occurrences("a\nb\n", "\n"), "ab");
    assert_eq!(remove_occurrences("数据data:数据", "data:"), "数据数据");
}

#[test]
fn after_first_marker() {
    assert_eq!(after_first_occurrence("xdata:ydata:z", "data:"), "ydata:z");
    assert_eq!(after_first_occurrence("no marker", "data:"), "no marker");
    assert_eq!(after_first_occurrence("data:", "data:"), "");
}

#[test]
fn characters_and_back() {
    let v = chars_of("héllo");
    assert_eq!(v, vec!['h', 'é', 'l', 'l', 'o']);
    assert_eq!(string_from(&v, 1), "éllo");
    assert_eq!(string_from(&v, 5), "");
}

#[test]
fn marker_text() {
    assert_eq!(data_marker_str(), "data:");
}
