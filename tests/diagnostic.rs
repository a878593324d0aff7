use frag::diagnostic::fix_error;

fn map() -> Vec<(usize, String)> {
    vec![(10, "a".to_string()), (5, "b".to_string())]
}

#[test]
fn remaps_line_in_second_section() {
    let r = fix_error("0(12) : error C1503: undefined variable \"xcolor\"".to_string(), &map());
    assert_eq!(r, "\n\tFile: b\n\tLine:2\n\tError: C1503: undefined variable \"xcolor\"");
}

#[test]
fn remaps_line_in_first_section() {
    let r = fix_error("0(3) : error C0000: syntax error".to_string(), &map());
    assert_eq!(r, "\n\tFile: a\n\tLine:3\n\tError: C0000: syntax error");
}

#[test]
fn last_line_of_a_section_stays_in_it() {
    let r = fix_error("0(10) : error x".to_string(), &map());
    assert_eq!(r, "\n\tFile: a\n\tLine:10\n\tError: x");
    let r = fix_error("0(15) : error y".to_string(), &map());
    assert_eq!(r, "\n\tFile: b\n\tLine:5\n\tError: y");
}

#[test]
fn malformed_diagnostic_is_unchanged() {
    let s = "something went wrong".to_string();
    assert_eq!(fix_error(s.clone(), &map()), s);
    let s = "0(12) error : x".to_string();
    assert_eq!(fix_error(s.clone(), &map()), s);
    let s = "nospace".to_string();
    assert_eq!(fix_error(s.clone(), &map()), s);
}

#[test]
fn no_parenthesis_is_unchanged() {
    let s = "012 : error x".to_string();
    assert_eq!(fix_error(s.clone(), &map()), s);
}

#[test]
fn empty_map_is_unchanged() {
    let s = "0(3) : error x".to_string();
    assert_eq!(fix_error(s.clone(), &[]), s);
}

#[test]
fn line_beyond_the_map_is_unchanged() {
    let s = "0(16) : error x".to_string();
    assert_eq!(fix_error(s.clone(), &map()), s);
}

#[test]
fn marker_without_message() {
    let r = fix_error("0(11) : error".to_string(), &map());
    assert_eq!(r, "\n\tFile: b\n\tLine:1\n\tError: ");
}

#[test]
fn marker_glued_to_more_text_is_unchanged() {
    let s = "0(11) : errors x".to_string();
    assert_eq!(fix_error(s.clone(), &map()), s);
}

#[test]
fn digits_stop_at_the_first_other_character() {
    let r = fix_error("0(12x) : error m".to_string(), &map());
    assert_eq!(r, "\n\tFile: b\n\tLine:2\n\tError: m");
}

#[test]
fn non_ascii_numeral_spoils_the_line_number() {
    let s = "0(1\u{0663}) : error m".to_string();
    assert_eq!(fix_error(s.clone(), &map()), s);
}

#[test]
fn too_large_line_number_is_unchanged() {
    let s = "0(999999999999999999999999) : error m".to_string();
    assert_eq!(fix_error(s.clone(), &map()), s);
}

#[test]
fn line_zero_falls_in_first_section() {
    let r = fix_error("0(0) : error m".to_string(), &map());
    assert_eq!(r, "\n\tFile: a\n\tLine:0\n\tError: m");
}
