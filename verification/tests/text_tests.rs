use serious_clicker::merge_pattern_edit;
use serious_clicker::parse_pattern;
use serious_clicker::pattern_text;
use serious_clicker::u64_to_string;

#[test]
fn decimal_rendering() {
    assert_eq!(u64_to_string(0), "0");
    assert_eq!(u64_to_string(7), "7");
    assert_eq!(u64_to_string(10), "10");
    assert_eq!(u64_to_string(100), "100");
    assert_eq!(u64_to_string(98765), "98765");
    assert_eq!(u64_to_string(u64::MAX), "18446744073709551615");
}

#[test]
fn pattern_display_text() {
    assert_eq!(pattern_text(&Vec::new()), "");
    assert_eq!(pattern_text(&vec![100]), "100");
    assert_eq!(pattern_text(&vec![100, 200, 300]), "100,200,300");
    assert_eq!(pattern_text(&vec![0, 1]), "0,1");
}

#[test]
fn parse_plain_list() {
    assert_eq!(parse_pattern("100,200,300"), vec![100, 200, 300]);
}

#[test]
fn parse_trims_whitespace() {
    assert_eq!(parse_pattern(" 42 "), vec![42]);
    assert_eq!(parse_pattern("\t1 , 2\n"), vec![1, 2]);
    assert_eq!(parse_pattern("\u{3000}9\u{3000}"), vec![9]);
}

#[test]
fn parse_skips_unparseable_parts() {
    assert_eq!(parse_pattern(""), Vec::<u64>::new());
    assert_eq!(parse_pattern("1,,2"), vec![1, 2]);
    assert_eq!(parse_pattern("abc,5"), vec![5]);
    assert_eq!(parse_pattern("1.5,7"), vec![7]);
    assert_eq!(parse_pattern("-3,4"), vec![4]);
}

#[test]
fn parse_accepts_one_leading_plus() {
    assert_eq!(parse_pattern("+5"), vec![5]);
    assert_eq!(parse_pattern("++5"), Vec::<u64>::new());
    assert_eq!(parse_pattern("+"), Vec::<u64>::new());
}

#[test]
fn parse_zero_and_large_values() {
    assert_eq!(parse_pattern("0"), vec![0]);
    assert_eq!(parse_pattern("18446744073709551615"), vec![u64::MAX]);
    // One past the ceiling does not fit and is skipped.
    assert_eq!(parse_pattern("18446744073709551616"), Vec::<u64>::new());
    assert_eq!(parse_pattern("18446744073709551616,8"), vec![8]);
}

#[test]
fn parse_matches_std_parsing_part_by_part() {
    let inputs = ["100, 200,300", " 7 ,x, +9,, 018 ", "999999999999999999999999,3"];
    for input in inputs {
        let expected: Vec<u64> =
            input.split(',').filter_map(|p| p.trim().parse::<u64>().ok()).collect();
        assert_eq!(parse_pattern(input), expected, "input {:?}", input);
    }
}

#[test]
fn merge_keeps_previous_sequence_when_nothing_parses() {
    assert_eq!(merge_pattern_edit(vec![1, 2], "abc"), vec![1, 2]);
    assert_eq!(merge_pattern_edit(vec![1, 2], ""), vec![1, 2]);
    assert_eq!(merge_pattern_edit(vec![1, 2], "5,6"), vec![5, 6]);
}

#[test]
fn render_then_parse_round_trips() {
    let p = vec![100, 200, 300, 0, u64::MAX];
    assert_eq!(parse_pattern(&pattern_text(&p)), p);
}
