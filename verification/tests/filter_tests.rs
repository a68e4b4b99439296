use pecors::filter::filter;

fn lines(xs: &[&str]) -> Vec<String> {
    xs.iter().map(|x| x.to_string()).collect()
}

#[test]
fn filter_empty_query_is_identity() {
    let src = lines(&["apple", "banana", "cherry"]);
    let out = filter(&src, "").unwrap();
    assert_eq!(out, src);
}

#[test]
fn filter_empty_query_on_empty_source() {
    let src: Vec<String> = Vec::new();
    let out = filter(&src, "").unwrap();
    assert!(out.is_empty());
}

#[test]
fn filter_keeps_matching_lines_in_order() {
    let src = lines(&["apple", "banana", "cherry"]);
    assert_eq!(filter(&src, "an").unwrap(), lines(&["banana"]));
    assert_eq!(filter(&src, "e").unwrap(), lines(&["apple", "cherry"]));
    assert_eq!(filter(&src, "a").unwrap(), lines(&["apple", "banana"]));
}

#[test]
fn filter_is_unanchored() {
    let src = lines(&["cherry"]);
    assert_eq!(filter(&src, "err").unwrap(), lines(&["cherry"]));
}

#[test]
fn filter_honours_regex_syntax() {
    let src = lines(&["apple", "banana", "cherry"]);
    assert_eq!(filter(&src, "^a").unwrap(), lines(&["apple"]));
    assert_eq!(filter(&src, "y$").unwrap(), lines(&["cherry"]));
    assert_eq!(filter(&src, "a|y").unwrap(), lines(&["apple", "banana", "cherry"]));
    assert_eq!(filter(&src, "b.n.n").unwrap(), lines(&["banana"]));
}

#[test]
fn filter_no_match_gives_empty_list() {
    let src = lines(&["apple", "banana"]);
    assert_eq!(filter(&src, "zzz").unwrap(), lines(&[]));
}

#[test]
fn filter_invalid_pattern_gives_none() {
    let src = lines(&["apple"]);
    assert!(filter(&src, "(").is_none());
    assert!(filter(&src, "[").is_none());
    assert!(filter(&src, "*").is_none());
}

#[test]
fn filter_unchanged_query_is_fixed_point() {
    let src = lines(&["apple", "banana", "cherry", "date"]);
    let once = filter(&src, "a").unwrap();
    let twice = filter(&once, "a").unwrap();
    assert_eq!(once, twice);
}
