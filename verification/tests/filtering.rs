use nordvpn_tui::filter::apply_filter;
use nordvpn_tui::text::contains;
use nordvpn_tui::text::replace_underscores;
use nordvpn_tui::types::Country;

fn roster(names: &[&str]) -> Vec<Country> {
    names.iter().map(|n| Country::new(n.to_string())).collect()
}

fn names(countries: &[Country]) -> Vec<String> {
    countries.iter().map(|c| c.name.clone()).collect()
}

#[test]
fn empty_filter_keeps_everything() {
    let all = roster(&["canada", "united_states", "france", "canada"]);
    assert_eq!(apply_filter(&all, ""), all);
    assert_eq!(apply_filter(&Vec::new(), ""), Vec::<Country>::new());
}

#[test]
fn filter_keeps_matches_in_order() {
    let all = roster(&["united_states", "canada", "united_kingdom", "austria", "united_arab_emirates"]);
    assert_eq!(
        names(&apply_filter(&all, "united")),
        vec!["united_states", "united_kingdom", "united_arab_emirates"]
    );
    assert_eq!(
        names(&apply_filter(&all, "a")),
        vec!["united_states", "canada", "austria", "united_arab_emirates"]
    );
    assert_eq!(
        names(&apply_filter(&all, "i")),
        vec!["united_states", "united_kingdom", "austria", "united_arab_emirates"]
    );
    assert_eq!(names(&apply_filter(&all, "zz")), Vec::<String>::new());
}

#[test]
fn filter_ignores_letter_case() {
    let all = vec![
        Country { name: "x".to_string(), display_name: "United States".to_string() },
        Country { name: "y".to_string(), display_name: "CANADA".to_string() },
        Country { name: "z".to_string(), display_name: "france".to_string() },
    ];
    assert_eq!(names(&apply_filter(&all, "UNITED")), vec!["x"]);
    assert_eq!(names(&apply_filter(&all, "can")), vec!["y"]);
    assert_eq!(names(&apply_filter(&all, "FrAn")), vec!["z"]);
    assert_eq!(names(&apply_filter(&all, "A")), vec!["x", "y", "z"]);
}

#[test]
fn filter_looks_at_the_display_name() {
    let all = roster(&["united_states", "new_zealand"]);
    assert_eq!(names(&apply_filter(&all, "d s")), vec!["united_states"]);
    assert_eq!(names(&apply_filter(&all, "w z")), vec!["new_zealand"]);
    assert_eq!(names(&apply_filter(&all, "_")), Vec::<String>::new());
}

#[test]
fn filter_result_is_a_subsequence_of_matches() {
    let all = roster(&["norway", "sweden", "denmark", "north_macedonia", "germany", "norway"]);
    let picked = apply_filter(&all, "Nor");
    let mut from = 0;
    for c in picked.iter() {
        let at = all[from..].iter().position(|x| x == c).expect("picked from the roster");
        from += at + 1;
        assert!(c.display_name.to_lowercase().contains("nor"));
    }
    assert_eq!(names(&picked), vec!["norway", "north_macedonia", "norway"]);
}

#[test]
fn filtering_twice_changes_nothing() {
    let all = roster(&["norway", "sweden", "denmark", "north_macedonia", "germany"]);
    for f in ["", "n", "No", "den", "zzz", "e"] {
        let once = apply_filter(&all, f);
        assert_eq!(apply_filter(&once, f), once);
        assert_eq!(apply_filter(&once, ""), once);
    }
}

#[test]
fn contains_finds_substrings() {
    assert!(contains("united states", "ted st"));
    assert!(contains("united states", "united states"));
    assert!(contains("united states", ""));
    assert!(contains("", ""));
    assert!(contains("abc", "c"));
    assert!(contains("aab", "ab"));
    assert!(!contains("abc", "abcd"));
    assert!(!contains("abc", "ac"));
    assert!(!contains("", "a"));
    assert!(contains("stra\u{df}e \u{e9}t\u{e9}", "\u{e9}t"));
}

#[test]
fn replace_underscores_touches_nothing_else() {
    assert_eq!(replace_underscores("a_b__c-d e"), "a b  c-d e");
    assert_eq!(replace_underscores(""), "");
    assert_eq!(replace_underscores("_"), " ");
}

#[test]
fn text_primitives_on_character_ranges() {
    let v = nordvpn_tui::text::chars_of(" \tCity:  Oslo \r\nnext");
    assert_eq!(v.len(), 20);
    assert_eq!(nordvpn_tui::text::line_end(&v, 0), 15);
    assert_eq!(nordvpn_tui::text::line_end(&v, 16), 20);
    assert_eq!(nordvpn_tui::text::line_end(&v, 20), 20);
    assert_eq!(nordvpn_tui::text::trim_range(&v, 0, 15), (2, 13));
    assert_eq!(nordvpn_tui::text::trim_range(&v, 7, 9), (9, 9));
    assert_eq!(nordvpn_tui::text::string_of(&v, 2, 13), "City:  Oslo");
    assert_eq!(nordvpn_tui::text::string_of(&v, 5, 5), "");
    let key = nordvpn_tui::text::chars_of("City:");
    assert!(nordvpn_tui::text::range_starts_with(&v, 2, 13, &key));
    assert!(!nordvpn_tui::text::range_starts_with(&v, 0, 13, &key));
    assert!(!nordvpn_tui::text::range_starts_with(&v, 2, 6, &key));
    assert!(nordvpn_tui::text::occurs_at_index(&v, &key, 2));
    assert!(!nordvpn_tui::text::occurs_at_index(&v, &key, 3));
    assert!(!nordvpn_tui::text::occurs_at_index(&v, &key, 18));
    assert!(nordvpn_tui::text::contains_chars(&v, &key));
    assert!(!nordvpn_tui::text::contains_chars(&key, &v));
    assert_eq!(nordvpn_tui::text::concat("ab", "cd"), "abcd");
}
