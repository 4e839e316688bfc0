use sqlite_viewer::search::{
    SearchIcon, SearchOption, SearchOptions, SearchQuery, SearchSettings, ToggleAction,
};

const ALL: [SearchOption; 6] = [
    SearchOption::WholeWord,
    SearchOption::CaseSensitive,
    SearchOption::IncludeIgnored,
    SearchOption::Regex,
    SearchOption::OneMatchPerLine,
    SearchOption::Backwards,
];

#[test]
fn each_option_is_one_bit() {
    for (i, o) in ALL.iter().enumerate() {
        assert_eq!(o.as_options().bits(), 1u8 << i);
    }
    assert_eq!(SearchOptions::from_bits(64), None);
    assert_eq!(SearchOptions::from_bits(63).map(|o| o.bits()), Some(63));
    assert_eq!(SearchOptions::none().bits(), 0);
    assert_eq!(SearchOptions::default().bits(), 0);
}

#[test]
fn set_and_contains() {
    let mut o = SearchOptions::none();
    o.set(SearchOptions::regex(), true);
    o.insert(SearchOptions::whole_word());
    assert!(o.contains(SearchOptions::regex()));
    assert!(o.contains(SearchOption::WholeWord.as_options()));
    assert!(!o.contains(SearchOptions::case_sensitive()));
    o.set(SearchOptions::regex(), false);
    assert!(!o.contains(SearchOptions::regex()));
    assert!(o.contains(SearchOptions::whole_word()));
    o.remove(SearchOptions::whole_word());
    assert_eq!(o.bits(), 0);
    assert!(o.contains(SearchOptions::none()));
}

#[test]
fn labels_icons_actions() {
    assert_eq!(SearchOption::Regex.label(), "Use Regular Expressions");
    assert_eq!(SearchOption::Backwards.label(), "Search Backwards");
    assert_eq!(SearchOption::IncludeIgnored.label_key(), "search.option.include_ignored");
    assert_eq!(SearchOption::IncludeIgnored.icon(), SearchIcon::FileIgnored);
    assert_eq!(SearchOption::CaseSensitive.to_toggle_action(), ToggleAction::ToggleCaseSensitive);
}

#[test]
fn query_round_trip() {
    let mut o = SearchOptions::none();
    for flag in [SearchOptions::regex(), SearchOptions::case_sensitive(), SearchOptions::one_match_per_line(), SearchOptions::backwards()] {
        o.insert(flag);
    }
    let q = o.build_query("fo+".into(), true);
    assert!(q.is_regex && q.case_sensitive && q.one_match_per_line && !q.whole_word && q.match_full_paths);
    assert_eq!(SearchOptions::from_query(&q).bits(), o.bits() & 15);
    let text = SearchOptions::whole_word().build_query("x".into(), false);
    assert!(!text.is_regex && text.whole_word && !text.one_match_per_line);
    let q = SearchQuery {
        query: "y".into(),
        is_regex: false,
        whole_word: true,
        case_sensitive: false,
        include_ignored: true,
        one_match_per_line: false,
        match_full_paths: false,
    };
    assert_eq!(SearchOptions::from_query(&q).bits(), 5);
    let s = SearchSettings { whole_word: false, case_sensitive: true, include_ignored: false, regex: true };
    assert_eq!(SearchOptions::from_settings(&s).bits(), 10);
}
