//! Search options: the flags that a text or project search runs with, the
//! toggles that set them, and the query that they build.

use vstd::prelude::*;

verus! {

/// One search option; its flag is bit `position` of [`SearchOptions`], in the
/// order listed.
#[derive(Debug, Clone, Copy, PartialEq, Eq, Structural)]
pub enum SearchOption {
    WholeWord,
    CaseSensitive,
    IncludeIgnored,
    Regex,
    OneMatchPerLine,
    Backwards,
}

/// The position of an option's flag.
pub open spec fn option_position(o: SearchOption) -> u8 {
    match o {
        SearchOption::WholeWord => 0,
        SearchOption::CaseSensitive => 1,
        SearchOption::IncludeIgnored => 2,
        SearchOption::Regex => 3,
        SearchOption::OneMatchPerLine => 4,
        SearchOption::Backwards => 5,
    }
}

/// The flag of an option: `1 << position`.
pub open spec fn option_flag(o: SearchOption) -> u8 {
    match o {
        SearchOption::WholeWord => 1,
        SearchOption::CaseSensitive => 2,
        SearchOption::IncludeIgnored => 4,
        SearchOption::Regex => 8,
        SearchOption::OneMatchPerLine => 16,
        SearchOption::Backwards => 32,
    }
}

/// The bits that name options.
pub open spec fn all_option_bits() -> u8 {
    63
}

/// All of the flags `f` are set in `bits`.
pub open spec fn has_flags(bits: u8, f: u8) -> bool {
    bits & f == f
}

/// A set of search options, one bit per option.
#[derive(Debug, PartialEq, Eq, Clone, Copy, Structural)]
pub struct SearchOptions {
    pub bits: u8,
}

/// The icons of the options that have a toggle button.
#[derive(Debug, Clone, Copy, PartialEq, Eq, Structural)]
pub enum SearchIcon {
    WholeWord,
    CaseSensitive,
    FileIgnored,
    Regex,
}

/// The actions that toggle the options that have a toggle button.
#[derive(Debug, Clone, Copy, PartialEq, Eq, Structural)]
pub enum ToggleAction {
    ToggleWholeWord,
    ToggleCaseSensitive,
    ToggleIncludeIgnored,
    ToggleRegex,
}

/// The option has a toggle button (and an icon).
pub open spec fn has_toggle(o: SearchOption) -> bool {
    match o {
        SearchOption::WholeWord | SearchOption::CaseSensitive | SearchOption::IncludeIgnored
        | SearchOption::Regex => true,
        _ => false,
    }
}

impl SearchOption {
    /// The set holding just this option.
    pub fn as_options(&self) -> (options: SearchOptions)
        ensures
            options.bits == option_flag(*self),
            options.bits == 1u8 << option_position(*self),
    {
        let bits: u8 = match self {
            SearchOption::WholeWord => 1,
            SearchOption::CaseSensitive => 2,
            SearchOption::IncludeIgnored => 4,
            SearchOption::Regex => 8,
            SearchOption::OneMatchPerLine => 16,
            SearchOption::Backwards => 32,
        };
        proof {
            assert(1u8 << 0u8 == 1u8) by (bit_vector);
            assert(1u8 << 1u8 == 2u8) by (bit_vector);
            assert(1u8 << 2u8 == 4u8) by (bit_vector);
            assert(1u8 << 3u8 == 8u8) by (bit_vector);
            assert(1u8 << 4u8 == 16u8) by (bit_vector);
            assert(1u8 << 5u8 == 32u8) by (bit_vector);
            assert(bits & !63u8 == 0) by (bit_vector)
                requires
                    bits == 1 || bits == 2 || bits == 4 || bits == 8 || bits == 16 || bits == 32,
            ;
        }
        SearchOptions::from_bits(bits).unwrap()
    }

    /// The option's English label; it also names the option's button.
    pub fn label(&self) -> (label: &'static str)
        ensures
            label@ == match *self {
                SearchOption::WholeWord => "Match Whole Words"@,
                SearchOption::CaseSensitive => "Match Case Sensitivity"@,
                SearchOption::IncludeIgnored => "Also search files ignored by configuration"@,
                SearchOption::Regex => "Use Regular Expressions"@,
                SearchOption::OneMatchPerLine => "One Match Per Line"@,
                SearchOption::Backwards => "Search Backwards"@,
            },
    {
        match self {
            SearchOption::WholeWord => "Match Whole Words",
            SearchOption::CaseSensitive => "Match Case Sensitivity",
            SearchOption::IncludeIgnored => "Also search files ignored by configuration",
            SearchOption::Regex => "Use Regular Expressions",
            SearchOption::OneMatchPerLine => "One Match Per Line",
            SearchOption::Backwards => "Search Backwards",
        }
    }

    /// The key of the option's localised label (shown in tooltips).
    pub fn label_key(&self) -> (key: &'static str)
        ensures
            key@ == match *self {
                SearchOption::WholeWord => "search.option.whole_word"@,
                SearchOption::CaseSensitive => "search.option.case_sensitive"@,
                SearchOption::IncludeIgnored => "search.option.include_ignored"@,
                SearchOption::Regex => "search.option.regex"@,
                SearchOption::OneMatchPerLine => "search.option.one_match_per_line"@,
                SearchOption::Backwards => "search.option.backwards"@,
            },
    {
        match self {
            SearchOption::WholeWord => "search.option.whole_word",
            SearchOption::CaseSensitive => "search.option.case_sensitive",
            SearchOption::IncludeIgnored => "search.option.include_ignored",
            SearchOption::Regex => "search.option.regex",
            SearchOption::OneMatchPerLine => "search.option.one_match_per_line",
            SearchOption::Backwards => "search.option.backwards",
        }
    }

    /// The icon of an option's toggle button.
    pub fn icon(&self) -> (icon: SearchIcon)
        requires
            has_toggle(*self),
        ensures
            icon == match *self {
                SearchOption::WholeWord => SearchIcon::WholeWord,
                SearchOption::CaseSensitive => SearchIcon::CaseSensitive,
                SearchOption::IncludeIgnored => SearchIcon::FileIgnored,
                _ => SearchIcon::Regex,
            },
    {
        match self {
            SearchOption::WholeWord => SearchIcon::WholeWord,
            SearchOption::CaseSensitive => SearchIcon::CaseSensitive,
            SearchOption::IncludeIgnored => SearchIcon::FileIgnored,
            _ => SearchIcon::Regex,
        }
    }

    /// The action that an option's toggle button dispatches.
    pub fn to_toggle_action(self) -> (action: ToggleAction)
        requires
            has_toggle(self),
        ensures
            action == match self {
                SearchOption::WholeWord => ToggleAction::ToggleWholeWord,
                SearchOption::CaseSensitive => ToggleAction::ToggleCaseSensitive,
                SearchOption::IncludeIgnored => ToggleAction::ToggleIncludeIgnored,
                _ => ToggleAction::ToggleRegex,
            },
    {
        match self {
            SearchOption::WholeWord => ToggleAction::ToggleWholeWord,
            SearchOption::CaseSensitive => ToggleAction::ToggleCaseSensitive,
            SearchOption::IncludeIgnored => ToggleAction::ToggleIncludeIgnored,
            _ => ToggleAction::ToggleRegex,
        }
    }
}

/// The flags that a query, or the settings, ask for: whole word (1), case
/// sensitive (2), include ignored (4), regex (8).
pub open spec fn query_bits(whole_word: bool, case_sensitive: bool, include_ignored: bool, regex: bool) -> u8 {
    ((if whole_word { 1u8 } else { 0u8 }) | (if case_sensitive { 2u8 } else { 0u8 }) | (
    if include_ignored {
        4u8
    } else {
        0u8
    }) | (if regex { 8u8 } else { 0u8 })) as u8
}

/// The search settings that set the options a search starts with.
pub struct SearchSettings {
    pub whole_word: bool,
    pub case_sensitive: bool,
    pub include_ignored: bool,
    pub regex: bool,
}

/// A search query, with the flags it was made with.
pub struct SearchQuery {
    /// The text or pattern searched for.
    pub query: String,
    /// Whether the query is a regular expression (else plain text).
    pub is_regex: bool,
    pub whole_word: bool,
    pub case_sensitive: bool,
    pub include_ignored: bool,
    /// Only for a regular expression: report one match per line.
    pub one_match_per_line: bool,
    pub match_full_paths: bool,
}

impl SearchOptions {
    /// The set holding whole-word matching.
    pub fn whole_word() -> (o: SearchOptions)
        ensures
            o.bits == 1,
    {
        SearchOptions { bits: 1 }
    }

    /// The set holding case-sensitive matching.
    pub fn case_sensitive() -> (o: SearchOptions)
        ensures
            o.bits == 2,
    {
        SearchOptions { bits: 2 }
    }

    /// The set holding the search of ignored files.
    pub fn include_ignored() -> (o: SearchOptions)
        ensures
            o.bits == 4,
    {
        SearchOptions { bits: 4 }
    }

    /// The set holding regular-expression matching.
    pub fn regex() -> (o: SearchOptions)
        ensures
            o.bits == 8,
    {
        SearchOptions { bits: 8 }
    }

    /// The set holding one match per line.
    pub fn one_match_per_line() -> (o: SearchOptions)
        ensures
            o.bits == 16,
    {
        SearchOptions { bits: 16 }
    }

    /// The set holding backwards search: reverse direction when finding the
    /// active match.
    pub fn backwards() -> (o: SearchOptions)
        ensures
            o.bits == 32,
    {
        SearchOptions { bits: 32 }
    }

    /// The empty set.
    pub fn none() -> (options: SearchOptions)
        ensures
            options.bits == 0,
    {
        SearchOptions { bits: 0 }
    }

    /// The set with these bits, if every bit names an option.
    pub fn from_bits(bits: u8) -> (options: Option<SearchOptions>)
        ensures
            bits & !all_option_bits() == 0 ==> options == Some(SearchOptions { bits }),
            bits & !all_option_bits() != 0 ==> options is None,
    {
        if bits & !63u8 == 0 {
            Some(SearchOptions { bits })
        } else {
            None
        }
    }

    /// The bits of the set.
    pub fn bits(&self) -> (bits: u8)
        ensures
            bits == self.bits,
    {
        self.bits
    }

    /// Whether every option of `other` is in the set.
    pub fn contains(&self, other: SearchOptions) -> (res: bool)
        ensures
            res == has_flags(self.bits, other.bits),
    {
        self.bits & other.bits == other.bits
    }

    /// Adds the options of `other`.
    pub fn insert(&mut self, other: SearchOptions)
        ensures
            final(self).bits == old(self).bits | other.bits,
    {
        self.bits = self.bits | other.bits;
    }

    /// Removes the options of `other`.
    pub fn remove(&mut self, other: SearchOptions)
        ensures
            final(self).bits == old(self).bits & !other.bits,
    {
        self.bits = self.bits & !other.bits;
    }

    /// Adds (when `value`) or removes the options of `other`.
    pub fn set(&mut self, other: SearchOptions, value: bool)
        ensures
            final(self).bits == if value {
                old(self).bits | other.bits
            } else {
                old(self).bits & !other.bits
            },
    {
        if value {
            self.insert(other);
        } else {
            self.remove(other);
        }
    }

    /// The options that a query was made with.
    pub fn from_query(query: &SearchQuery) -> (options: SearchOptions)
        ensures
            options.bits == query_bits(
                query.whole_word,
                query.case_sensitive,
                query.include_ignored,
                query.is_regex,
            ),
    {
        let mut options = SearchOptions::none();
        options.set(SearchOptions::whole_word(), query.whole_word);
        options.set(SearchOptions::case_sensitive(), query.case_sensitive);
        options.set(SearchOptions::include_ignored(), query.include_ignored);
        options.set(SearchOptions::regex(), query.is_regex);
        proof {
            lemma_query_bits_by_set(
                query.whole_word,
                query.case_sensitive,
                query.include_ignored,
                query.is_regex,
            );
        }
        options
    }

    /// The options that the search settings ask for.
    pub fn from_settings(settings: &SearchSettings) -> (options: SearchOptions)
        ensures
            options.bits == query_bits(
                settings.whole_word,
                settings.case_sensitive,
                settings.include_ignored,
                settings.regex,
            ),
    {
        let mut options = SearchOptions::none();
        options.set(SearchOptions::whole_word(), settings.whole_word);
        options.set(SearchOptions::case_sensitive(), settings.case_sensitive);
        options.set(SearchOptions::include_ignored(), settings.include_ignored);
        options.set(SearchOptions::regex(), settings.regex);
        proof {
            lemma_query_bits_by_set(
                settings.whole_word,
                settings.case_sensitive,
                settings.include_ignored,
                settings.regex,
            );
        }
        options
    }

    /// The query for `query` with these options: a regular expression when
    /// the set holds the regex flag (then with one match per line when it
    /// holds that flag), else plain text; whole word, case sensitive and
    /// include ignored as the set holds them.
    pub fn build_query(&self, query: String, match_full_paths: bool) -> (q: SearchQuery)
        ensures
            q.query == query,
            q.is_regex == has_flags(self.bits, 8),
            q.whole_word == has_flags(self.bits, 1),
            q.case_sensitive == has_flags(self.bits, 2),
            q.include_ignored == has_flags(self.bits, 4),
            q.one_match_per_line == (has_flags(self.bits, 8) && has_flags(self.bits, 16)),
            q.match_full_paths == match_full_paths,
    {
        if self.contains(SearchOptions::regex()) {
            SearchQuery {
                query,
                is_regex: true,
                whole_word: self.contains(SearchOptions::whole_word()),
                case_sensitive: self.contains(SearchOptions::case_sensitive()),
                include_ignored: self.contains(SearchOptions::include_ignored()),
                one_match_per_line: self.contains(SearchOptions::one_match_per_line()),
                match_full_paths,
            }
        } else {
            SearchQuery {
                query,
                is_regex: false,
                whole_word: self.contains(SearchOptions::whole_word()),
                case_sensitive: self.contains(SearchOptions::case_sensitive()),
                include_ignored: self.contains(SearchOptions::include_ignored()),
                one_match_per_line: false,
                match_full_paths,
            }
        }
    }
}

impl Default for SearchOptions {
    fn default() -> (options: SearchOptions)
        ensures
            options.bits == 0,
    {
        SearchOptions::none()
    }
}

/// Setting the four query flags in turn on the empty set gives `query_bits`.
proof fn lemma_query_bits_by_set(ww: bool, cs: bool, ii: bool, rx: bool)
    by (bit_vector)
    ensures
        ({
            let b0 = 0u8;
            let b1 = if ww { b0 | 1u8 } else { b0 & !1u8 };
            let b2 = if cs { b1 | 2u8 } else { b1 & !2u8 };
            let b3 = if ii { b2 | 4u8 } else { b2 & !4u8 };
            let b4 = if rx { b3 | 8u8 } else { b3 & !8u8 };
            b4 == query_bits(ww, cs, ii, rx)
        }),
{
}


/// The flags of two different options share no bit.
proof fn lemma_flags_disjoint(f: u8, g: u8)
    by (bit_vector)
    requires
        f == 1 || f == 2 || f == 4 || f == 8 || f == 16 || f == 32,
        g == 1 || g == 2 || g == 4 || g == 8 || g == 16 || g == 32,
        f != g,
    ensures
        f & g == 0,
{
}

/// Adding or removing flags `f` leaves every flag `g` that shares no bit with
/// them as it was, and adding makes `f` set, removing makes it unset.
proof fn lemma_set_flags(bits: u8, f: u8, g: u8)
    by (bit_vector)
    requires
        f != 0,
        f & g == 0,
    ensures
        (bits | f) & f == f,
        (bits & !f) & f != f,
        ((bits | f) & g == g) == (bits & g == g),
        ((bits & !f) & g == g) == (bits & g == g),
{
}

/// Setting an option on makes the set contain it, setting it off makes the
/// set lack it, and neither changes whether the set contains any other
/// option.
pub proof fn lemma_set_option(bits: u8, o: SearchOption, p: SearchOption)
    ensures
        has_flags(bits | option_flag(o), option_flag(o)),
        !has_flags(bits & !option_flag(o), option_flag(o)),
        o != p ==> has_flags(bits | option_flag(o), option_flag(p)) == has_flags(
            bits,
            option_flag(p),
        ),
        o != p ==> has_flags(bits & !option_flag(o), option_flag(p)) == has_flags(
            bits,
            option_flag(p),
        ),
{
    if o != p {
        lemma_flags_disjoint(option_flag(o), option_flag(p));
        lemma_set_flags(bits, option_flag(o), option_flag(p));
    } else {
        let f = option_flag(o);
        assert((bits | f) & f == f && (bits & !f) & f != f) by (bit_vector)
            requires
                f != 0,
        ;
    }
}

/// Reading back the options of the query built from a set of options gives
/// the set's whole-word, case-sensitive, include-ignored and regex options
/// (`build_query` undoes `from_query` on these four).
pub proof fn lemma_build_then_read(bits: u8)
    by (bit_vector)
    ensures
        query_bits(has_flags(bits, 1), has_flags(bits, 2), has_flags(bits, 4), has_flags(bits, 8))
            == bits & 15,
{
}

/// Building a query from the options read from a query gives back that
/// query's whole-word, case-sensitive, include-ignored and regex flags.
pub proof fn lemma_read_then_build(ww: bool, cs: bool, ii: bool, rx: bool)
    by (bit_vector)
    ensures
        has_flags(query_bits(ww, cs, ii, rx), 1) == ww,
        has_flags(query_bits(ww, cs, ii, rx), 2) == cs,
        has_flags(query_bits(ww, cs, ii, rx), 4) == ii,
        has_flags(query_bits(ww, cs, ii, rx), 8) == rx,
        !has_flags(query_bits(ww, cs, ii, rx), 16),
{
}

} // verus!
