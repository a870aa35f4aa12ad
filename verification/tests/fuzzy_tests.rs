use editor_core::fuzzy_score;

#[test]
fn fuzzy_score_identical_strings() {
    // "abc" vs "abc": three length-1 matches, two length-2 matches worth 2
    // each, one length-3 match worth 3: 3 + 4 + 3.
    assert_eq!(fuzzy_score("abc", "abc"), 10);
}

#[test]
fn fuzzy_score_counts_every_offset_pair() {
    // "aa" vs "aa": four length-1 matches and one length-2 match.
    assert_eq!(fuzzy_score("aa", "aa"), 4 + 2);
}

#[test]
fn fuzzy_score_swapped_characters() {
    // "ab" vs "ba": 'a' and 'b' each match at one offset pair; no
    // length-2 match.
    assert_eq!(fuzzy_score("ab", "ba"), 2);
}

#[test]
fn fuzzy_score_disjoint_strings() {
    assert_eq!(fuzzy_score("abc", "xyz"), 0);
}

#[test]
fn fuzzy_score_empty_operands() {
    assert_eq!(fuzzy_score("", ""), 0);
    assert_eq!(fuzzy_score("abc", ""), 0);
    assert_eq!(fuzzy_score("", "abc"), 0);
}

#[test]
fn fuzzy_score_multibyte_characters() {
    assert_eq!(fuzzy_score("\u{e9}", "\u{e9}"), 1);
    assert_eq!(fuzzy_score("\u{e9}x", "\u{e9}x"), 2 + 2);
}
