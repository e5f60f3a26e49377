use code_share::search::{match_count_label, search_matches};

#[test]
fn matches_do_not_overlap() {
    assert_eq!(search_matches("aaaa", "aa"), vec![0, 2]);
    assert_eq!(search_matches("aaa", "aa"), vec![0]);
}

#[test]
fn matches_are_byte_offsets_left_to_right() {
    assert_eq!(search_matches("abcabc", "bc"), vec![1, 4]);
    assert_eq!(search_matches("héllo héllo", "llo"), vec![3, 10]);
}

#[test]
fn no_match_and_empty_query() {
    assert_eq!(search_matches("abc", "x"), Vec::<usize>::new());
    assert_eq!(search_matches("abc", ""), Vec::<usize>::new());
    assert_eq!(search_matches("", "a"), Vec::<usize>::new());
    assert_eq!(search_matches("ab", "abc"), Vec::<usize>::new());
}

#[test]
fn search_agrees_with_match_indices() {
    let texts = ["fn main() { main(); }", "ababababa", "ünïcödé ünï", "a\nb\na\nb"];
    let queries = ["main", "aba", "ünï", "\n", "b"];
    for text in texts {
        for query in queries {
            let expected: Vec<usize> = text.match_indices(query).map(|(i, _)| i).collect();
            assert_eq!(search_matches(text, query), expected, "{:?} in {:?}", query, text);
        }
    }
}

#[test]
fn count_label_spelling() {
    assert_eq!(match_count_label(0), "0 maches found");
    assert_eq!(match_count_label(3), "3 maches found");
    assert_eq!(match_count_label(120), "120 maches found");
}
