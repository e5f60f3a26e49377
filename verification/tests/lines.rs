use code_share::lines::line_count;
use code_share::{get_line_num_str, get_num_digits};

#[test]
fn num_digits_of_small_and_large_numbers() {
    assert_eq!(get_num_digits(0), 1);
    assert_eq!(get_num_digits(9), 1);
    assert_eq!(get_num_digits(10), 2);
    assert_eq!(get_num_digits(99), 2);
    assert_eq!(get_num_digits(100), 3);
    assert_eq!(get_num_digits(123456), 6);
    assert_eq!(get_num_digits(usize::MAX), usize::MAX.to_string().len());
}

#[test]
fn line_column_for_empty_text_is_only_the_tilde() {
    assert_eq!(get_line_num_str(0), "~");
}

#[test]
fn line_column_for_three_lines() {
    assert_eq!(get_line_num_str(3), "1\n2\n3\n~");
}

#[test]
fn line_column_is_right_aligned() {
    let column = get_line_num_str(10);
    assert_eq!(column, " 1\n 2\n 3\n 4\n 5\n 6\n 7\n 8\n 9\n10\n~");
    let column = get_line_num_str(101);
    let rows: Vec<&str> = column.lines().collect();
    assert_eq!(rows.len(), 102);
    assert_eq!(rows[0], "  1");
    assert_eq!(rows[9], " 10");
    assert_eq!(rows[100], "101");
    assert_eq!(rows[101], "~");
}

#[test]
fn every_row_has_the_same_width() {
    for count in [1usize, 9, 10, 11, 99, 100, 250] {
        let column = get_line_num_str(count);
        let width = count.to_string().len();
        assert_eq!(column.len(), count * (width + 1) + 1);
        for (i, row) in column.lines().take(count).enumerate() {
            assert_eq!(row.len(), width);
            assert_eq!(row.trim_start(), (i + 1).to_string());
        }
        assert!(column.ends_with('~'));
    }
}

#[test]
fn line_count_follows_str_lines() {
    let samples = [
        "", "a", "a\n", "a\nb", "\n", "\n\n", "a\r\nb\r\n", "héllo\nwörld", "x\n\ny", "\r",
    ];
    for text in samples {
        assert_eq!(line_count(text), text.lines().count(), "text {:?}", text);
    }
}

#[test]
fn line_count_exact_values() {
    assert_eq!(line_count(""), 0);
    assert_eq!(line_count("one"), 1);
    assert_eq!(line_count("one\n"), 1);
    assert_eq!(line_count("one\ntwo"), 2);
    assert_eq!(line_count("one\n\n"), 2);
}
