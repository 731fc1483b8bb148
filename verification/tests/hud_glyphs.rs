use pong3d::hud::{digit_segments, score_digits, SEGMENT_COUNT};

fn text(score: u32) -> String {
    score_digits(score).into_iter().collect()
}

#[test]
fn digits_match_to_string() {
    for n in [0u32, 7, 10, 11, 99, 105, 1000, 65535, 4_294_967_295] {
        assert_eq!(text(n), n.to_string());
    }
    for n in 0u32..2000 {
        assert_eq!(text(n), n.to_string());
    }
}

#[test]
fn single_digit_scores() {
    assert_eq!(score_digits(0), vec!['0']);
    assert_eq!(score_digits(9), vec!['9']);
    assert_eq!(score_digits(12), vec!['1', '2']);
}

#[test]
fn segment_table_per_digit() {
    assert_eq!(digit_segments('0'), [true, true, true, true, true, true, false]);
    assert_eq!(digit_segments('1'), [false, true, true, false, false, false, false]);
    assert_eq!(digit_segments('2'), [true, true, false, true, true, false, true]);
    assert_eq!(digit_segments('3'), [true, true, true, true, false, false, true]);
    assert_eq!(digit_segments('4'), [false, true, true, false, false, true, true]);
    assert_eq!(digit_segments('5'), [true, false, true, true, false, true, true]);
    assert_eq!(digit_segments('6'), [true, false, true, true, true, true, true]);
    assert_eq!(digit_segments('7'), [true, true, true, false, false, false, false]);
    assert_eq!(digit_segments('8'), [true; 7]);
    assert_eq!(digit_segments('9'), [true, true, true, true, false, true, true]);
}

#[test]
fn lit_segment_counts() {
    let counts: Vec<usize> = ('0'..='9')
        .map(|c| digit_segments(c).iter().filter(|s| **s).count())
        .collect();
    assert_eq!(counts, vec![6, 2, 5, 5, 4, 5, 6, 3, 7, 6]);
    assert_eq!(SEGMENT_COUNT, 7);
}

#[test]
fn non_digits_light_nothing() {
    for c in ['x', ' ', '-', 'A', '/', ':'] {
        assert_eq!(digit_segments(c), [false; 7]);
    }
}
