use metaagent::text_layout::{
    should_wrap_before_word, word_lengths_from_each_index, wrap_word_with_positions,
};

#[test]
fn wraps_by_word_when_possible() {
    let wrapped = wrap_word_with_positions("hello world", 6);
    assert_eq!(wrapped.rendered, "hello \nworld");
    assert_eq!(wrapped.line_count, 2);
}

#[test]
fn breaks_long_words_when_needed() {
    let wrapped = wrap_word_with_positions("abcdefghij", 4);
    assert_eq!(wrapped.rendered, "abcd\nefgh\nij");
    assert_eq!(wrapped.line_count, 3);
}

#[test]
fn produces_cursor_positions_for_each_char_boundary() {
    let wrapped = wrap_word_with_positions("abc def", 4);
    assert_eq!(wrapped.positions.len(), "abc def".chars().count() + 1);
    assert_eq!(wrapped.positions[0], (0, 0));
}

#[test]
fn positions_follow_the_cursor_over_every_character() {
    let wrapped = wrap_word_with_positions("abc def", 4);
    assert_eq!(wrapped.rendered, "abc \ndef");
    assert_eq!(
        wrapped.positions,
        vec![(0, 0), (0, 1), (0, 2), (0, 3), (1, 0), (1, 1), (1, 2), (1, 3)]
    );
    assert_eq!(wrapped.line_count, 2);
}

#[test]
fn a_word_that_does_not_fit_moves_to_a_fresh_line() {
    let wrapped = wrap_word_with_positions("ab cd", 4);
    assert_eq!(wrapped.rendered, "ab \ncd");
    assert_eq!(wrapped.positions, vec![(0, 0), (0, 1), (0, 2), (0, 3), (1, 1), (1, 2)]);
    assert_eq!(wrapped.line_count, 2);
}

#[test]
fn line_feeds_of_the_text_end_the_line() {
    let wrapped = wrap_word_with_positions("a\nb", 5);
    assert_eq!(wrapped.rendered, "a\nb");
    assert_eq!(wrapped.positions, vec![(0, 0), (0, 1), (1, 0), (1, 1)]);
    assert_eq!(wrapped.line_count, 2);
}

#[test]
fn a_width_of_zero_is_a_width_of_one() {
    let zero = wrap_word_with_positions("ab", 0);
    let one = wrap_word_with_positions("ab", 1);
    assert_eq!(zero.rendered, "a\nb\n");
    assert_eq!(zero.positions, vec![(0, 0), (1, 0), (2, 0)]);
    assert_eq!(zero.line_count, 3);
    assert_eq!(one.rendered, zero.rendered);
    assert_eq!(one.positions, zero.positions);
}

#[test]
fn the_empty_text_has_one_position_on_one_line() {
    let wrapped = wrap_word_with_positions("", 10);
    assert_eq!(wrapped.rendered, "");
    assert_eq!(wrapped.positions, vec![(0, 0)]);
    assert_eq!(wrapped.line_count, 1);
}

#[test]
fn wrapping_adds_line_feeds_and_nothing_else() {
    let text = "The quick brown fox\njumps over the extraordinarily lazy dog.  \t done";
    for width in [1u16, 2, 5, 8, 13, 80] {
        let wrapped = wrap_word_with_positions(text, width);
        let rendered: String = wrapped.rendered.chars().filter(|c| *c != '\n').collect();
        let given: String = text.chars().filter(|c| *c != '\n').collect();
        assert_eq!(rendered, given);
        assert!(wrapped.positions.iter().all(|(_, col)| *col < width));
        assert!(wrapped
            .rendered
            .split('\n')
            .all(|line| line.chars().count() <= width as usize));
        assert!(wrapped.positions.windows(2).all(|pair| pair[0].0 <= pair[1].0));
        let last_line = wrapped.positions.iter().map(|(line, _)| *line).max().unwrap();
        assert_eq!(wrapped.line_count, last_line + 1);
    }
}

#[test]
fn word_lengths_count_the_rest_of_each_word() {
    let chars: Vec<char> = "ab  cde\nf".chars().collect();
    assert_eq!(word_lengths_from_each_index(&chars), vec![2, 1, 0, 0, 3, 2, 1, 0, 1]);
    assert_eq!(word_lengths_from_each_index(&[]), Vec::<usize>::new());
}

#[test]
fn a_word_moves_down_only_where_it_starts_and_fits_a_line_of_its_own() {
    let chars: Vec<char> = "ab cde".chars().collect();
    let lengths = word_lengths_from_each_index(&chars);
    // "cde" starts at 3: it does not fit behind column 3 of 5, and fits a line of 5
    assert!(should_wrap_before_word(&chars, &lengths, 3, 3, 5));
    // it fits behind column 2
    assert!(!should_wrap_before_word(&chars, &lengths, 3, 2, 5));
    // at the start of a line nothing moves
    assert!(!should_wrap_before_word(&chars, &lengths, 3, 0, 5));
    // a word longer than the line is broken where it stands
    assert!(!should_wrap_before_word(&chars, &lengths, 3, 1, 2));
    // the middle of a word and a blank do not move
    assert!(!should_wrap_before_word(&chars, &lengths, 4, 4, 5));
    assert!(!should_wrap_before_word(&chars, &lengths, 2, 4, 5));
    // the first character starts a word
    assert!(should_wrap_before_word(&chars, &lengths, 0, 4, 5));
}

#[test]
fn the_sum_of_column_and_length_stops_at_the_largest_number() {
    let chars: Vec<char> = "ab".chars().collect();
    let lengths = word_lengths_from_each_index(&chars);
    assert!(should_wrap_before_word(&chars, &lengths, 0, usize::MAX, usize::MAX - 1));
    assert!(!should_wrap_before_word(&chars, &lengths, 0, usize::MAX, usize::MAX));
    // the length is taken as it is given
    assert!(should_wrap_before_word(&chars, &[7, 0], 0, 1, 7));
    assert!(!should_wrap_before_word(&chars, &[8, 0], 0, 1, 7));
}
