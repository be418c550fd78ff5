use fsqlctl::input::{InputAccumulator, Step};

#[test]
fn blank_line_stages_with_threshold_one() {
    let mut acc = InputAccumulator::new(1);
    assert_eq!(acc.feed_line("hello"), Step::Staged("hello".to_string()));
    let mut acc = InputAccumulator::new(1);
    assert_eq!(acc.feed_line("query a"), Step::Pending);
    assert_eq!(acc.feed_line(""), Step::Staged("query a".to_string()));
    assert_eq!(acc.line_count(), 0);
}

#[test]
fn hello_then_blank_line_stages_hello() {
    let mut acc = InputAccumulator::new(1);
    let first = acc.feed_line("hello");
    let staged = match first {
        Step::Staged(s) => s,
        Step::Pending => match acc.feed_line("") {
            Step::Staged(s) => s,
            other => panic!("unexpected {:?}", other),
        },
        other => panic!("unexpected {:?}", other),
    };
    assert_eq!(staged, "hello");
}

#[test]
fn single_word_stages_at_once() {
    let mut acc = InputAccumulator::new(2);
    assert_eq!(acc.feed_line("help"), Step::Staged("help".to_string()));
}

#[test]
fn two_blank_lines_with_threshold_two() {
    let mut acc = InputAccumulator::new(2);
    assert_eq!(acc.feed_line("query a"), Step::Pending);
    assert_eq!(acc.feed_line("  "), Step::Pending);
    assert_eq!(acc.feed_line(""), Step::Staged("query a".to_string()));
}

#[test]
fn semicolon_ends_a_command() {
    let mut acc = InputAccumulator::new(1);
    assert_eq!(acc.feed_line("query a"), Step::Pending);
    assert_eq!(acc.feed_line("  with b;  "), Step::Staged("query a\n  with b;".to_string()));
}

#[test]
fn blank_first_line_is_an_empty_command() {
    let mut acc = InputAccumulator::new(2);
    assert_eq!(acc.feed_line("   "), Step::Staged(String::new()));
}

#[test]
fn reset_discards_after_first_line_only() {
    let mut acc = InputAccumulator::new(1);
    assert_eq!(acc.feed_line("query a"), Step::Pending);
    assert_eq!(acc.feed_line(" \\RESET "), Step::Reset);
    assert_eq!(acc.line_count(), 0);
    assert_eq!(acc.feed_line("\\reset"), Step::Staged("\\reset".to_string()));
}

#[test]
fn clear_drops_the_command_in_progress() {
    let mut acc = InputAccumulator::new(1);
    assert_eq!(acc.feed_line("query a"), Step::Pending);
    acc.clear();
    assert_eq!(acc.line_count(), 0);
    assert_eq!(acc.feed_line("exit"), Step::Staged("exit".to_string()));
}
