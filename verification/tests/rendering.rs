use sigi::data::{Item, LoadFailure};
use sigi::effects::views::{list_range, render_row, stack_to_load, window, ListAll, ListRange};
use sigi::output::{decimal_string, position_string, OutputFormat};

fn plain(contents: &str) -> Item {
    Item { contents: contents.to_string(), history: Vec::new() }
}

fn with_history(contents: &str, history: &[(&str, i64)]) -> Item {
    Item {
        contents: contents.to_string(),
        history: history.iter().map(|(status, moment)| (status.to_string(), *moment)).collect(),
    }
}

fn letters() -> Vec<Item> {
    vec![plain("a"), plain("b"), plain("c"), plain("d"), plain("e")]
}

fn clock(moment: i64) -> String {
    format!("<{}>", moment)
}

fn range(start: usize, limit: Option<usize>, from_end: bool) -> ListRange<'static> {
    ListRange { stack: "s", start, limit, from_end }
}

#[test]
fn people_see_now_and_padded_numbers() {
    assert_eq!(position_string(OutputFormat::Human, 0), "Now");
    assert_eq!(position_string(OutputFormat::Human, 5), "  5");
    assert_eq!(position_string(OutputFormat::Human, 42), " 42");
    assert_eq!(position_string(OutputFormat::Human, 123), "123");
}

#[test]
fn padding_changes_at_ten_and_at_a_hundred() {
    assert_eq!(position_string(OutputFormat::Human, 1), "  1");
    assert_eq!(position_string(OutputFormat::Human, 9), "  9");
    assert_eq!(position_string(OutputFormat::Human, 10), " 10");
    assert_eq!(position_string(OutputFormat::Human, 99), " 99");
    assert_eq!(position_string(OutputFormat::Human, 100), "100");
    assert_eq!(position_string(OutputFormat::Human, 1000), "1000");
    assert_eq!(position_string(OutputFormat::Human, usize::MAX), usize::MAX.to_string());
}

#[test]
fn programs_see_plain_numbers() {
    for output in [OutputFormat::Machine, OutputFormat::Silent] {
        assert_eq!(position_string(output, 0), "0");
        assert_eq!(position_string(output, 5), "5");
        assert_eq!(position_string(output, 42), "42");
        assert_eq!(position_string(output, 123), "123");
    }
}

#[test]
fn decimal_numerals() {
    assert_eq!(decimal_string(0), "0");
    assert_eq!(decimal_string(7), "7");
    assert_eq!(decimal_string(9), "9");
    assert_eq!(decimal_string(10), "10");
    assert_eq!(decimal_string(101), "101");
    assert_eq!(decimal_string(1234567890), "1234567890");
    assert_eq!(decimal_string(usize::MAX), usize::MAX.to_string());
}

#[test]
fn decimal_numerals_agree_with_the_standard_ones() {
    for n in 0..2500usize {
        assert_eq!(decimal_string(n), n.to_string());
    }
}

#[test]
fn creation_is_the_first_entry_so_labelled() {
    let item = with_history("x", &[("created", 10), ("completed", 20), ("created", 30)]);
    assert_eq!(item.created(), Some(10));
}

#[test]
fn entries_before_the_creation_are_passed_over() {
    let item = with_history("x", &[("moved", 5), ("Created", 6), ("created", 7), ("created", 8)]);
    assert_eq!(item.created(), Some(7));
}

#[test]
fn a_history_without_creation_has_no_moment() {
    assert_eq!(plain("x").created(), None);
    let item = with_history("x", &[("completed", 20), ("deleted", 30), ("create", 1)]);
    assert_eq!(item.created(), None);
}

#[test]
fn a_negative_moment_is_kept() {
    let item = with_history("x", &[("created", -86400)]);
    assert_eq!(item.created(), Some(-86400));
}

#[test]
fn a_row_holds_position_contents_and_creation() {
    let item = with_history("buy milk", &[("created", 1700000000)]);
    let row = render_row(OutputFormat::Human, 3, &item, &clock);
    assert_eq!(row, vec!["  3", "buy milk", "<1700000000>"]);
    let row = render_row(OutputFormat::Machine, 3, &item, &clock);
    assert_eq!(row, vec!["3", "buy milk", "<1700000000>"]);
}

#[test]
fn a_row_without_creation_says_unknown() {
    let row = render_row(OutputFormat::Human, 0, &plain("buy milk"), &clock);
    assert_eq!(row, vec!["Now", "buy milk", "unknown"]);
    let item = with_history("x", &[("completed", 20)]);
    let row = render_row(OutputFormat::Machine, 12, &item, &clock);
    assert_eq!(row, vec!["12", "x", "unknown"]);
}

#[test]
fn a_row_is_formatted_by_the_formatter_it_is_given() {
    let item = with_history("x", &[("created", 60)]);
    let minutes = |moment: i64| format!("{} min", moment / 60);
    let row = render_row(OutputFormat::Human, 0, &item, &minutes);
    assert_eq!(row, vec!["Now", "x", "1 min"]);
}

#[test]
fn a_window_from_the_top() {
    assert_eq!(window(&range(0, Some(2), false), 5), (0, 2));
    assert_eq!(window(&range(1, Some(2), false), 5), (1, 2));
    assert_eq!(window(&range(3, Some(2), false), 5), (3, 2));
    assert_eq!(window(&range(4, Some(2), false), 5), (4, 1));
}

#[test]
fn a_window_without_limit_reaches_the_oldest_item() {
    assert_eq!(window(&range(0, None, false), 5), (0, 5));
    assert_eq!(window(&range(2, None, false), 5), (2, 3));
    assert_eq!(window(&range(0, None, true), 5), (0, 5));
}

#[test]
fn a_window_that_starts_below_the_stack_is_empty() {
    assert_eq!(window(&range(5, Some(2), false), 5), (5, 0));
    assert_eq!(window(&range(9, None, false), 5), (5, 0));
    assert_eq!(window(&range(usize::MAX, Some(usize::MAX), false), 5), (5, 0));
}

#[test]
fn a_window_from_the_end_passes_over_the_newest() {
    assert_eq!(window(&range(0, Some(2), true), 5), (3, 2));
    assert_eq!(window(&range(0, Some(5), true), 5), (0, 5));
    assert_eq!(window(&range(0, Some(6), true), 5), (0, 5));
    assert_eq!(window(&range(0, Some(usize::MAX), true), 5), (0, 5));
    assert_eq!(window(&range(0, Some(0), true), 5), (5, 0));
}

#[test]
fn a_window_from_the_end_takes_no_account_of_start() {
    for start in [0usize, 1, 4, 5, 100, usize::MAX] {
        assert_eq!(window(&range(start, Some(2), true), 5), (3, 2));
    }
}

#[test]
fn a_window_on_an_empty_stack_is_empty() {
    assert_eq!(window(&range(0, None, false), 0), (0, 0));
    assert_eq!(window(&range(0, Some(10), false), 0), (0, 0));
    assert_eq!(window(&range(0, Some(10), true), 0), (0, 0));
    assert_eq!(window(&range(3, Some(0), true), 0), (0, 0));
}

#[test]
fn a_window_with_a_huge_limit_stops_at_the_oldest_item() {
    assert_eq!(window(&range(2, Some(usize::MAX), false), 5), (2, 3));
    assert_eq!(window(&range(0, Some(usize::MAX), false), usize::MAX), (0, usize::MAX));
}

#[test]
fn a_listing_from_the_middle_keeps_true_positions() {
    let slice = range(1, Some(3), false);
    let table = list_range(&slice, OutputFormat::Human, Ok(letters()), clock).unwrap();
    assert_eq!(table.headers, vec!["position", "item", "created"]);
    assert_eq!(
        table.rows,
        vec![
            vec!["  1", "d", "unknown"],
            vec!["  2", "c", "unknown"],
            vec!["  3", "b", "unknown"],
        ]
    );
}

#[test]
fn a_listing_from_the_end_takes_no_account_of_start() {
    let slice = range(4, Some(2), true);
    let table = list_range(&slice, OutputFormat::Machine, Ok(letters()), clock).unwrap();
    assert_eq!(table.rows, vec![vec!["3", "b", "unknown"], vec!["4", "a", "unknown"]]);
}

#[test]
fn a_listing_that_starts_below_the_stack_has_no_rows() {
    let slice = range(5, None, false);
    let table = list_range(&slice, OutputFormat::Machine, Ok(letters()), clock).unwrap();
    assert!(table.rows.is_empty());
}

#[test]
fn a_listing_resolves_the_creation_of_each_item() {
    let items = vec![
        with_history("old", &[("created", 1), ("completed", 2)]),
        plain("lost"),
        with_history("new", &[("moved", 7), ("created", 8), ("created", 9)]),
    ];
    let list = ListAll { stack: "s".to_string() };
    let table = list_range(&list.range(), OutputFormat::Human, Ok(items), clock).unwrap();
    assert_eq!(
        table.rows,
        vec![
            vec!["Now", "new", "<8>"],
            vec!["  1", "lost", "unknown"],
            vec!["  2", "old", "<1>"],
        ]
    );
}

#[test]
fn a_listing_of_a_failed_load_shows_nothing() {
    let list = ListAll { stack: "s".to_string() };
    assert_eq!(list_range(&list.range(), OutputFormat::Human, Err(LoadFailure), clock), None);
    assert_eq!(list_range(&list.range(), OutputFormat::Machine, Err(LoadFailure), clock), None);
}

#[test]
fn any_listing_is_idle_in_silent_mode() {
    let slice = range(1, Some(3), false);
    assert_eq!(stack_to_load(&slice, OutputFormat::Silent), None);
    assert_eq!(stack_to_load(&slice, OutputFormat::Human), Some("s"));
    assert_eq!(list_range(&slice, OutputFormat::Silent, Ok(letters()), clock), None);
}
