use invoice_manager::date::{
    add_days, date_valid, days_in_month, is_leap_year, next_day, Date, DateInputState, DatePart,
};
use invoice_manager::input::Key;

fn d(year: i32, month: u32, day: u32) -> Date {
    Date { year, month, day }
}

fn type_digits(state: &mut DateInputState, digits: &str) {
    for c in digits.chars() {
        state.handle_input(Key::Char(c));
    }
}

#[test]
fn month_lengths() {
    assert_eq!(days_in_month(2023, 1), 31);
    assert_eq!(days_in_month(2023, 2), 28);
    assert_eq!(days_in_month(2024, 2), 29);
    assert_eq!(days_in_month(1900, 2), 28);
    assert_eq!(days_in_month(2000, 2), 29);
    assert_eq!(days_in_month(2023, 4), 30);
    assert_eq!(days_in_month(2023, 12), 31);
}

#[test]
fn leap_years() {
    assert!(is_leap_year(2024));
    assert!(!is_leap_year(2023));
    assert!(!is_leap_year(1900));
    assert!(is_leap_year(2000));
    // The rule is sign-independent.
    assert!(is_leap_year(-4));
    assert!(!is_leap_year(-100));
    assert_eq!(days_in_month(-4, 2), 29);
}

#[test]
fn validity_bounds() {
    assert!(date_valid(d(2024, 2, 29)));
    assert!(!date_valid(d(2023, 2, 29)));
    assert!(!date_valid(d(1899, 12, 31)));
    assert!(!date_valid(d(2101, 1, 1)));
    assert!(!date_valid(d(2024, 13, 1)));
    assert!(!date_valid(d(2024, 4, 31)));
    assert!(date_valid(d(1900, 1, 1)));
    assert!(date_valid(d(2100, 12, 31)));
}

#[test]
fn display_plain() {
    let state = DateInputState::new(d(2024, 1, 5));
    assert_eq!(state.get_display_string(), "2024-01-05");
}

#[test]
fn display_while_editing() {
    let mut state = DateInputState::new(d(2024, 1, 5));
    state.toggle_editing();
    assert_eq!(state.get_display_string(), "[YYYY]-01-05");
    type_digits(&mut state, "19");
    assert_eq!(state.get_display_string(), "[19]-01-05");
    state.handle_input(Key::Right);
    assert_eq!(state.get_display_string(), "2024-[MM]-05");
    state.handle_input(Key::Right);
    assert_eq!(state.get_display_string(), "2024-01-[DD]");
}

#[test]
fn year_commits_at_four_digits() {
    let mut state = DateInputState::new(d(2024, 1, 5));
    state.toggle_editing();
    type_digits(&mut state, "1999");
    assert_eq!(state.date, d(1999, 1, 5));
    assert!(state.current_date_input.is_empty());
}

#[test]
fn out_of_range_year_discarded_silently() {
    let mut state = DateInputState::new(d(2024, 1, 5));
    state.toggle_editing();
    type_digits(&mut state, "1800");
    assert_eq!(state.date, d(2024, 1, 5));
    assert!(state.current_date_input.is_empty());
}

#[test]
fn leap_day_only_in_leap_years() {
    // In a leap year the 29th of February is accepted.
    let mut state = DateInputState::new(d(2024, 2, 1));
    state.toggle_editing();
    state.handle_input(Key::Right);
    state.handle_input(Key::Right);
    type_digits(&mut state, "29");
    assert_eq!(state.date, d(2024, 2, 29));

    // In a common year the same keystrokes are discarded.
    let mut state = DateInputState::new(d(2023, 2, 1));
    state.toggle_editing();
    state.handle_input(Key::Right);
    state.handle_input(Key::Right);
    type_digits(&mut state, "29");
    assert_eq!(state.date, d(2023, 2, 1));
}

#[test]
fn month_change_that_invalidates_day_is_discarded() {
    let mut state = DateInputState::new(d(2024, 1, 31));
    state.toggle_editing();
    state.handle_input(Key::Right);
    type_digits(&mut state, "02");
    assert_eq!(state.date, d(2024, 1, 31));
}

#[test]
fn backspace_removes_scratch() {
    let mut state = DateInputState::new(d(2024, 1, 5));
    state.toggle_editing();
    type_digits(&mut state, "19");
    state.handle_input(Key::Backspace);
    assert_eq!(state.current_date_input, vec!['1']);
    type_digits(&mut state, "905");
    assert_eq!(state.date, d(1905, 1, 5));
}

#[test]
fn keys_ignored_outside_edit_mode() {
    let mut state = DateInputState::new(d(2024, 1, 5));
    type_digits(&mut state, "1999");
    state.handle_input(Key::Right);
    assert_eq!(state.date, d(2024, 1, 5));
    assert_eq!(state.date_part, DatePart::Year);
}

#[test]
fn render_digits_feed_back_without_drift() {
    // The round trip behind the date editor: type back exactly what the
    // display shows for each part and the date is unchanged.
    for date in [d(2024, 2, 29), d(1900, 1, 1), d(2100, 12, 31), d(1987, 6, 15)] {
        let mut state = DateInputState::new(date);
        state.toggle_editing();
        let text = DateInputState::new(date).get_display_string();
        let parts: Vec<&str> = text.split('-').collect();
        type_digits(&mut state, parts[0]);
        state.handle_input(Key::Right);
        type_digits(&mut state, parts[1]);
        state.handle_input(Key::Right);
        type_digits(&mut state, parts[2]);
        assert_eq!(state.date, date);
        assert!(state.current_date_input.is_empty());
    }
}

#[test]
fn day_arithmetic() {
    assert_eq!(next_day(d(2024, 2, 28)), d(2024, 2, 29));
    assert_eq!(next_day(d(2023, 2, 28)), d(2023, 3, 1));
    assert_eq!(next_day(d(2023, 12, 31)), d(2024, 1, 1));
    assert_eq!(add_days(d(2024, 2, 27), 5), d(2024, 3, 3));
    assert_eq!(add_days(d(2100, 12, 31), 3), d(2100, 12, 31));
}
