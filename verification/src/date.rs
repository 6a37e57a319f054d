//! Calendar dates and the one-part-at-a-time date editor.
//!
//! A [`Date`] is a plain (year, month, day) triple under the Gregorian
//! leap-year rule, valid between the years 1900 and 2100.  The editor,
//! [`DateInputState`], replaces one focused part at a time from typed
//! digits, committing a new value only when the full width of the part has
//! been typed and the resulting date is valid; invalid input is discarded
//! silently.

use vstd::prelude::*;

use crate::input::{digit_of, spec_is_digit, Key};
use crate::text::{
    all_digits, digits_val_u32, lemma_digits_val_bound, pow10, push_char, push_four_digits,
    push_two_digits, spec_digits_val, spec_four_digits, spec_two_digits,
};

verus! {

/// Which part of a date has keyboard focus.
#[derive(Clone, Copy, PartialEq, Eq, Structural, Debug)]
pub enum DatePart {
    Year,
    Month,
    Day,
}

/// A calendar date as plain numbers.
#[derive(Clone, Copy, PartialEq, Eq, Structural, Debug)]
pub struct Date {
    pub year: i32,
    pub month: u32,
    pub day: u32,
}

/// The Gregorian leap-year rule: divisible by four and not by one hundred,
/// or divisible by four hundred.
pub open spec fn leap_year(y: int) -> bool {
    (y % 4 == 0 && y % 100 != 0) || y % 400 == 0
}

/// Days in a month of a given year.
pub open spec fn month_days(y: int, m: int) -> int {
    if m == 1 || m == 3 || m == 5 || m == 7 || m == 8 || m == 10 || m == 12 {
        31
    } else if m == 4 || m == 6 || m == 9 || m == 11 {
        30
    } else if m == 2 {
        if leap_year(y) {
            29
        } else {
            28
        }
    } else {
        30
    }
}

/// Executable twin of [`leap_year`]; divisibility does not depend on the
/// sign, so any year is accepted.
pub fn is_leap_year(year: i32) -> (r: bool)
    ensures
        r == leap_year(year as int),
{
    (year % 4 == 0 && year % 100 != 0) || year % 400 == 0
}

/// Executable twin of [`month_days`].  Months outside one to twelve get the
/// fallback of thirty days, so the function is total.
pub fn days_in_month(year: i32, month: u32) -> (r: u32)
    ensures
        r as int == month_days(year as int, month as int),
{
    match month {
        1 | 3 | 5 | 7 | 8 | 10 | 12 => 31,
        4 | 6 | 9 | 11 => 30,
        2 => {
            if is_leap_year(year) {
                29
            } else {
                28
            }
        },
        _ => 30,
    }
}

impl Date {
    /// A date the editor accepts: year 1900 to 2100, month and day within
    /// the Gregorian calendar.
    pub open spec fn valid(self) -> bool {
        &&& 1900 <= self.year <= 2100
        &&& 1 <= self.month <= 12
        &&& 1 <= self.day <= month_days(self.year as int, self.month as int)
    }
}

/// Whether `d` is a valid calendar date within the editor's bounds.
pub fn date_valid(d: Date) -> (b: bool)
    ensures
        b == d.valid(),
{
    if d.year < 1900 || d.year > 2100 {
        return false;
    }
    if d.month < 1 || d.month > 12 {
        return false;
    }
    d.day >= 1 && d.day <= days_in_month(d.year, d.month)
}

/// The date `d` with one part replaced.
pub open spec fn spec_replace_part(d: Date, p: DatePart, v: int) -> Date {
    match p {
        DatePart::Year => Date { year: v as i32, month: d.month, day: d.day },
        DatePart::Month => Date { year: d.year, month: v as u32, day: d.day },
        DatePart::Day => Date { year: d.year, month: d.month, day: v as u32 },
    }
}

/// Executable twin of [`spec_replace_part`].
pub fn replace_part(d: Date, p: DatePart, v: u32) -> (r: Date)
    requires
        v < 10000,
    ensures
        r == spec_replace_part(d, p, v as int),
{
    match p {
        DatePart::Year => Date { year: v as i32, month: d.month, day: d.day },
        DatePart::Month => Date { year: d.year, month: v, day: d.day },
        DatePart::Day => Date { year: d.year, month: d.month, day: v },
    }
}

/// Focus order of the parts, cycling forward.
pub open spec fn spec_next_part(p: DatePart) -> DatePart {
    match p {
        DatePart::Year => DatePart::Month,
        DatePart::Month => DatePart::Day,
        DatePart::Day => DatePart::Year,
    }
}

/// Focus order of the parts, cycling backward.
pub open spec fn spec_previous_part(p: DatePart) -> DatePart {
    match p {
        DatePart::Year => DatePart::Day,
        DatePart::Month => DatePart::Year,
        DatePart::Day => DatePart::Month,
    }
}

/// Digits a part is typed with: four for the year, two otherwise.
pub open spec fn spec_part_width(p: DatePart) -> int {
    match p {
        DatePart::Year => 4,
        DatePart::Month => 2,
        DatePart::Day => 2,
    }
}

fn part_width(p: DatePart) -> (w: usize)
    ensures
        w as int == spec_part_width(p),
{
    match p {
        DatePart::Year => 4,
        DatePart::Month => 2,
        DatePart::Day => 2,
    }
}

/// The date editor: the current value, whether it is in edit mode, the
/// focused part, and the scratch buffer for the digits typed so far.
pub struct DateInputState {
    pub date: Date,
    pub editing: bool,
    pub date_part: DatePart,
    pub current_date_input: Vec<char>,
}

/// The editor's state as mathematical values.
#[verifier::ext_equal]
pub struct DateEditView {
    pub date: Date,
    pub editing: bool,
    pub part: DatePart,
    pub scratch: Seq<char>,
}

impl View for DateInputState {
    type V = DateEditView;

    open spec fn view(&self) -> DateEditView {
        DateEditView {
            date: self.date,
            editing: self.editing,
            part: self.date_part,
            scratch: self.current_date_input@,
        }
    }
}

impl DateEditView {
    /// Editor states reachable through the public operations: the date is
    /// valid and the scratch buffer holds digits only.
    pub open spec fn wf(self) -> bool {
        self.date.valid() && all_digits(self.scratch)
    }
}

/// One typed digit: append to the scratch buffer, keep only the trailing
/// part-width characters, and when the buffer is exactly full, commit the
/// value if it makes a valid date, discarding it silently otherwise; the
/// buffer is cleared either way.
pub open spec fn spec_input_digit(v: DateEditView, c: char) -> DateEditView {
    let w = spec_part_width(v.part);
    let grown = v.scratch.push(c);
    let kept = if grown.len() > w {
        grown.subrange(grown.len() - w, grown.len() as int)
    } else {
        grown
    };
    if kept.len() == w {
        let n = spec_digits_val(kept);
        let candidate = spec_replace_part(v.date, v.part, n);
        DateEditView {
            date: if candidate.valid() {
                candidate
            } else {
                v.date
            },
            editing: v.editing,
            part: v.part,
            scratch: Seq::empty(),
        }
    } else {
        DateEditView { date: v.date, editing: v.editing, part: v.part, scratch: kept }
    }
}

/// The editor's whole transition function over one key.
pub open spec fn spec_date_step(v: DateEditView, key: Key) -> DateEditView {
    if !v.editing {
        v
    } else {
        match key {
            Key::Char(c) => if spec_is_digit(c) {
                spec_input_digit(v, c)
            } else {
                v
            },
            Key::Backspace => if v.scratch.len() == 0 {
                v
            } else {
                DateEditView {
                    date: v.date,
                    editing: v.editing,
                    part: v.part,
                    scratch: v.scratch.drop_last(),
                }
            },
            Key::Right => DateEditView {
                date: v.date,
                editing: v.editing,
                part: spec_next_part(v.part),
                scratch: Seq::empty(),
            },
            Key::Left => DateEditView {
                date: v.date,
                editing: v.editing,
                part: spec_previous_part(v.part),
                scratch: Seq::empty(),
            },
            _ => v,
        }
    }
}

/// Edit-mode toggle of the date editor: entering edit mode resets focus
/// to the year and clears the scratch buffer; leaving it changes nothing
/// else.
pub open spec fn spec_date_toggle(v: DateEditView) -> DateEditView {
    if !v.editing {
        DateEditView {
            date: v.date,
            editing: true,
            part: DatePart::Year,
            scratch: Seq::empty(),
        }
    } else {
        DateEditView { editing: false, ..v }
    }
}

impl DateInputState {
    /// A fresh editor over `date`, not in edit mode, focused on the year.
    pub fn new(date: Date) -> (s: DateInputState)
        ensures
            s@ == (DateEditView {
                date,
                editing: false,
                part: DatePart::Year,
                scratch: Seq::<char>::empty(),
            }),
            date.valid() ==> s@.wf(),
    {
        let s = DateInputState {
            date,
            editing: false,
            date_part: DatePart::Year,
            current_date_input: Vec::new(),
        };
        proof {
            assert(s@ =~= DateEditView {
                date,
                editing: false,
                part: DatePart::Year,
                scratch: Seq::<char>::empty(),
            });
        }
        s
    }

    /// Flips edit mode; entering it resets focus to the year and clears the
    /// scratch buffer.
    pub fn toggle_editing(&mut self)
        ensures
            final(self)@ == spec_date_toggle(old(self)@),
            final(self).date == old(self).date,
            final(self).editing == !old(self).editing,
    {
        self.editing = !self.editing;
        if self.editing {
            self.date_part = DatePart::Year;
            self.current_date_input.clear();
        }
        proof {
            assert(self@ =~= spec_date_toggle(old(self)@));
        }
    }

    /// Moves focus to the next part and clears the scratch buffer.
    pub fn next_date_part(&mut self)
        ensures
            final(self)@ == (DateEditView {
                date: old(self).date,
                editing: old(self).editing,
                part: spec_next_part(old(self).date_part),
                scratch: Seq::<char>::empty(),
            }),
    {
        self.date_part = match self.date_part {
            DatePart::Year => DatePart::Month,
            DatePart::Month => DatePart::Day,
            DatePart::Day => DatePart::Year,
        };
        self.current_date_input.clear();
    }

    /// Moves focus to the previous part and clears the scratch buffer.
    pub fn previous_date_part(&mut self)
        ensures
            final(self)@ == (DateEditView {
                date: old(self).date,
                editing: old(self).editing,
                part: spec_previous_part(old(self).date_part),
                scratch: Seq::<char>::empty(),
            }),
    {
        self.date_part = match self.date_part {
            DatePart::Year => DatePart::Day,
            DatePart::Month => DatePart::Year,
            DatePart::Day => DatePart::Month,
        };
        self.current_date_input.clear();
    }

    /// Applies one key in edit mode: digits accumulate toward a part
    /// commit, backspace removes the last scratch character, left and right
    /// move focus.  Outside edit mode every key is ignored.
    pub fn handle_input(&mut self, key: Key)
        requires
            old(self)@.wf(),
        ensures
            final(self)@ == spec_date_step(old(self)@, key),
            final(self)@.wf(),
    {
        if !self.editing {
            return;
        }
        match key {
            Key::Char(c) => {
                if digit_of(c).is_some() {
                    self.input_digit(c);
                }
            },
            Key::Backspace => {
                let _ = self.current_date_input.pop();
                proof {
                    if old(self)@.scratch.len() > 0 {
                        assert(final(self)@ =~= spec_date_step(old(self)@, key));
                    } else {
                        assert(final(self)@ =~= old(self)@);
                    }
                }
            },
            Key::Right => {
                self.next_date_part();
            },
            Key::Left => {
                self.previous_date_part();
            },
            _ => {},
        }
    }

    /// One accepted digit; see [`spec_input_digit`].
    fn input_digit(&mut self, c: char)
        requires
            old(self)@.wf(),
            old(self).editing,
            spec_is_digit(c),
        ensures
            final(self)@ == spec_input_digit(old(self)@, c),
            final(self)@.wf(),
    {
        self.current_date_input.push(c);
        let ghost grown = self.current_date_input@;
        let w = part_width(self.date_part);
        while self.current_date_input.len() > w
            invariant
                w as int == spec_part_width(self.date_part),
                self.current_date_input@.len() <= grown.len(),
                self.current_date_input@ =~= grown.subrange(
                    grown.len() - self.current_date_input@.len(),
                    grown.len() as int,
                ),
                self.current_date_input@.len() >= w || self.current_date_input@.len()
                    == grown.len(),
                self.date == old(self).date,
                self.editing == old(self).editing,
                self.date_part == old(self).date_part,
                all_digits(grown),
            decreases self.current_date_input@.len(),
        {
            let _ = self.current_date_input.remove(0);
        }
        let ghost kept = self.current_date_input@;
        proof {
            assert(all_digits(kept));
            if grown.len() > w as int {
                assert(kept =~= grown.subrange(grown.len() - w, grown.len() as int));
            } else {
                assert(kept =~= grown);
            }
        }
        if self.current_date_input.len() == w {
            proof {
                reveal_with_fuel(pow10, 5);
                lemma_digits_val_bound(kept);
            }
            let n = digits_val_u32(&self.current_date_input);
            let candidate = replace_part(self.date, self.date_part, n);
            if date_valid(candidate) {
                self.date = candidate;
            }
            self.current_date_input.clear();
        }
        proof {
            assert(final(self)@ =~= spec_input_digit(old(self)@, c));
        }
    }
}


/// The placeholder shown for an empty scratch buffer.
pub open spec fn spec_placeholder(p: DatePart) -> Seq<char> {
    match p {
        DatePart::Year => seq!['Y', 'Y', 'Y', 'Y'],
        DatePart::Month => seq!['M', 'M'],
        DatePart::Day => seq!['D', 'D'],
    }
}

/// The bracketed marker shown after the focused part while editing: the
/// scratch digits, or the part's placeholder when nothing is typed yet.
pub open spec fn spec_marker(v: DateEditView) -> Seq<char> {
    seq!['['] + (if v.scratch.len() > 0 {
        v.scratch
    } else {
        spec_placeholder(v.part)
    }) + seq![']']
}

/// A date as text: four year digits, a dash, two month digits, a dash,
/// two day digits.
pub open spec fn spec_date_string(d: Date) -> Seq<char> {
    spec_four_digits(d.year as int) + seq!['-'] + spec_two_digits(d.month as int) + seq!['-']
        + spec_two_digits(d.day as int)
}

/// What the editor displays: the date's text with, in edit mode, the
/// focused part replaced by the marker.
pub open spec fn spec_display_string(v: DateEditView) -> Seq<char> {
    (if v.editing && v.part == DatePart::Year {
        spec_marker(v)
    } else {
        spec_four_digits(v.date.year as int)
    }) + seq!['-'] + (if v.editing && v.part == DatePart::Month {
        spec_marker(v)
    } else {
        spec_two_digits(v.date.month as int)
    }) + seq!['-'] + (if v.editing && v.part == DatePart::Day {
        spec_marker(v)
    } else {
        spec_two_digits(v.date.day as int)
    })
}

/// Writes a valid date as text; see [`spec_date_string`].
pub fn format_date(d: Date) -> (s: String)
    requires
        d.valid(),
    ensures
        s@ == spec_date_string(d),
{
    let mut s = String::new();
    push_four_digits(&mut s, d.year as u32);
    push_char(&mut s, '-');
    push_two_digits(&mut s, d.month);
    push_char(&mut s, '-');
    push_two_digits(&mut s, d.day);
    proof {
        assert(s@ =~= spec_date_string(d));
    }
    s
}

impl DateInputState {
    /// Appends the editing marker; see [`spec_marker`].
    fn push_marker(&self, s: &mut String)
        ensures
            final(s)@ == old(s)@ + spec_marker(self@),
    {
        push_char(s, '[');
        if self.current_date_input.len() == 0 {
            match self.date_part {
                DatePart::Year => {
                    push_char(s, 'Y');
                    push_char(s, 'Y');
                    push_char(s, 'Y');
                    push_char(s, 'Y');
                },
                DatePart::Month => {
                    push_char(s, 'M');
                    push_char(s, 'M');
                },
                DatePart::Day => {
                    push_char(s, 'D');
                    push_char(s, 'D');
                },
            }
        } else {
            let mut i: usize = 0;
            let ghost mid = s@;
            while i < self.current_date_input.len()
                invariant
                    i <= self.current_date_input@.len(),
                    s@ == mid + self@.scratch.subrange(0, i as int),
                decreases self.current_date_input@.len() - i,
            {
                push_char(s, self.current_date_input[i]);
                proof {
                    assert(s@ =~= mid + self@.scratch.subrange(0, i as int + 1));
                }
                i = i + 1;
            }
            proof {
                assert(self@.scratch.subrange(0, self@.scratch.len() as int) =~= self@.scratch);
            }
        }
        push_char(s, ']');
        proof {
            assert(final(s)@ =~= old(s)@ + spec_marker(self@));
        }
    }

    /// The text the editor shows; see [`spec_display_string`].
    pub fn get_display_string(&self) -> (s: String)
        requires
            self@.date.valid(),
        ensures
            s@ == spec_display_string(self@),
    {
        let mut s = String::new();
        if self.editing && self.date_part == DatePart::Year {
            self.push_marker(&mut s);
        } else {
            push_four_digits(&mut s, self.date.year as u32);
        }
        push_char(&mut s, '-');
        if self.editing && self.date_part == DatePart::Month {
            self.push_marker(&mut s);
        } else {
            push_two_digits(&mut s, self.date.month);
        }
        push_char(&mut s, '-');
        if self.editing && self.date_part == DatePart::Day {
            self.push_marker(&mut s);
        } else {
            push_two_digits(&mut s, self.date.day);
        }
        proof {
            assert(s@ =~= spec_display_string(self@));
        }
        s
    }
}

/// Calendar order on dates: by year, then month, then day.
pub open spec fn spec_date_le(a: Date, b: Date) -> bool {
    if a.year != b.year {
        a.year < b.year
    } else if a.month != b.month {
        a.month < b.month
    } else {
        a.day <= b.day
    }
}

/// Executable twin of [`spec_date_le`].
pub fn date_le(a: Date, b: Date) -> (r: bool)
    ensures
        r == spec_date_le(a, b),
{
    if a.year != b.year {
        a.year < b.year
    } else if a.month != b.month {
        a.month < b.month
    } else {
        a.day <= b.day
    }
}

/// The day after `d`, saturating at the last supported day.
pub open spec fn spec_next_day(d: Date) -> Date {
    if d.day < month_days(d.year as int, d.month as int) {
        Date { year: d.year, month: d.month, day: (d.day + 1) as u32 }
    } else if d.month < 12 {
        Date { year: d.year, month: (d.month + 1) as u32, day: 1 }
    } else if d.year < 2100 {
        Date { year: (d.year + 1) as i32, month: 1, day: 1 }
    } else {
        d
    }
}

/// Executable twin of [`spec_next_day`]; valid dates stay valid.
pub fn next_day(d: Date) -> (r: Date)
    requires
        d.valid(),
    ensures
        r == spec_next_day(d),
        r.valid(),
{
    if d.day < days_in_month(d.year, d.month) {
        Date { year: d.year, month: d.month, day: d.day + 1 }
    } else if d.month < 12 {
        Date { year: d.year, month: d.month + 1, day: 1 }
    } else if d.year < 2100 {
        Date { year: d.year + 1, month: 1, day: 1 }
    } else {
        d
    }
}

/// `d` moved forward day by day, `n` times.
pub open spec fn spec_add_days(d: Date, n: int) -> Date
    decreases n,
{
    if n <= 0 {
        d
    } else {
        spec_next_day(spec_add_days(d, n - 1))
    }
}

/// Executable twin of [`spec_add_days`].
pub fn add_days(d: Date, n: u32) -> (r: Date)
    requires
        d.valid(),
    ensures
        r == spec_add_days(d, n as int),
        r.valid(),
{
    let mut acc = d;
    let mut i: u32 = 0;
    while i < n
        invariant
            i <= n,
            acc == spec_add_days(d, i as int),
            acc.valid(),
        decreases n - i,
    {
        acc = next_day(acc);
        i = i + 1;
    }
    acc
}

/// The digits of a rendered date fed back into the editor, one by one.
pub open spec fn spec_feed_digits(v: DateEditView, s: Seq<char>) -> DateEditView
    decreases s.len(),
{
    if s.len() == 0 {
        v
    } else {
        spec_feed_digits(spec_date_step(v, Key::Char(s[0])), s.drop_first())
    }
}

/// Law: a valid date round-trips through its rendered text.  Opening the
/// editor and typing back the four year digits, the two month digits and
/// the two day digits that the display shows — moving focus right between
/// parts — reproduces exactly the same date, with an empty scratch buffer.
pub proof fn lemma_date_render_round_trip(d: Date)
    requires
        d.valid(),
    ensures
        ({
            let s0 = DateEditView {
                date: d,
                editing: true,
                part: DatePart::Year,
                scratch: Seq::<char>::empty(),
            };
            let s1 = spec_feed_digits(s0, spec_four_digits(d.year as int));
            let s2 = spec_date_step(s1, Key::Right);
            let s3 = spec_feed_digits(s2, spec_two_digits(d.month as int));
            let s4 = spec_date_step(s3, Key::Right);
            let s5 = spec_feed_digits(s4, spec_two_digits(d.day as int));
            s5 == (DateEditView {
                date: d,
                editing: true,
                part: DatePart::Day,
                scratch: Seq::<char>::empty(),
            })
        }),
{
    let s0 = DateEditView {
        date: d,
        editing: true,
        part: DatePart::Year,
        scratch: Seq::<char>::empty(),
    };
    crate::text::lemma_four_digits_round_trip(d.year as int);
    crate::text::lemma_two_digits_round_trip(d.month as int);
    crate::text::lemma_two_digits_round_trip(d.day as int);
    let s1 = lemma_feed_full_part(s0, spec_four_digits(d.year as int));
    assert(spec_replace_part(d, DatePart::Year, d.year as int) == d);
    assert(s1.date == d && s1.scratch =~= Seq::<char>::empty());
    let s2 = spec_date_step(s1, Key::Right);
    assert(s2 == (DateEditView {
        date: d,
        editing: true,
        part: DatePart::Month,
        scratch: Seq::<char>::empty(),
    }));
    let s3 = lemma_feed_full_part(s2, spec_two_digits(d.month as int));
    assert(spec_replace_part(d, DatePart::Month, d.month as int) == d);
    assert(s3.date == d && s3.scratch =~= Seq::<char>::empty());
    let s4 = spec_date_step(s3, Key::Right);
    let s5 = lemma_feed_full_part(s4, spec_two_digits(d.day as int));
    assert(spec_replace_part(d, DatePart::Day, d.day as int) == d);
    assert(s5 =~= DateEditView {
        date: d,
        editing: true,
        part: DatePart::Day,
        scratch: Seq::<char>::empty(),
    });
}

/// Feeding exactly one part's width of digits into an empty scratch
/// buffer commits their value once, at the last digit.
proof fn lemma_feed_full_part(v: DateEditView, s: Seq<char>) -> (r: DateEditView)
    requires
        v.editing,
        v.scratch.len() == 0,
        all_digits(s),
        s.len() == spec_part_width(v.part),
    ensures
        r == spec_feed_digits(v, s),
        ({
            let candidate = spec_replace_part(v.date, v.part, spec_digits_val(s));
            r == (DateEditView {
                date: if candidate.valid() {
                    candidate
                } else {
                    v.date
                },
                editing: v.editing,
                part: v.part,
                scratch: Seq::<char>::empty(),
            })
        }),
{
    lemma_feed_prefix(v, s, s.len() as int);
    lemma_feed_equiv(v, s);
    spec_feed_digits(v, s)
}

/// Peeling digits from the front or from the back feeds the same keys.
proof fn lemma_feed_shift(v: DateEditView, s: Seq<char>, k: int)
    requires
        s.len() > 0,
        1 <= k <= s.len(),
    ensures
        spec_feed_digits_partial(v, s, k) == spec_feed_digits_partial(
            spec_date_step(v, Key::Char(s[0])),
            s.drop_first(),
            k - 1,
        ),
    decreases k,
{
    if k > 1 {
        lemma_feed_shift(v, s, k - 1);
        assert(s.drop_first()[k - 2] == s[k - 1]);
    } else {
        assert(spec_feed_digits_partial(v, s, 0) == v);
        assert(spec_feed_digits_partial(
            spec_date_step(v, Key::Char(s[0])),
            s.drop_first(),
            0,
        ) == spec_date_step(v, Key::Char(s[0])));
    }
}

/// The one-key step function folded over a digit sequence equals feeding
/// its digits one at a time.
proof fn lemma_feed_equiv(v: DateEditView, s: Seq<char>)
    ensures
        spec_feed_digits(v, s) == spec_feed_digits_partial(v, s, s.len() as int),
    decreases s.len(),
{
    if s.len() > 0 {
        let w = spec_date_step(v, Key::Char(s[0]));
        lemma_feed_equiv(w, s.drop_first());
        lemma_feed_shift(v, s, s.len() as int);
    }
}

/// The scratch buffer after feeding the first `k` digits of a part-width
/// sequence: the digits themselves, until the final commit clears them.
pub open spec fn spec_feed_digits_partial(v: DateEditView, s: Seq<char>, k: int) -> DateEditView
    decreases k,
{
    if k <= 0 {
        v
    } else {
        spec_date_step(spec_feed_digits_partial(v, s, k - 1), Key::Char(s[k - 1]))
    }
}

/// Feeding digit by digit grows the scratch buffer until the last digit
/// commits the typed value.
proof fn lemma_feed_prefix(v: DateEditView, s: Seq<char>, k: int)
    requires
        v.editing,
        v.scratch.len() == 0,
        all_digits(s),
        s.len() == spec_part_width(v.part),
        0 <= k <= s.len(),
    ensures
        spec_feed_digits_partial(v, s, k) == (if k < s.len() {
            DateEditView {
                date: v.date,
                editing: v.editing,
                part: v.part,
                scratch: s.subrange(0, k),
            }
        } else {
            let candidate = spec_replace_part(v.date, v.part, spec_digits_val(s));
            DateEditView {
                date: if candidate.valid() {
                    candidate
                } else {
                    v.date
                },
                editing: v.editing,
                part: v.part,
                scratch: Seq::<char>::empty(),
            }
        }),
    decreases k,
{
    if k == 0 {
        assert(s.subrange(0, 0) =~= Seq::<char>::empty());
        assert(spec_feed_digits_partial(v, s, 0) =~= DateEditView {
            date: v.date,
            editing: v.editing,
            part: v.part,
            scratch: s.subrange(0, 0),
        });
    } else {
        lemma_feed_prefix(v, s, k - 1);
        let prev = spec_feed_digits_partial(v, s, k - 1);
        assert(spec_is_digit(s[k - 1]));
        if k < s.len() {
            assert(prev.scratch =~= s.subrange(0, k - 1));
            assert(prev.scratch.push(s[k - 1]) =~= s.subrange(0, k));
            assert(s.subrange(0, k).len() < spec_part_width(v.part));
        } else {
            assert(prev.scratch =~= s.subrange(0, k - 1));
            assert(prev.scratch.push(s[k - 1]) =~= s);
        }
    }
}

/// Law: within the editor's year bounds, the twenty-ninth of February is
/// accepted exactly in leap years.
pub proof fn lemma_leap_day(y: i32)
    requires
        1900 <= y <= 2100,
    ensures
        (Date { year: y, month: 2, day: 29 }).valid() <==> leap_year(y as int),
{
}

} // verus!
