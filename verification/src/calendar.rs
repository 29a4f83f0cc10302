//! Calendar arithmetic behind the date picker: clamped dates, month
//! navigation, month lengths, weekday of a date, the month grid, and the
//! picker's reactions to clicks.
use vstd::prelude::*;
use crate::foundation::Size;
use crate::text::{decimal, push_char, push_decimal};

verus! {

/// A calendar day; `new` keeps the month in 1..=12 and the day within the month.
#[derive(Clone, Copy, Debug, PartialEq, Eq, Structural)]
pub struct CalendarDate {
    pub year: i32,
    pub month: u8,
    pub day: u8,
}

/// A month of a year, as shown by the date picker.
#[derive(Clone, Copy, Debug, PartialEq, Eq, Structural)]
pub struct CalendarMonth {
    pub year: i32,
    pub month: u8,
}

/// `v` limited to `lo..=hi`.
pub open spec fn clamp_int(v: int, lo: int, hi: int) -> int {
    if v < lo {
        lo
    } else if v > hi {
        hi
    } else {
        v
    }
}

/// Gregorian leap years.
pub open spec fn leap_year(year: int) -> bool {
    (year % 4 == 0 && year % 100 != 0) || year % 400 == 0
}

/// Days in `month` of `year`; a month outside 1..=12 counts 31 days.
pub open spec fn month_days(year: int, month: int) -> int {
    if month == 2 {
        if leap_year(year) {
            29
        } else {
            28
        }
    } else if month == 4 || month == 6 || month == 9 || month == 11 {
        30
    } else {
        31
    }
}

pub fn is_leap_year(year: i32) -> (r: bool)
    ensures
        r == leap_year(year as int),
{
    (year % 4 == 0 && year % 100 != 0) || year % 400 == 0
}

pub fn days_in_month(year: i32, month: u8) -> (r: u8)
    ensures
        r == month_days(year as int, month as int),
        28 <= r <= 31,
{
    match month {
        1 | 3 | 5 | 7 | 8 | 10 | 12 => 31,
        4 | 6 | 9 | 11 => 30,
        2 => {
            if is_leap_year(year) {
                29
            } else {
                28
            }
        },
        _ => 31,
    }
}

fn clamp_u8(v: u8, lo: u8, hi: u8) -> (r: u8)
    requires
        lo <= hi,
    ensures
        r == clamp_int(v as int, lo as int, hi as int),
{
    if v < lo {
        lo
    } else if v > hi {
        hi
    } else {
        v
    }
}

impl CalendarDate {
    /// A date that names a real day: month and day in range.
    pub open spec fn is_valid(self) -> bool {
        &&& 1 <= self.month <= 12
        &&& 1 <= self.day <= month_days(self.year as int, self.month as int)
    }

    /// The date `year-month-day`, with the month clamped to 1..=12 and the
    /// day clamped to the days of that month.
    pub fn new(year: i32, month: u8, day: u8) -> (r: Self)
        ensures
            r.year == year,
            r.month == clamp_int(month as int, 1, 12),
            r.day == clamp_int(day as int, 1, month_days(year as int, r.month as int)),
            r.is_valid(),
    {
        let month = clamp_u8(month, 1, 12);
        let days = days_in_month(year, month);
        let day = clamp_u8(day, 1, days);
        CalendarDate { year, month, day }
    }
}

/// A valid date is left unchanged by `CalendarDate::new`.
pub proof fn lemma_new_keeps_valid_date(d: CalendarDate)
    requires
        d.is_valid(),
    ensures
        clamp_int(d.month as int, 1, 12) == d.month,
        clamp_int(d.day as int, 1, month_days(d.year as int, d.month as int)) == d.day,
{
}

/// Position of a month counted from January of year 0.
pub open spec fn month_index(year: int, month: int) -> int {
    year * 12 + month - 1
}

/// The month `delta` months after `m` (before it when `delta < 0`).
pub open spec fn shifted(m: CalendarMonth, delta: int) -> CalendarMonth {
    let z = month_index(m.year as int, m.month as int) + delta;
    CalendarMonth { year: (z / 12) as i32, month: (z % 12 + 1) as u8 }
}

/// The shift stays within `i32` at every step of its computation.
pub open spec fn shift_fits(m: CalendarMonth, delta: int) -> bool {
    &&& i32::MIN <= m.year * 12 <= i32::MAX
    &&& i32::MIN <= m.year * 12 + m.month <= i32::MAX
    &&& i32::MIN <= month_index(m.year as int, m.month as int) + delta <= i32::MAX
}

impl CalendarMonth {
    pub open spec fn is_valid(self) -> bool {
        1 <= self.month <= 12
    }

    /// The month `month` of `year`, with the month clamped to 1..=12.
    pub fn new(year: i32, month: u8) -> (r: Self)
        ensures
            r.year == year,
            r.month == clamp_int(month as int, 1, 12),
            r.is_valid(),
    {
        CalendarMonth { year, month: clamp_u8(month, 1, 12) }
    }

    /// The month that `date` falls in.
    pub fn from_date(date: CalendarDate) -> (r: Self)
        ensures
            r.year == date.year,
            r.month == clamp_int(date.month as int, 1, 12),
    {
        Self::new(date.year, date.month)
    }

    /// Moves `delta` months forward (backward when negative), crossing year
    /// boundaries.
    pub fn shift(&mut self, delta: i32)
        requires
            shift_fits(*old(self), delta as int),
        ensures
            *final(self) == shifted(*old(self), delta as int),
            final(self).is_valid(),
    {
        let zero_based = self.year * 12 + (self.month as i32) - 1 + delta;
        let z = zero_based as i64;
        let q0 = z / 12;
        let r0 = z % 12;
        proof {
            assert(z == q0 * 12 + r0);
            assert(-12 < r0 < 12);
        }
        let mut q = q0;
        let mut r = r0;
        if r < 0 {
            r = r + 12;
            q = q - 1;
        }
        proof {
            vstd::arithmetic::div_mod::lemma_fundamental_div_mod_converse(z as int, 12, q as int, r as int);
        }
        self.year = q as i32;
        self.month = (r + 1) as u8;
    }

    /// "Month Year", for example "January 2026".
    pub fn label(self) -> (r: String)
        ensures
            r@ == month_name_seq(self.month as int) + seq![' '] + int_decimal(self.year as int),
    {
        let name = month_name(self.month);
        let mut s = String::from_str(name);
        push_char(&mut s, ' ');
        push_int_decimal(&mut s, self.year);
        s
    }
}

/// Shifting by `a` and then by `b` is shifting by `a + b`.
pub proof fn lemma_shift_compose(m: CalendarMonth, a: int, b: int)
    requires
        i32::MIN <= month_index(m.year as int, m.month as int) + a <= i32::MAX,
    ensures
        shifted(shifted(m, a), b) == shifted(m, a + b),
{
    let z = month_index(m.year as int, m.month as int) + a;
    let n = shifted(m, a);
    assert(n.year as int == z / 12);
    assert(n.month as int == z % 12 + 1);
    assert(month_index(n.year as int, n.month as int) == z) by {
        vstd::arithmetic::div_mod::lemma_fundamental_div_mod(z, 12);
    }
}

/// Shifting a valid month forward and back again returns the same month.
pub proof fn lemma_shift_round_trip(m: CalendarMonth, d: int)
    requires
        m.is_valid(),
        i32::MIN <= month_index(m.year as int, m.month as int) + d <= i32::MAX,
    ensures
        shifted(shifted(m, d), -d) == m,
{
    lemma_shift_compose(m, d, -d);
    let z = month_index(m.year as int, m.month as int);
    vstd::arithmetic::div_mod::lemma_fundamental_div_mod_converse(z, 12, m.year as int, m.month - 1);
}

/// English name of a month; anything outside 1..=12 reads "January".
pub open spec fn month_name_seq(month: int) -> Seq<char> {
    if month == 2 {
        "February"@
    } else if month == 3 {
        "March"@
    } else if month == 4 {
        "April"@
    } else if month == 5 {
        "May"@
    } else if month == 6 {
        "June"@
    } else if month == 7 {
        "July"@
    } else if month == 8 {
        "August"@
    } else if month == 9 {
        "September"@
    } else if month == 10 {
        "October"@
    } else if month == 11 {
        "November"@
    } else if month == 12 {
        "December"@
    } else {
        "January"@
    }
}

pub fn month_name(month: u8) -> (r: &'static str)
    ensures
        r@ == month_name_seq(month as int),
{
    match month {
        2 => "February",
        3 => "March",
        4 => "April",
        5 => "May",
        6 => "June",
        7 => "July",
        8 => "August",
        9 => "September",
        10 => "October",
        11 => "November",
        12 => "December",
        _ => "January",
    }
}

/// Decimal rendering of a signed integer, with a leading '-' when negative.
pub open spec fn int_decimal(n: int) -> Seq<char> {
    if n < 0 {
        seq!['-'] + decimal((-n) as nat)
    } else {
        decimal(n as nat)
    }
}

pub fn push_int_decimal(s: &mut String, n: i32)
    ensures
        final(s)@ == old(s)@ + int_decimal(n as int),
{
    if n < 0 {
        push_char(s, '-');
        let m = (0i64 - (n as i64)) as u64;
        push_decimal(s, m);
        assert(final(s)@ =~= old(s)@ + int_decimal(n as int));
    } else {
        push_decimal(s, n as u64);
    }
}

/// Rust's `/` on integers: the quotient rounded toward zero.
pub open spec fn trunc_div(a: int, b: int) -> int {
    if a >= 0 {
        a / b
    } else {
        -((-a) / b)
    }
}

/// The month-offset table of the weekday formula.
pub open spec fn month_offset(month: int) -> int {
    if month == 1 {
        0
    } else if month == 2 {
        3
    } else if month == 3 {
        2
    } else if month == 4 {
        5
    } else if month == 5 {
        0
    } else if month == 6 {
        3
    } else if month == 7 {
        5
    } else if month == 8 {
        1
    } else if month == 9 {
        4
    } else if month == 10 {
        6
    } else if month == 11 {
        2
    } else {
        4
    }
}

/// The year the weekday formula counts January and February in.
pub open spec fn weekday_year(year: int, month: int) -> int {
    if clamp_int(month, 1, 12) < 3 {
        year - 1
    } else {
        year
    }
}

/// Day count term of the weekday formula for `year`.
pub open spec fn year_term(y: int) -> int {
    y + trunc_div(y, 4) - trunc_div(y, 100) + trunc_div(y, 400)
}

/// Weekday of `year-month-day`, Monday = 0 through Sunday = 6.
pub open spec fn weekday_spec(year: int, month: int, day: int) -> int {
    let m = clamp_int(month, 1, 12);
    let y = weekday_year(year, month);
    ((year_term(y) + month_offset(m) + day) % 7 + 6) % 7
}

/// Every partial sum of the weekday formula fits in `i32`.
pub open spec fn weekday_fits(year: int, month: int, day: int) -> bool {
    let m = clamp_int(month, 1, 12);
    let y = weekday_year(year, month);
    &&& i32::MIN <= y
    &&& i32::MIN <= y + trunc_div(y, 4) <= i32::MAX
    &&& i32::MIN <= y + trunc_div(y, 4) - trunc_div(y, 100) <= i32::MAX
    &&& i32::MIN <= year_term(y) <= i32::MAX
    &&& i32::MIN <= year_term(y) + month_offset(m) <= i32::MAX
    &&& i32::MIN <= year_term(y) + month_offset(m) + day <= i32::MAX
}

fn month_offset_of(month: u8) -> (r: i64)
    requires
        1 <= month <= 12,
    ensures
        r == month_offset(month as int),
{
    match month {
        1 => 0,
        2 => 3,
        3 => 2,
        4 => 5,
        5 => 0,
        6 => 3,
        7 => 5,
        8 => 1,
        9 => 4,
        10 => 6,
        11 => 2,
        _ => 4,
    }
}

/// Weekday of a date, Monday = 0 through Sunday = 6.
#[verifier::spinoff_prover]
#[verifier::rlimit(40)]
pub fn weekday_monday_index(year: i32, month: u8, day: u8) -> (r: u8)
    requires
        weekday_fits(year as int, month as int, day as int),
    ensures
        r as int == weekday_spec(year as int, month as int, day as int),
        r < 7,
{
    let m = clamp_u8(month, 1, 12);
    let y: i64 = if m < 3 {
        (year as i64) - 1
    } else {
        year as i64
    };
    let t = y + y / 4 - y / 100 + y / 400 + month_offset_of(m) + (day as i64);
    let mut s = t % 7;
    if s < 0 {
        s = s + 7;
    }
    proof {
        vstd::arithmetic::div_mod::lemma_fundamental_div_mod(t as int, 7);
        vstd::arithmetic::div_mod::lemma_fundamental_div_mod_converse(
            t as int,
            7,
            (t as int - s as int) / 7,
            s as int,
        );
    }
    ((s + 6) % 7) as u8
}

/// The day after `date` in the Gregorian calendar.
pub open spec fn next_day(date: CalendarDate) -> (int, int, int) {
    if (date.day as int) < month_days(date.year as int, date.month as int) {
        (date.year as int, date.month as int, date.day + 1)
    } else if date.month < 12 {
        (date.year as int, date.month + 1, 1)
    } else {
        (date.year + 1, 1, 1)
    }
}

proof fn lemma_div_step(y: int, k: int)
    requires
        y >= 1,
        k > 0,
    ensures
        y / k - (y - 1) / k == (if y % k == 0 { 1int } else { 0int }),
{
    vstd::arithmetic::div_mod::lemma_fundamental_div_mod(y, k);
    let q = y / k;
    let r = y % k;
    vstd::arithmetic::div_mod::lemma_mod_pos_bound(y, k);
    if r == 0 {
        assert(y - 1 == (q - 1) * k + (k - 1)) by (nonlinear_arith)
            requires
                y == k * q + r,
                r == 0,
        ;
        vstd::arithmetic::div_mod::lemma_fundamental_div_mod_converse(y - 1, k, q - 1, k - 1);
    } else {
        assert(y - 1 == q * k + (r - 1)) by (nonlinear_arith)
            requires
                y == k * q + r,
        ;
        vstd::arithmetic::div_mod::lemma_fundamental_div_mod_converse(y - 1, k, q, r - 1);
    }
}

proof fn lemma_year_term_step(y: int)
    requires
        y >= 1,
    ensures
        year_term(y) - year_term(y - 1) == (if leap_year(y) { 2int } else { 1int }),
{
    lemma_div_step(y, 4);
    lemma_div_step(y, 100);
    lemma_div_step(y, 400);
    if y % 400 == 0 {
        assert(y % 100 == 0) by {
            vstd::arithmetic::div_mod::lemma_fundamental_div_mod(y, 400);
            let q = y / 400;
            vstd::arithmetic::div_mod::lemma_fundamental_div_mod_converse(y, 100, q * 4, 0);
        }
        assert(y % 4 == 0) by {
            vstd::arithmetic::div_mod::lemma_fundamental_div_mod(y, 400);
            let q = y / 400;
            vstd::arithmetic::div_mod::lemma_fundamental_div_mod_converse(y, 4, q * 100, 0);
        }
    } else if y % 100 == 0 {
        assert(y % 4 == 0) by {
            vstd::arithmetic::div_mod::lemma_fundamental_div_mod(y, 100);
            let q = y / 100;
            vstd::arithmetic::div_mod::lemma_fundamental_div_mod_converse(y, 4, q * 25, 0);
        }
    }
}

proof fn lemma_weekday_shift(t: int, u: int)
    requires
        (u - t - 1) % 7 == 0,
    ensures
        ((u % 7 + 6) % 7) == (((t % 7 + 6) % 7) + 1) % 7,
{
    vstd::arithmetic::div_mod::lemma_fundamental_div_mod(u - t - 1, 7);
    let k = (u - t - 1) / 7;
    vstd::arithmetic::div_mod::lemma_fundamental_div_mod(t, 7);
    let q = t / 7;
    let r = t % 7;
    assert(u == (q + k) * 7 + r + 1) by (nonlinear_arith)
        requires
            u - t - 1 == 7 * k,
            t == 7 * q + r,
    ;
    if r == 6 {
        vstd::arithmetic::div_mod::lemma_fundamental_div_mod_converse(u, 7, q + k + 1, 0);
    } else {
        vstd::arithmetic::div_mod::lemma_fundamental_div_mod_converse(u, 7, q + k, r + 1);
    }
}

/// The weekday formula steps correctly from the end of February to the
/// first of March of `y`: its year term grows by the length of the leap
/// day count, modulo a week.
pub open spec fn march_step_holds(y: int) -> bool {
    (year_term(y) - year_term(y - 1) - (if leap_year(y) { 2int } else { 1int })) % 7 == 0
}

/// From year 1 on, the step into March always holds.
pub proof fn lemma_march_step_from_year_one(y: int)
    requires
        y >= 1,
    ensures
        march_step_holds(y),
{
    lemma_year_term_step(y);
}

/// From one day to the next the weekday advances by one, wrapping from
/// Sunday to Monday, across month and year ends. The step from the last
/// day of February to the first of March needs `march_step_holds`, which
/// fails for some years before year 1.
pub proof fn lemma_weekday_advances(date: CalendarDate)
    requires
        date.is_valid(),
        date.month == 2 && date.day == month_days(date.year as int, 2) ==> march_step_holds(date.year as int),
    ensures
        ({
            let (y, m, d) = next_day(date);
            weekday_spec(y, m, d) == (weekday_spec(date.year as int, date.month as int, date.day as int) + 1) % 7
        }),
{
    let y = date.year as int;
    let m = date.month as int;
    let d = date.day as int;
    let (ny, nm, nd) = next_day(date);
    let t = year_term(weekday_year(y, m)) + month_offset(m) + d;
    let u = year_term(weekday_year(ny, nm)) + month_offset(nm) + nd;
    if d < month_days(y, m) {
        assert(u == t + 1);
    } else if m < 12 {
        assert((u - t - 1) % 7 == 0);
    } else {
        assert(u - t - 1 == -35);
    }
    lemma_weekday_shift(t, u);
}

/// The day shown in grid cell (`row`, `column`) of a month that starts on
/// weekday `first_weekday` and has `days` days; `None` for padding cells.
pub open spec fn grid_day(row: int, column: int, first_weekday: int, days: int) -> Option<int> {
    let day = row * 7 + column - first_weekday + 1;
    if 1 <= day <= days {
        Some(day)
    } else {
        None
    }
}

/// Every day of the month is shown in the grid, in exactly one cell: day
/// `d` sits in row `(d + first_weekday - 1) / 7`, column
/// `(d + first_weekday - 1) % 7`, and no other cell shows it.
pub proof fn lemma_grid_shows_each_day_once(first_weekday: int, days: int, d: int, row: int, column: int)
    requires
        0 <= first_weekday < 7,
        1 <= d <= days,
        0 <= row,
        0 <= column < 7,
    ensures
        grid_day((d + first_weekday - 1) / 7, (d + first_weekday - 1) % 7, first_weekday, days) == Some(d),
        grid_day(row, column, first_weekday, days) == Some(d)
            ==> row == (d + first_weekday - 1) / 7 && column == (d + first_weekday - 1) % 7,
{
    let n = d + first_weekday - 1;
    assert(n == 7 * (n / 7) + n % 7 && 0 <= n % 7 < 7) by (nonlinear_arith)
        requires
            n >= 0,
    ;
    if grid_day(row, column, first_weekday, days) == Some(d) {
        assert(row * 7 + column == n);
        assert(row == n / 7 && column == n % 7) by (nonlinear_arith)
            requires
                row * 7 + column == n,
                0 <= column < 7,
                0 <= row,
                n == 7 * (n / 7) + n % 7,
                0 <= n % 7 < 7,
        ;
    }
}

/// The day shown in a cell of the six-by-seven month grid.
pub fn calendar_grid_day(row: u8, column: u8, first_weekday: u8, days: u8) -> (r: Option<u8>)
    requires
        row < 6,
        column < 7,
        first_weekday < 7,
    ensures
        r matches Some(d) ==> grid_day(row as int, column as int, first_weekday as int, days as int)
            == Some(d as int),
        r is None ==> grid_day(row as int, column as int, first_weekday as int, days as int) is None,
{
    let day = (row as i32) * 7 + (column as i32) - (first_weekday as i32) + 1;
    if 1 <= day && day <= days as i32 {
        Some(day as u8)
    } else {
        None
    }
}

/// A month-view date picker bound to a selected date and a shown month.
#[derive(Debug)]
pub struct Calendar<'a> {
    pub selected: &'a mut CalendarDate,
    pub visible_month: &'a mut CalendarMonth,
    pub size: Size,
}

impl<'a> Calendar<'a> {
    pub fn new(selected: &'a mut CalendarDate, visible_month: &'a mut CalendarMonth) -> (r: Self)
        ensures
            *r.selected == *old(selected),
            *final(selected) == *final(r.selected),
            *r.visible_month == *old(visible_month),
            *final(visible_month) == *final(r.visible_month),
            r.size == Size::Medium,
    {
        Calendar { selected, visible_month, size: Size::Medium }
    }

    pub fn size(self, size: Size) -> (r: Self)
        ensures
            r.selected == self.selected,
            *final(r.selected) == *final(self.selected),
            r.visible_month == self.visible_month,
            *final(r.visible_month) == *final(self.visible_month),
            r.size == size,
    {
        Calendar { size, ..self }
    }

    /// The header's "previous" button shows the month before.
    pub fn previous_month(self)
        requires
            shift_fits(*old(self.visible_month), -1),
        ensures
            *final(self.visible_month) == shifted(*old(self.visible_month), -1),
    {
        self.visible_month.shift(-1);
    }

    /// The header's "next" button shows the month after.
    pub fn next_month(self)
        requires
            shift_fits(*old(self.visible_month), 1),
        ensures
            *final(self.visible_month) == shifted(*old(self.visible_month), 1),
    {
        self.visible_month.shift(1);
    }

    /// A click on day `day` of the shown month selects that date; reports
    /// whether the selection changed.
    pub fn click_day(self, day: u8) -> (changed: bool)
        ensures
            ({
                let m = *old(self.visible_month);
                let month = clamp_int(m.month as int, 1, 12);
                let date = CalendarDate {
                    year: m.year,
                    month: month as u8,
                    day: clamp_int(day as int, 1, month_days(m.year as int, month)) as u8,
                };
                &&& changed == (*old(self.selected) != date)
                &&& *final(self.selected) == date
            }),
    {
        let date = CalendarDate::new(self.visible_month.year, self.visible_month.month, day);
        let changed = *self.selected != date;
        *self.selected = date;
        changed
    }
}

} // verus!
