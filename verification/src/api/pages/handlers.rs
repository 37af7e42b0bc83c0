//! The home page, the calendar and the profile page: what they show, computed from
//! the query, the signed-in user and the posts. Reading requests, querying the
//! database and rendering stand outside this library.
use vstd::prelude::*;
use crate::api::posts::services::{PostListItem, opt_view, spec_iso_text, iso_text, is_leap_year, spec_is_leap_year};
use crate::api::views::{CalendarDay, CalendarEvent, CalendarTemplate, IndexTemplate, ProfileTemplate};
use crate::models::item::opt_string_view;
use crate::numbers::{fmt_int, format_int, parse_i32, parse_u8, spec_parse_in};
use crate::text::{chars_of, lex_lt, owned, spec_truncate, str_eq, str_le, string_from_range};
use crate::api::views::TabLink;

pub use crate::api::posts::handlers::{APP_NAME, protected_tabs};
pub use crate::text::truncate_chars;

verus! {

broadcast use vstd::string::group_string_axioms;

/// The query of the calendar page: the month to show, as `YYYY-MM`.
pub struct CalendarQuery {
    pub ym: Option<String>,
}

/// The query of the home page: the form to open and the error to show.
pub struct IndexQuery {
    pub auth: Option<String>,
    pub err: Option<String>,
}

/// The message shown for an authentication error code.
pub open spec fn spec_auth_error_text(code: Seq<char>) -> Seq<char> {
    if code == "invalid_credentials"@ {
        "Invalid username or password"@
    } else if code == "invalid_username"@ {
        "Username must be 3-32 characters and use letters, numbers, underscores, or hyphens"@
    } else if code == "invalid_password"@ {
        "Password must be at least 8 characters"@
    } else if code == "username_taken"@ {
        "Username already exists"@
    } else if code == "registration_failed"@ {
        "Registration failed"@
    } else {
        "Authentication failed"@
    }
}

/// The message shown for an authentication error code.
pub fn auth_error_text(code: &str) -> (r: String)
    ensures
        r@ == spec_auth_error_text(code@),
{
    if str_eq(code, "invalid_credentials") {
        owned("Invalid username or password")
    } else if str_eq(code, "invalid_username") {
        owned("Username must be 3-32 characters and use letters, numbers, underscores, or hyphens")
    } else if str_eq(code, "invalid_password") {
        owned("Password must be at least 8 characters")
    } else if str_eq(code, "username_taken") {
        owned("Username already exists")
    } else if str_eq(code, "registration_failed") {
        owned("Registration failed")
    } else {
        owned("Authentication failed")
    }
}

/// The home page for its query: the registration form when asked, else the login
/// form; an error code opens the form with its message.
pub fn index_view(q: &IndexQuery) -> (r: IndexTemplate)
    ensures
        r.app_name@ == APP_NAME@,
        r.auth_tab@ == (if opt_string_view(q.auth) == Some("register"@) {
            "register"@
        } else {
            "login"@
        }),
        opt_string_view(r.error_message) == (match q.err {
            Some(code) => Some(spec_auth_error_text(code@)),
            None => None,
        }),
        r.open_auth_modal == q.err is Some,
{
    let auth_tab = match &q.auth {
        Some(a) => if str_eq(a.as_str(), "register") {
            "register"
        } else {
            "login"
        },
        None => "login",
    };
    let error_message = match &q.err {
        Some(code) => Some(auth_error_text(code.as_str())),
        None => None,
    };
    let open_auth_modal = error_message.is_some();
    IndexTemplate { app_name: owned(APP_NAME), auth_tab: owned(auth_tab), open_auth_modal, error_message }
}

/// The profile page of the signed-in user.
pub fn profile_view(username: &str) -> (r: ProfileTemplate)
    ensures
        r.app_name@ == APP_NAME@,
        r.username@ == username@,
{
    ProfileTemplate { app_name: owned(APP_NAME), username: owned(username) }
}

// ---------------------------------------------------------------------------
// The month to show
// ---------------------------------------------------------------------------

/// The position of the first `c` in `s`, or the length of `s` when there is none.
pub open spec fn find_char(s: Seq<char>, c: char) -> int
    decreases s.len(),
{
    if s.len() == 0 {
        0
    } else if s[0] == c {
        0
    } else {
        1 + find_char(s.drop_first(), c)
    }
}

proof fn lemma_find_char(s: Seq<char>, c: char)
    ensures
        0 <= find_char(s, c) <= s.len(),
        forall|k: int| 0 <= k < find_char(s, c) ==> s[k] != c,
        find_char(s, c) < s.len() ==> s[find_char(s, c)] == c,
    decreases s.len(),
{
    if s.len() > 0 && s[0] != c {
        lemma_find_char(s.drop_first(), c);
        assert forall|k: int| 0 <= k < find_char(s, c) implies s[k] != c by {
            if k > 0 {
                assert(s[k] == s.drop_first()[k - 1]);
            }
        }
    }
}

/// The year and month that a `YYYY-MM` text names: the text before the first `-`
/// read as an `i32`, the text after it as a `u8`, which must be a month.
pub open spec fn spec_parse_ym(s: Seq<char>) -> Option<(i32, u8)> {
    let i = find_char(s, '-');
    if i < s.len() {
        match (
            spec_parse_in(s.take(i), true, i32::MIN as int, i32::MAX as int),
            spec_parse_in(s.skip(i + 1), false, 0, 255),
        ) {
            (Some(y), Some(m)) => if 1 <= m <= 12 {
                Some((y as i32, m as u8))
            } else {
                None
            },
            _ => None,
        }
    } else {
        None
    }
}

/// Reads a `YYYY-MM` text.
pub fn parse_ym(s: &str) -> (r: Option<(i32, u8)>)
    ensures
        r == spec_parse_ym(s@),
{
    let v = chars_of(s);
    let mut i: usize = 0;
    while i < v.len() && v[i] != '-'
        invariant
            v@ == s@,
            i <= v.len(),
            forall|k: int| 0 <= k < i ==> s@[k] != '-',
        decreases v.len() - i,
    {
        i = i + 1;
    }
    proof {
        lemma_find_char(s@, '-');
        if find_char(s@, '-') < i {
            assert(s@[find_char(s@, '-')] == '-');
        }
        if i < v.len() && find_char(s@, '-') > i {
            assert(s@[i as int] != '-');
        }
        assert(find_char(s@, '-') == i);
    }
    if i == v.len() {
        return None;
    }
    let year_text = string_from_range(&v, 0, i);
    let month_text = string_from_range(&v, i + 1, v.len());
    assert(year_text@ =~= s@.take(i as int));
    assert(month_text@ =~= s@.skip(i + 1));
    match (parse_i32(year_text.as_str()), parse_u8(month_text.as_str())) {
        (Some(y), Some(m)) => if 1 <= m && m <= 12 {
            Some((y, m))
        } else {
            None
        },
        _ => None,
    }
}

/// The month to show: the one the query names, else the current one.
pub fn parse_or_current_ym(s: Option<&str>) -> (r: (i32, u8))
    ensures
        1 <= r.1 <= 12,
        s matches Some(t) && spec_parse_ym(t@) is Some ==> Some(r) == spec_parse_ym(s->0@),
{
    match s {
        Some(t) => match parse_ym(t) {
            Some(ym) => return ym,
            None => {},
        },
        None => {},
    }
    let now = crate::clock::utc_now();
    (now.year, now.month)
}

/// The number of days of a month of the calendar, 30 for a value that is no month.
pub open spec fn spec_calendar_days_in_month(year: int, month: int) -> int {
    if month == 2 {
        if spec_is_leap_year(year) {
            29
        } else {
            28
        }
    } else if month == 4 || month == 6 || month == 9 || month == 11 {
        30
    } else if 1 <= month <= 12 {
        31
    } else {
        30
    }
}

/// The number of days of a month of the calendar.
pub fn days_in_month(year: i32, month: u8) -> (r: u8)
    ensures
        r == spec_calendar_days_in_month(year as int, month as int),
{
    match month {
        1 | 3 | 5 | 7 | 8 | 10 | 12 => 31,
        4 | 6 | 9 | 11 => 30,
        2 => if is_leap_year(year) {
            29
        } else {
            28
        },
        _ => 30,
    }
}

/// The day of the week of a date, counted from Monday (0) to Sunday (6): 1970-01-01
/// was a Thursday (3), and the weekdays follow the days one by one.
pub open spec fn spec_weekday(year: int, month: int, day: int) -> int {
    (crate::clock::days_from_civil(year, month, day) + 3) % 7
}

/// Builds the date with `time::Date::from_calendar_date` (the month taken with
/// `time::Month::try_from`) and gives its weekday as `Weekday::number_days_from_monday`.
/// Claimed: the weekday is that of the proleptic Gregorian calendar, which the crate
/// uses (`spec_weekday`); the date is refused when the day is not in the month, and
/// accepted for a real date of the years -9999 to 9999. Where the years range further
/// (the crate's `large-dates` feature) nothing is claimed of whether they are accepted.
#[verifier::external_body]
fn calendar_weekday(year: i32, month: u8, day: u8) -> (r: Option<u8>)
    requires
        1 <= month <= 12,
    ensures
        r matches Some(w) ==> w < 7 && w as int == spec_weekday(year as int, month as int, day as int),
        r is Some ==> 1 <= day <= crate::api::posts::services::spec_days_in_month(year as int, month as int),
        -9999 <= year <= 9999 && 1 <= day <= crate::api::posts::services::spec_days_in_month(
            year as int,
            month as int,
        ) ==> r is Some,
{
    match time::Month::try_from(month) {
        Ok(m) => match time::Date::from_calendar_date(year, m, day) {
            Ok(d) => Some(d.weekday().number_days_from_monday()),
            Err(_) => None,
        },
        Err(_) => None,
    }
}

/// The month number that the weekday of `month` is looked up with: January for a
/// value that is no month.
pub open spec fn weekday_month(month: int) -> int {
    if 1 <= month <= 12 {
        month
    } else {
        1
    }
}

/// The weekday of a date counted from Monday, 0 when the date cannot be built.
pub fn weekday_of(year: i32, month: u8, day: u8) -> (r: u8)
    ensures
        r < 7,
        r == 0 || r as int == spec_weekday(year as int, weekday_month(month as int), day as int),
        -9999 <= year <= 9999 && 1 <= day <= crate::api::posts::services::spec_days_in_month(
            year as int,
            weekday_month(month as int),
        ) ==> r as int == spec_weekday(year as int, weekday_month(month as int), day as int),
        !(1 <= day <= crate::api::posts::services::spec_days_in_month(
            year as int,
            weekday_month(month as int),
        )) ==> r == 0,
{
    let m: u8 = if 1 <= month && month <= 12 {
        month
    } else {
        1
    };
    match calendar_weekday(year, m, day) {
        Some(w) => w,
        None => 0,
    }
}

// ---------------------------------------------------------------------------
// The grid of the calendar
// ---------------------------------------------------------------------------

/// Whether a post lasts over the day `iso`: its start date is not after the day and
/// its end date not before it (dates compared as texts).
pub open spec fn covers(p: PostListItem, iso: Seq<char>) -> bool {
    !lex_lt(iso, p.start_date@) && !lex_lt(p.end_date@, iso)
}

/// The posts, in order, that last over the day `iso`.
pub open spec fn covering(posts: Seq<PostListItem>, iso: Seq<char>) -> Seq<PostListItem>
    decreases posts.len(),
{
    if posts.len() == 0 {
        Seq::empty()
    } else if covers(posts.last(), iso) {
        covering(posts.drop_last(), iso).push(posts.last())
    } else {
        covering(posts.drop_last(), iso)
    }
}

/// Whether `e` shows the post `p` on the calendar: its title cut to 10 characters,
/// and the user's reaction, `none` when there is none.
pub open spec fn shows_event(e: CalendarEvent, p: PostListItem) -> bool {
    &&& e.id == p.id
    &&& e.title@ == spec_truncate(p.title@, 10)
    &&& e.reaction@ == (match p.reaction {
        Some(r) => r@,
        None => "none"@,
    })
    &&& e.start_date@ == p.start_date@
    &&& e.end_date@ == p.end_date@
}

/// Whether `events` show, in order, the posts that last over `iso`.
pub open spec fn events_of_day(events: Seq<CalendarEvent>, posts: Seq<PostListItem>, iso: Seq<char>) -> bool {
    let c = covering(posts, iso);
    events.len() == c.len() && forall|k: int| 0 <= k < c.len() ==> shows_event(#[trigger] events[k], c[k])
}

fn event_of(p: &PostListItem) -> (r: CalendarEvent)
    ensures
        shows_event(r, *p),
{
    let reaction = match &p.reaction {
        Some(r) => r.clone(),
        None => owned("none"),
    };
    CalendarEvent {
        id: p.id,
        title: truncate_chars(p.title.as_str(), 10),
        reaction,
        start_date: p.start_date.clone(),
        end_date: p.end_date.clone(),
    }
}

/// The events of the day `iso`.
fn day_events(posts: &Vec<PostListItem>, iso: &str) -> (r: Vec<CalendarEvent>)
    ensures
        events_of_day(r@, posts@, iso@),
{
    let mut r: Vec<CalendarEvent> = Vec::new();
    let mut j: usize = 0;
    while j < posts.len()
        invariant
            j <= posts.len(),
            events_of_day(r@, posts@.take(j as int), iso@),
        decreases posts.len() - j,
    {
        let p = &posts[j];
        assert(posts@.take(j + 1).drop_last() =~= posts@.take(j as int));
        assert(posts@.take(j + 1).last() == posts@[j as int]);
        if str_le(p.start_date.as_str(), iso) && str_le(iso, p.end_date.as_str()) {
            let e = event_of(p);
            r.push(e);
        }
        j = j + 1;
    }
    assert(posts@.take(posts.len() as int) =~= posts@);
    r
}

/// The number of cells of the grid: the padding before the first day, the days, and
/// the padding that completes the last week; five weeks at least.
pub open spec fn cell_count(first: int, total: int) -> int {
    let weeks = ((first + total + 6) / 7) * 7;
    if weeks < 35 {
        35
    } else {
        weeks
    }
}

/// The day number shown in cell `i`; 0 for padding.
pub open spec fn cell_day(i: int, first: int, total: int) -> int {
    if first <= i < first + total {
        i - first + 1
    } else {
        0
    }
}

/// Whether `days` is the grid of `year`-`month` whose first day falls on weekday
/// `first` (counted from Monday), with the posts that last over each day.
pub open spec fn is_calendar_grid(
    days: Seq<CalendarDay>,
    year: int,
    month: int,
    first: int,
    posts: Seq<PostListItem>,
) -> bool {
    let total = spec_calendar_days_in_month(year, month);
    &&& days.len() == cell_count(first, total)
    &&& forall|i: int| 0 <= i < days.len() ==> (#[trigger] days[i]).day == cell_day(i, first, total)
    &&& forall|i: int|
        0 <= i < days.len() ==> if first <= i < first + total {
            events_of_day((#[trigger] days[i]).events@, posts, spec_iso_text(year, month, i - first + 1))
        } else {
            days[i].events@.len() == 0
        }
}

proof fn lemma_cell_count_bounds(f: int, t: int)
    requires
        0 <= f < 7,
        28 <= t <= 31,
    ensures
        cell_count(f, t) % 7 == 0,
        cell_count(f, t) == 35 || cell_count(f, t) == 42,
        f + t <= cell_count(f, t),
{
    let w = (f + t + 6) / 7;
    assert(4 <= w <= 6) by (nonlinear_arith)
        requires
            w == (f + t + 6) / 7,
            28 <= f + t <= 37,
    ;
    assert(f + t <= w * 7) by (nonlinear_arith)
        requires
            w == (f + t + 6) / 7,
            f + t >= 0,
    ;
}

proof fn lemma_cell_count_whole_weeks(f: int, t: int)
    requires
        f + t >= 0,
    ensures
        cell_count(f, t) % 7 == 0,
        cell_count(f, t) >= 35,
        f + t <= cell_count(f, t),
{
    let w = (f + t + 6) / 7;
    assert(f + t <= w * 7 && (w * 7) % 7 == 0) by (nonlinear_arith)
        requires
            w == (f + t + 6) / 7,
            f + t >= 0,
    ;
}

proof fn lemma_padding_room(n: int, f: int, t: int)
    requires
        f + t >= 0,
        f + t <= n <= cell_count(f, t),
        n % 7 != 0 || n < 35,
    ensures
        n < cell_count(f, t),
{
    lemma_cell_count_whole_weeks(f, t);
}

proof fn lemma_padding_done(n: int, f: int, t: int)
    requires
        f + t >= 0,
        f + t <= n <= cell_count(f, t),
        n % 7 == 0,
        n >= 35,
    ensures
        n == cell_count(f, t),
{
    let w = (f + t + 6) / 7;
    assert(w * 7 <= n) by (nonlinear_arith)
        requires
            w == (f + t + 6) / 7,
            n % 7 == 0,
            f + t <= n,
            f + t >= 0,
    ;
}

fn padding() -> (r: CalendarDay)
    ensures
        r.day == 0,
        r.events@.len() == 0,
{
    CalendarDay { day: 0, events: Vec::new() }
}

/// Lays out the grid of a month whose first day falls on weekday `first_wd`: blank
/// cells before the first day, one cell per day with the posts that last over it,
/// and blank cells to the end of the last week.
pub fn layout_calendar_days(year: i32, month: u8, first_wd: u8, posts: &Vec<PostListItem>) -> (r: Vec<CalendarDay>)
    ensures
        is_calendar_grid(r@, year as int, month as int, first_wd as int, posts@),
{
    let total = days_in_month(year, month);
    let ghost t = total as int;
    let ghost f = first_wd as int;
    let mut days: Vec<CalendarDay> = Vec::new();
    let mut k: u8 = 0;
    while k < first_wd
        invariant
            k <= first_wd,
            days@.len() == k,
            forall|i: int| 0 <= i < days@.len() ==> (#[trigger] days@[i]).day == 0 && days@[i].events@.len() == 0,
        decreases first_wd - k,
    {
        days.push(padding());
        k = k + 1;
    }
    let mut d: u8 = 1;
    while d <= total
        invariant
            1 <= d <= total + 1,
            total as int == spec_calendar_days_in_month(year as int, month as int),
            28 <= total <= 31,
            t == total as int,
            f == first_wd as int,
            days@.len() == f + d - 1,
            forall|i: int| 0 <= i < days@.len() ==> (#[trigger] days@[i]).day == cell_day(i, f, t),
            forall|i: int|
                0 <= i < days@.len() ==> if f <= i < f + t {
                    events_of_day((#[trigger] days@[i]).events@, posts@, spec_iso_text(year as int, month as int, i - f + 1))
                } else {
                    days@[i].events@.len() == 0
                },
        decreases total + 1 - d,
    {
        let iso_day = iso_text(year, month, d);
        let events = day_events(posts, iso_day.as_str());
        days.push(CalendarDay { day: d, events });
        d = d + 1;
    }
    while days.len() % 7 != 0 || days.len() < 35
        invariant
            days@.len() <= cell_count(f, t),
            days@.len() >= f + t,
            f >= 0,
            28 <= t <= 31,
            forall|i: int| 0 <= i < days@.len() ==> (#[trigger] days@[i]).day == cell_day(i, f, t),
            forall|i: int|
                0 <= i < days@.len() ==> if f <= i < f + t {
                    events_of_day((#[trigger] days@[i]).events@, posts@, spec_iso_text(year as int, month as int, i - f + 1))
                } else {
                    days@[i].events@.len() == 0
                },
        decreases cell_count(f, t) - days@.len(),
    {
        proof {
            lemma_padding_room(days@.len() as int, f, t);
        }
        days.push(padding());
    }
    proof {
        lemma_padding_done(days@.len() as int, f, t);
    }
    days
}

/// The grid of a month, with its first day placed by its weekday (counted from
/// Monday, 0 when the date cannot be built).
pub fn build_calendar_days(year: i32, month: u8, posts: &Vec<PostListItem>) -> (r: Vec<CalendarDay>)
    ensures
        r@.len() == 35 || r@.len() == 42,
        -9999 <= year <= 9999 ==> is_calendar_grid(
            r@,
            year as int,
            month as int,
            spec_weekday(year as int, weekday_month(month as int), 1),
            posts@,
        ),
        exists|w: int|
            0 <= w < 7 && (w == 0 || w == spec_weekday(year as int, weekday_month(month as int), 1))
                && is_calendar_grid(r@, year as int, month as int, w, posts@),
{
    let first_wd = weekday_of(year, month, 1);
    let r = layout_calendar_days(year, month, first_wd, posts);
    proof {
        lemma_cell_count_bounds(
            first_wd as int,
            spec_calendar_days_in_month(year as int, month as int),
        );
    }
    assert(is_calendar_grid(r@, year as int, month as int, first_wd as int, posts@));
    r
}

// ---------------------------------------------------------------------------
// The calendar page
// ---------------------------------------------------------------------------

/// The English name of a month `1..=12`.
pub open spec fn spec_month_name(month: int) -> Seq<char> {
    if month == 1 {
        "January"@
    } else if month == 2 {
        "February"@
    } else if month == 3 {
        "March"@
    } else if month == 4 {
        "April"@
    } else if month == 5 {
        "May"@
    } else if month == 6 {
        "June"@
    } else if month == 7 {
        "July"@
    } else if month == 8 {
        "August"@
    } else if month == 9 {
        "September"@
    } else if month == 10 {
        "October"@
    } else if month == 11 {
        "November"@
    } else {
        "December"@
    }
}

fn month_name(month: u8) -> (r: &'static str)
    requires
        1 <= month <= 12,
    ensures
        r@ == spec_month_name(month as int),
{
    match month {
        1 => "January",
        2 => "February",
        3 => "March",
        4 => "April",
        5 => "May",
        6 => "June",
        7 => "July",
        8 => "August",
        9 => "September",
        10 => "October",
        11 => "November",
        _ => "December",
    }
}

/// A month as `YYYY-MM` (`format!("{:04}-{:02}", year, month)`).
pub open spec fn spec_ym_text(year: int, month: int) -> Seq<char> {
    fmt_int(year, 4) + "-"@ + fmt_int(month, 2)
}

/// Writes a month as `YYYY-MM`.
pub fn ym_text(year: i32, month: u8) -> (r: String)
    ensures
        r@ == spec_ym_text(year as int, month as int),
{
    let mut r = format_int(year as i64, 4);
    r.append("-");
    let m = format_int(month as i64, 2);
    r.append(m.as_str());
    r
}

/// The month before `year`-`month`.
pub open spec fn spec_prev_month(year: int, month: int) -> (int, int) {
    if month == 1 {
        (year - 1, 12)
    } else {
        (year, month - 1)
    }
}

/// The month after `year`-`month`.
pub open spec fn spec_next_month(year: int, month: int) -> (int, int) {
    if month == 12 {
        (year + 1, 1)
    } else {
        (year, month + 1)
    }
}

/// The calendar page of `year`-`month` with its grid: the month's name and year, and
/// the links to the months before and after. The year before the first and after
/// the last that an `i32` holds is no year.
pub fn calendar_view(username: &str, year: i32, month: u8, days: Vec<CalendarDay>) -> (r: CalendarTemplate)
    requires
        1 <= month <= 12,
        month == 1 ==> year > i32::MIN,
        month == 12 ==> year < i32::MAX,
    ensures
        r.app_name@ == APP_NAME@,
        r.username@ == username@,
        r.tabs@.len() == 3 && r.tabs@[2].active && !r.tabs@[0].active && !r.tabs@[1].active,
        crate::api::posts::handlers::is_protected_tabs(r.tabs@, "calendar"@),
        r.month_label@ == spec_month_name(month as int) + " "@ + fmt_int(year as int, 0),
        r.prev_ym@ == spec_ym_text(spec_prev_month(year as int, month as int).0, spec_prev_month(year as int, month as int).1),
        r.next_ym@ == spec_ym_text(spec_next_month(year as int, month as int).0, spec_next_month(year as int, month as int).1),
        r.days == days,
{
    let (prev_y, prev_m): (i32, u8) = if month == 1 {
        (year - 1, 12)
    } else {
        (year, month - 1)
    };
    let (next_y, next_m): (i32, u8) = if month == 12 {
        (year + 1, 1)
    } else {
        (year, month + 1)
    };
    let mut month_label = owned(month_name(month));
    month_label.append(" ");
    let y = format_int(year as i64, 0);
    month_label.append(y.as_str());
    proof {
        reveal_strlit("pinned");
        reveal_strlit("new");
        reveal_strlit("calendar");
        assert("pinned"@[0] != "calendar"@[0]);
        assert("new"@[0] != "calendar"@[0]);
    }
    CalendarTemplate {
        app_name: owned(APP_NAME),
        username: owned(username),
        tabs: protected_tabs("calendar"),
        month_label,
        prev_ym: ym_text(prev_y, prev_m),
        next_ym: ym_text(next_y, next_m),
        days,
    }
}

// ---------------------------------------------------------------------------
// Laws of the calendar
// ---------------------------------------------------------------------------

proof fn lemma_find_after_digits(a: Seq<char>, b: Seq<char>)
    requires
        crate::text::all_digits(a),
    ensures
        find_char(a + seq!['-'] + b, '-') == a.len(),
    decreases a.len(),
{
    if a.len() == 0 {
        assert((a + seq!['-'] + b)[0] == '-');
    } else {
        assert((a + seq!['-'] + b)[0] == a[0]);
        assert(crate::text::is_digit(a[0]));
        assert((a + seq!['-'] + b).drop_first() =~= a.drop_first() + seq!['-'] + b);
        assert(crate::text::all_digits(a.drop_first()));
        lemma_find_after_digits(a.drop_first(), b);
    }
}

/// The link to a month reads back as that month, for the years from 0 on (a
/// negative year writes a `-` first, which ends the year part): so the calendar's
/// links to the months before and after open those months.
pub proof fn law_month_link_round_trip(year: int, month: int)
    requires
        0 <= year <= i32::MAX,
        1 <= month <= 12,
    ensures
        spec_parse_ym(spec_ym_text(year, month)) == Some((year as i32, month as u8)),
{
    reveal_strlit("-");
    let a = fmt_int(year, 4);
    let b = fmt_int(month, 2);
    let t = spec_ym_text(year, month);
    assert(t == a + seq!['-'] + b);
    crate::numbers::lemma_fmt_nonneg(year, 4);
    crate::numbers::lemma_fmt_nonneg(month, 2);
    lemma_find_after_digits(a, b);
    assert(t.take(a.len() as int) =~= a);
    assert(t.skip(a.len() + 1 as int) =~= b);
    crate::numbers::law_format_parse_round_trip(year, 4, true, i32::MIN as int, i32::MAX as int);
    crate::numbers::law_format_parse_round_trip(month, 2, false, 0, 255);
}

/// The grid is made of whole weeks starting on Monday: 35 or 42 cells.
pub proof fn law_calendar_whole_weeks(year: int, month: int, first: int)
    requires
        0 <= first < 7,
    ensures
        cell_count(first, spec_calendar_days_in_month(year, month)) % 7 == 0,
        cell_count(first, spec_calendar_days_in_month(year, month)) == 35 || cell_count(
            first,
            spec_calendar_days_in_month(year, month),
        ) == 42,
{
    lemma_cell_count_bounds(first, spec_calendar_days_in_month(year, month));
}

/// Every day of the month has its cell, in order, after the weekday of the first:
/// day `d` is in cell `first + d - 1`, and no other cell shows a day number.
pub proof fn law_calendar_days_in_order(year: int, month: int, first: int, d: int, i: int)
    requires
        0 <= first < 7,
        1 <= d <= spec_calendar_days_in_month(year, month),
        0 <= i < cell_count(first, spec_calendar_days_in_month(year, month)),
    ensures
        first + d - 1 < cell_count(first, spec_calendar_days_in_month(year, month)),
        cell_day(first + d - 1, first, spec_calendar_days_in_month(year, month)) == d,
        cell_day(i, first, spec_calendar_days_in_month(year, month)) == d <==> i == first + d - 1,
{
    lemma_cell_count_whole_weeks(first, spec_calendar_days_in_month(year, month));
}

proof fn lemma_month_start(y: int, m: int)
    requires
        1 <= m <= 12,
    ensures
        m >= 3 ==> crate::clock::days_from_civil(y, m, 1) == crate::clock::march_first(y) + (153 * (m - 3) + 2) / 5,
        m <= 2 ==> crate::clock::days_from_civil(y, m, 1) == crate::clock::march_first(y - 1) + (153 * (m + 9) + 2) / 5,
{
}

/// The calendar's length of a real month is the number of days from its 1st to the
/// 1st of the next month in the Gregorian calendar: 30 days hath September, April,
/// June and November; February has 29 in leap years and 28 otherwise; the rest 31.
/// It is the length that the dates of posts are checked against, too.
pub proof fn law_calendar_month_lengths(year: int, month: int)
    requires
        1 <= month <= 12,
    ensures
        spec_calendar_days_in_month(year, month) == (if month == 12 {
            crate::clock::days_from_civil(year + 1, 1, 1)
        } else {
            crate::clock::days_from_civil(year, month + 1, 1)
        }) - crate::clock::days_from_civil(year, month, 1),
        spec_calendar_days_in_month(year, month) == crate::api::posts::services::spec_days_in_month(year, month),
{
    lemma_month_start(year, month);
    if month == 12 {
        lemma_month_start(year + 1, 1);
    } else {
        lemma_month_start(year, month + 1);
    }
    if month == 2 {
        crate::clock::lemma_march_years(year);
    }
}

/// A post shows on a day exactly when its dates enclose the day.
pub proof fn law_calendar_event_placement(posts: Seq<PostListItem>, iso: Seq<char>, p: PostListItem)
    ensures
        covering(posts, iso).contains(p) <==> posts.contains(p) && covers(p, iso),
    decreases posts.len(),
{
    if posts.len() > 0 {
        law_calendar_event_placement(posts.drop_last(), iso, p);
        let rest = covering(posts.drop_last(), iso);
        if covers(posts.last(), iso) {
            assert(covering(posts, iso) == rest.push(posts.last()));
            if rest.push(posts.last()).contains(p) && !rest.contains(p) {
                let k = choose|k: int| 0 <= k < rest.len() + 1 && rest.push(posts.last())[k] == p;
                assert(k == rest.len());
            }
            if rest.contains(p) {
                let k = choose|k: int| 0 <= k < rest.len() && rest[k] == p;
                assert(rest.push(posts.last())[k] == p);
            }
            if p == posts.last() {
                assert(rest.push(posts.last())[rest.len() as int] == p);
            }
        }
        if posts.drop_last().contains(p) {
            let k = choose|k: int| 0 <= k < posts.len() - 1 && posts.drop_last()[k] == p;
            assert(posts[k] == p);
        }
        if posts.contains(p) && p != posts.last() {
            let k = choose|k: int| 0 <= k < posts.len() && posts[k] == p;
            assert(k != posts.len() - 1);
            assert(posts.drop_last()[k] == p);
        }
        if p == posts.last() {
            assert(posts[posts.len() - 1] == p);
        }
    }
}

} // verus!
