//! Posts: filters, sorting, reactions, and the checks and normalisation of what a
//! new post holds. The statements to the database stand outside this library; the
//! functions here build their parameters and read their results.
use vstd::prelude::*;
use crate::error::{AppError, is_bad_request};
use crate::numbers::{digits_value, parse_i32, spec_parse_in, fmt_int, format_int};
use crate::text::{
    spec_trim, trim, is_digit, all_digits, byte_len, str_eq, chars_of, owned, push_char,
    has_prefix, starts_with, string_from_range, lex_lt, str_lt,
};

verus! {

broadcast use vstd::string::group_string_axioms;

/// Which posts a listing keeps.
#[derive(Clone, Copy, PartialEq, Eq, Structural, Debug)]
pub enum PostFilter {
    Reacted,
    NotReacted,
    Futurs,
}

impl PostFilter {
    /// The filter that a query value names, if any.
    pub open spec fn spec_from_query(value: Option<Seq<char>>) -> Option<PostFilter> {
        match value {
            Some(v) => if v == "reacted"@ {
                Some(PostFilter::Reacted)
            } else if v == "not-reacted"@ {
                Some(PostFilter::NotReacted)
            } else if v == "futurs"@ {
                Some(PostFilter::Futurs)
            } else {
                None
            },
            None => None,
        }
    }

    /// Reads the `filter` query value.
    pub fn from_query(value: Option<&str>) -> (r: Option<Self>)
        ensures
            r == Self::spec_from_query(opt_view(value)),
    {
        match value {
            Some(v) => if str_eq(v, "reacted") {
                Some(PostFilter::Reacted)
            } else if str_eq(v, "not-reacted") {
                Some(PostFilter::NotReacted)
            } else if str_eq(v, "futurs") {
                Some(PostFilter::Futurs)
            } else {
                None
            },
            None => None,
        }
    }
}

/// The view of an optional string slice.
pub open spec fn opt_view(value: Option<&str>) -> Option<Seq<char>> {
    match value {
        Some(v) => Some(v@),
        None => None,
    }
}

/// The order of a listing.
#[derive(Clone, Copy, PartialEq, Eq, Structural, Debug)]
pub enum PostSort {
    CreationDate,
    StartDate,
}

impl PostSort {
    /// The order that a query value names; the creation date unless it names the start date.
    pub open spec fn spec_from_query(value: Option<Seq<char>>) -> PostSort {
        if value == Some("start_date"@) {
            PostSort::StartDate
        } else {
            PostSort::CreationDate
        }
    }

    /// Reads the `sort` query value.
    pub fn from_query(value: Option<&str>) -> (r: Self)
        ensures
            r == Self::spec_from_query(opt_view(value)),
    {
        match value {
            Some(v) => if str_eq(v, "start_date") {
                PostSort::StartDate
            } else {
                PostSort::CreationDate
            },
            None => PostSort::CreationDate,
        }
    }
}

/// What a user answers to a post.
#[derive(Clone, Copy, PartialEq, Eq, Structural, Debug)]
pub enum ReactionValue {
    Going,
    NotGoing,
}

impl ReactionValue {
    /// The name under which a reaction is stored.
    pub open spec fn spec_as_str(self) -> Seq<char> {
        match self {
            ReactionValue::Going => "going"@,
            ReactionValue::NotGoing => "not_going"@,
        }
    }

    /// The reaction that a stored name denotes, if any.
    pub open spec fn spec_from_str(value: Seq<char>) -> Option<ReactionValue> {
        if value == "going"@ {
            Some(ReactionValue::Going)
        } else if value == "not_going"@ {
            Some(ReactionValue::NotGoing)
        } else {
            None
        }
    }

    /// Reads a reaction name.
    pub fn from_str(value: &str) -> (r: Option<Self>)
        ensures
            r == Self::spec_from_str(value@),
    {
        if str_eq(value, "going") {
            Some(ReactionValue::Going)
        } else if str_eq(value, "not_going") {
            Some(ReactionValue::NotGoing)
        } else {
            None
        }
    }

    /// The name under which the reaction is stored.
    pub fn as_str(self) -> (r: &'static str)
        ensures
            r@ == self.spec_as_str(),
    {
        match self {
            ReactionValue::Going => "going",
            ReactionValue::NotGoing => "not_going",
        }
    }
}

/// The values from which a post is created.
pub struct CreatePostInput {
    pub title: String,
    pub image: Option<String>,
    pub description: String,
    pub author_id: i64,
    pub author_name: String,
    pub start_date: Option<String>,
    pub end_date: Option<String>,
}

/// A post as listed to a user, with that user's reaction.
#[derive(Clone)]
pub struct PostListItem {
    pub id: i64,
    pub pinned: bool,
    pub title: String,
    pub image: String,
    pub description: String,
    pub author_id: i64,
    pub author_name: String,
    pub start_date: String,
    pub end_date: String,
    pub creation_date: i64,
    pub modification_date: i64,
    pub reacted: bool,
    pub reaction: Option<String>,
    pub going: bool,
    pub not_going: bool,
}

// ---------------------------------------------------------------------------
// Checks of the fields of a new post
// ---------------------------------------------------------------------------

/// `Ok` when the trimmed title has between 1 and 160 bytes.
pub open spec fn title_ok(value: Seq<char>) -> bool {
    spec_trim(value).len() > 0 && byte_len(spec_trim(value)) <= 160
}

/// Checks a post title.
pub fn validate_title(value: &str) -> (r: Result<(), AppError>)
    ensures
        title_ok(value@) ==> r is Ok,
        !title_ok(value@) ==> is_bad_request(r, "title must be between 1 and 160 characters"@),
{
    let t = trim(value);
    if t.as_str().is_empty() || t.as_str().as_bytes().len() > 160 {
        return Err(AppError::BadRequest(owned("title must be between 1 and 160 characters")));
    }
    Ok(())
}

/// `Ok` when the trimmed description has between 1 and 6000 bytes.
pub open spec fn description_ok(value: Seq<char>) -> bool {
    spec_trim(value).len() > 0 && byte_len(spec_trim(value)) <= 6000
}

/// Checks a post description.
pub fn validate_description(value: &str) -> (r: Result<(), AppError>)
    ensures
        description_ok(value@) ==> r is Ok,
        !description_ok(value@) ==> is_bad_request(
            r,
            "description must be between 1 and 6000 characters"@,
        ),
{
    let t = trim(value);
    if t.as_str().is_empty() || t.as_str().as_bytes().len() > 6000 {
        return Err(
            AppError::BadRequest(owned("description must be between 1 and 6000 characters")),
        );
    }
    Ok(())
}

/// Checks an image reference: at most 2048 bytes, and not a `javascript:` URL.
pub fn validate_image(value: &str) -> (r: Result<(), AppError>)
    ensures
        byte_len(value@) > 2048 ==> is_bad_request(r, "image must be at most 2048 characters"@),
        byte_len(value@) <= 2048 && has_prefix(value@, "javascript:"@) ==> is_bad_request(
            r,
            "image cannot use javascript scheme"@,
        ),
        byte_len(value@) <= 2048 && !has_prefix(value@, "javascript:"@) ==> r is Ok,
{
    if value.as_bytes().len() > 2048 {
        return Err(AppError::BadRequest(owned("image must be at most 2048 characters")));
    }
    if starts_with(value, "javascript:") {
        return Err(AppError::BadRequest(owned("image cannot use javascript scheme")));
    }
    Ok(())
}

// ---------------------------------------------------------------------------
// Calendar arithmetic
// ---------------------------------------------------------------------------

/// Whether `year` is a leap year in the proleptic Gregorian calendar.
pub open spec fn spec_is_leap_year(year: int) -> bool {
    (year % 4 == 0 && year % 100 != 0) || year % 400 == 0
}

proof fn lemma_divides_neg(x: int, d: int)
    requires
        d > 0,
    ensures
        (x % d == 0) == ((-x) % d == 0),
{
    if x % d == 0 {
        vstd::arithmetic::div_mod::lemma_fundamental_div_mod(x, d);
        let q = x / d;
        assert(-x == d * (-q)) by (nonlinear_arith)
            requires
                x == d * q,
        ;
        vstd::arithmetic::div_mod::lemma_mod_multiples_basic(-q, d);
        assert((d * (-q)) == (-q) * d) by (nonlinear_arith);
    }
    if (-x) % d == 0 {
        vstd::arithmetic::div_mod::lemma_fundamental_div_mod(-x, d);
        let q = (-x) / d;
        assert(x == d * (-q)) by (nonlinear_arith)
            requires
                -x == d * q,
        ;
        vstd::arithmetic::div_mod::lemma_mod_multiples_basic(-q, d);
        assert((d * (-q)) == (-q) * d) by (nonlinear_arith);
    }
}

/// Whether `n` is a multiple of the positive divisor `d`.
fn divisible(n: i32, d: u32) -> (r: bool)
    requires
        d > 0,
    ensures
        r == (n as int % d as int == 0),
{
    let m: u64 = if n < 0 { (0i64 - n as i64) as u64 } else { n as u64 };
    proof {
        lemma_divides_neg(n as int, d as int);
    }
    m % (d as u64) == 0
}

/// Whether `year` is a leap year.
pub fn is_leap_year(year: i32) -> (r: bool)
    ensures
        r == spec_is_leap_year(year as int),
{
    (divisible(year, 4) && !divisible(year, 100)) || divisible(year, 400)
}

/// The number of days of `month` in `year`, 0 when `month` is not in `1..=12`.
pub open spec fn spec_days_in_month(year: int, month: int) -> int {
    if month == 1 || month == 3 || month == 5 || month == 7 || month == 8 || month == 10
        || month == 12 {
        31
    } else if month == 4 || month == 6 || month == 9 || month == 11 {
        30
    } else if month == 2 {
        if spec_is_leap_year(year) {
            29
        } else {
            28
        }
    } else {
        0
    }
}

/// The number of days of `month` in `year`, 0 when `month` is not a month.
pub fn days_in_month(year: i32, month: i32) -> (r: i32)
    ensures
        r == spec_days_in_month(year as int, month as int),
{
    match month {
        1 | 3 | 5 | 7 | 8 | 10 | 12 => 31,
        4 | 6 | 9 | 11 => 30,
        2 => if is_leap_year(year) {
            29
        } else {
            28
        },
        _ => 0,
    }
}

// ---------------------------------------------------------------------------
// Dates
// ---------------------------------------------------------------------------

/// Whether `s` is ten characters shaped `DDDD-DD-DD` with ASCII digits `D`.
pub open spec fn iso_shape(s: Seq<char>) -> bool {
    &&& s.len() == 10
    &&& s[4] == '-' && s[7] == '-'
    &&& is_digit(s[0]) && is_digit(s[1]) && is_digit(s[2]) && is_digit(s[3])
    &&& is_digit(s[5]) && is_digit(s[6]) && is_digit(s[8]) && is_digit(s[9])
}

/// The year, month and day that an ISO-shaped `s` holds.
pub open spec fn iso_year(s: Seq<char>) -> int {
    digits_value(s.subrange(0, 4))
}

pub open spec fn iso_month(s: Seq<char>) -> int {
    digits_value(s.subrange(5, 7))
}

pub open spec fn iso_day(s: Seq<char>) -> int {
    digits_value(s.subrange(8, 10))
}

/// How a date text fares against the `YYYY-MM-DD` checks, in the order they are made.
pub enum DateCheck {
    Valid,
    BadFormat,
    BadYear,
    BadMonth,
    BadDay,
}

pub open spec fn date_check(s: Seq<char>) -> DateCheck {
    if !iso_shape(s) {
        DateCheck::BadFormat
    } else if !(1970 <= iso_year(s) <= 2100) {
        DateCheck::BadYear
    } else if !(1 <= iso_month(s) <= 12) {
        DateCheck::BadMonth
    } else if !(1 <= iso_day(s) <= spec_days_in_month(iso_year(s), iso_month(s))) {
        DateCheck::BadDay
    } else {
        DateCheck::Valid
    }
}

/// The message of a failed date check for the field `field`.
pub open spec fn date_message(field: Seq<char>, c: DateCheck) -> Seq<char> {
    match c {
        DateCheck::BadYear => field + " year must be between 1970 and 2100"@,
        DateCheck::BadMonth => field + " month must be between 1 and 12"@,
        DateCheck::BadDay => field + " day is invalid for this month"@,
        _ => field + " must use YYYY-MM-DD format"@,
    }
}

/// What checking `s` as a `YYYY-MM-DD` date for the field `field` returns.
pub open spec fn date_result(s: Seq<char>, field: Seq<char>, r: Result<(), AppError>) -> bool {
    match date_check(s) {
        DateCheck::Valid => r is Ok,
        c => is_bad_request(r, date_message(field, c)),
    }
}

fn bad_request_for(field_name: &str, suffix: &str) -> (r: AppError)
    ensures
        r matches AppError::BadRequest(m) && m@ == field_name@ + suffix@,
{
    let mut m = owned(field_name);
    m.append(suffix);
    AppError::BadRequest(m)
}

/// The value of the two or four digits `v[from..to]`.
fn small_number(v: &Vec<char>, from: usize, to: usize) -> (r: i32)
    requires
        from < to <= v.len(),
        to - from <= 4,
        all_digits(v@.subrange(from as int, to as int)),
    ensures
        r == digits_value(v@.subrange(from as int, to as int)),
        0 <= r < 10000,
{
    let mut acc: i32 = 0;
    let mut i = from;
    while i < to
        invariant
            from <= i <= to <= v.len(),
            to - from <= 4,
            all_digits(v@.subrange(from as int, to as int)),
            acc == digits_value(v@.subrange(from as int, i as int)),
            0 <= acc < pow10((i - from) as nat),
        decreases to - i,
    {
        assert(v@.subrange(from as int, (i + 1) as int).drop_last() =~= v@.subrange(
            from as int,
            i as int,
        ));
        assert(v@.subrange(from as int, to as int)[i - from] == v@[i as int]);
        let d = (v[i] as u32 - '0' as u32) as i32;
        assert(acc * 10 + d < pow10((i + 1 - from) as nat)) by (nonlinear_arith)
            requires
                0 <= acc < pow10((i - from) as nat),
                0 <= d < 10,
                pow10((i + 1 - from) as nat) == pow10((i - from) as nat) * 10,
        ;
        assert(pow10(4) == 10000) by {
            reveal_with_fuel(pow10, 5);
        }
        proof {
            lemma_pow10_mono((i + 1 - from) as nat, 4);
        }
        acc = acc * 10 + d;
        i = i + 1;
    }
    proof {
        lemma_pow10_mono((to - from) as nat, 4);
        reveal_with_fuel(pow10, 5);
    }
    acc
}

/// `10` to the power `n`.
pub open spec fn pow10(n: nat) -> int
    decreases n,
{
    if n == 0 {
        1
    } else {
        10 * pow10((n - 1) as nat)
    }
}

proof fn lemma_pow10_mono(a: nat, b: nat)
    requires
        a <= b,
    ensures
        1 <= pow10(a) <= pow10(b),
    decreases b,
{
    if a < b {
        lemma_pow10_mono(a, (b - 1) as nat);
    } else if a > 0 {
        lemma_pow10_mono((a - 1) as nat, (a - 1) as nat);
    }
}

/// Whether `v[from..to]` holds only ASCII digits.
fn all_digits_in(v: &Vec<char>, from: usize, to: usize) -> (r: bool)
    requires
        from <= to <= v.len(),
    ensures
        r == all_digits(v@.subrange(from as int, to as int)),
{
    let mut i = from;
    while i < to
        invariant
            from <= i <= to <= v.len(),
            all_digits(v@.subrange(from as int, i as int)),
        decreases to - i,
    {
        if !('0' <= v[i] && v[i] <= '9') {
            assert(v@.subrange(from as int, to as int)[i - from] == v@[i as int]);
            return false;
        }
        i = i + 1;
        assert(all_digits(v@.subrange(from as int, i as int)));
    }
    true
}

/// Checks that `value` is a real `YYYY-MM-DD` date from 1970 to 2100.
pub fn validate_date_yyyy_mm_dd(value: &str, field_name: &str) -> (r: Result<(), AppError>)
    ensures
        date_result(value@, field_name@, r),
{
    let v = chars_of(value);
    if v.len() != 10 || v[4] != '-' || v[7] != '-' || !all_digits_in(&v, 0, 4) || !all_digits_in(
        &v,
        5,
        7,
    ) || !all_digits_in(&v, 8, 10) {
        proof {
            if iso_shape(value@) {
                assert(all_digits(v@.subrange(0, 4)));
                assert(all_digits(v@.subrange(5, 7)));
                assert(all_digits(v@.subrange(8, 10)));
            }
        }
        return Err(bad_request_for(field_name, " must use YYYY-MM-DD format"));
    }
    assert(v@.subrange(0, 4)[0] == v@[0] && v@.subrange(0, 4)[1] == v@[1]);
    assert(v@.subrange(0, 4)[2] == v@[2] && v@.subrange(0, 4)[3] == v@[3]);
    assert(v@.subrange(5, 7)[0] == v@[5] && v@.subrange(5, 7)[1] == v@[6]);
    assert(v@.subrange(8, 10)[0] == v@[8] && v@.subrange(8, 10)[1] == v@[9]);
    assert(iso_shape(value@));
    let year = small_number(&v, 0, 4);
    let month = small_number(&v, 5, 7);
    let day = small_number(&v, 8, 10);
    if !(1970 <= year && year <= 2100) {
        return Err(bad_request_for(field_name, " year must be between 1970 and 2100"));
    }
    if !(1 <= month && month <= 12) {
        return Err(bad_request_for(field_name, " month must be between 1 and 12"));
    }
    let max_day = days_in_month(year, month);
    if day < 1 || day > max_day {
        return Err(bad_request_for(field_name, " day is invalid for this month"));
    }
    Ok(())
}

/// What `parse_number` gives for the text `s`: its value when `s` is all ASCII digits
/// and `str::parse::<i32>` accepts it.
pub open spec fn parse_number_outcome(s: Seq<char>) -> Option<i32> {
    if all_digits(s) {
        match spec_parse_in(s, true, i32::MIN as int, i32::MAX as int) {
            Some(v) => Some(v as i32),
            None => None,
        }
    } else {
        None
    }
}

/// Reads a run of digits as a number for the date field `field_name`.
pub fn parse_number(input: &str, field_name: &str) -> (r: Result<i32, AppError>)
    ensures
        parse_number_outcome(input@) matches Some(v) ==> r == Ok::<i32, AppError>(v),
        parse_number_outcome(input@) is None ==> is_bad_request(
            r,
            field_name@ + " must use YYYY-MM-DD format"@,
        ),
{
    let v = chars_of(input);
    if !all_digits_in(&v, 0, v.len()) {
        assert(v@.subrange(0, v.len() as int) =~= input@);
        return Err(bad_request_for(field_name, " must use YYYY-MM-DD format"));
    }
    assert(v@.subrange(0, v.len() as int) =~= input@);
    match parse_i32(input) {
        Some(n) => Ok(n),
        None => Err(bad_request_for(field_name, " must use YYYY-MM-DD format")),
    }
}

/// Whether the UTF-8 bytes of `t` are ten, with `-` at positions 4 and 7.
pub open spec fn iso_like_bytes(t: Seq<char>) -> bool {
    let b = vstd::utf8::encode_utf8(t);
    b.len() == 10 && b[4] == 45u8 && b[7] == 45u8
}

/// Whether `t` is ten characters shaped `DD/DD/DDDD` with ASCII digits `D`.
pub open spec fn dmy_shape(t: Seq<char>) -> bool {
    &&& t.len() == 10
    &&& t[2] == '/' && t[5] == '/'
    &&& is_digit(t[0]) && is_digit(t[1]) && is_digit(t[3]) && is_digit(t[4])
    &&& is_digit(t[6]) && is_digit(t[7]) && is_digit(t[8]) && is_digit(t[9])
}

/// The `YYYY-MM-DD` text of a `DD/MM/YYYY` text.
pub open spec fn dmy_to_iso(t: Seq<char>) -> Seq<char> {
    t.subrange(6, 10) + seq!['-'] + t.subrange(3, 5) + seq!['-'] + t.subrange(0, 2)
}

/// What normalising a date text for the field `field` gives: the ISO date text, or
/// the message of the failure.
pub open spec fn normalize_outcome(value: Seq<char>, field: Seq<char>) -> Result<Seq<char>, Seq<char>> {
    let t = spec_trim(value);
    if iso_like_bytes(t) {
        match date_check(t) {
            DateCheck::Valid => Ok(t),
            c => Err(date_message(field, c)),
        }
    } else if dmy_shape(t) {
        match date_check(dmy_to_iso(t)) {
            DateCheck::Valid => Ok(dmy_to_iso(t)),
            c => Err(date_message(field, c)),
        }
    } else {
        Err(field + " must use DD/MM/YYYY or YYYY-MM-DD format"@)
    }
}

/// Whether `r` is what `normalize_outcome` says.
pub open spec fn normalize_result(o: Result<Seq<char>, Seq<char>>, r: Result<String, AppError>) -> bool {
    match o {
        Ok(x) => r matches Ok(s) && s@ == x,
        Err(m) => is_bad_request(r, m),
    }
}

/// Accepts a date as `YYYY-MM-DD` or `DD/MM/YYYY` (after trimming) and gives it as
/// `YYYY-MM-DD`, checked to be a real date from 1970 to 2100.
pub fn normalize_date_to_iso(value: &str, field_name: &str) -> (r: Result<String, AppError>)
    ensures
        normalize_result(normalize_outcome(value@, field_name@), r),
{
    let t = trim(value);
    let b = t.as_str().as_bytes();
    if b.len() == 10 && b[4] == 45u8 && b[7] == 45u8 {
        match validate_date_yyyy_mm_dd(t.as_str(), field_name) {
            Ok(()) => return Ok(t),
            Err(e) => return Err(e),
        }
    }
    let v = chars_of(t.as_str());
    if v.len() == 10 && v[2] == '/' && v[5] == '/' && all_digits_in(&v, 0, 2) && all_digits_in(
        &v,
        3,
        5,
    ) && all_digits_in(&v, 6, 10) {
        assert(v@.subrange(0, 2)[0] == v@[0] && v@.subrange(0, 2)[1] == v@[1]);
        assert(v@.subrange(3, 5)[0] == v@[3] && v@.subrange(3, 5)[1] == v@[4]);
        assert(v@.subrange(6, 10)[0] == v@[6] && v@.subrange(6, 10)[1] == v@[7]);
        assert(v@.subrange(6, 10)[2] == v@[8] && v@.subrange(6, 10)[3] == v@[9]);
        let mut iso = string_from_range(&v, 6, 10);
        push_char(&mut iso, '-');
        let month = string_from_range(&v, 3, 5);
        iso.append(month.as_str());
        push_char(&mut iso, '-');
        let day = string_from_range(&v, 0, 2);
        iso.append(day.as_str());
        assert(iso@ =~= dmy_to_iso(t@));
        match validate_date_yyyy_mm_dd(iso.as_str(), field_name) {
            Ok(()) => return Ok(iso),
            Err(e) => return Err(e),
        }
    }
    proof {
        if dmy_shape(t@) {
            assert(all_digits(v@.subrange(0, 2)));
            assert(all_digits(v@.subrange(3, 5)));
            assert(all_digits(v@.subrange(6, 10)));
        }
    }
    Err(bad_request_for(field_name, " must use DD/MM/YYYY or YYYY-MM-DD format"))
}

/// The text of a date as `format!("{:04}-{:02}-{:02}", year, month, day)` writes it.
pub open spec fn spec_iso_text(year: int, month: int, day: int) -> Seq<char> {
    fmt_int(year, 4) + seq!['-'] + fmt_int(month, 2) + seq!['-'] + fmt_int(day, 2)
}

/// Writes a date as `YYYY-MM-DD`.
pub fn iso_text(year: i32, month: u8, day: u8) -> (r: String)
    ensures
        r@ == spec_iso_text(year as int, month as int, day as int),
{
    let mut r = format_int(year as i64, 4);
    push_char(&mut r, '-');
    let m = format_int(month as i64, 2);
    r.append(m.as_str());
    push_char(&mut r, '-');
    let d = format_int(day as i64, 2);
    r.append(d.as_str());
    r
}

/// Today's UTC date as `YYYY-MM-DD`; the date itself comes from the clock.
pub fn today_iso() -> (r: String)
    ensures
        exists|y: i32, m: u8, d: u8|
            1 <= m <= 12 && 1 <= d <= spec_days_in_month(y as int, m as int) && r@ == spec_iso_text(
                y as int,
                m as int,
                d as int,
            ),
{
    let now = crate::clock::utc_now();
    iso_text(now.year, now.month, now.day)
}

// ---------------------------------------------------------------------------
// A new post
// ---------------------------------------------------------------------------

/// The image to store: none is the empty text; a given one must pass its checks.
pub open spec fn spec_image_outcome(image: Option<Seq<char>>) -> Result<Seq<char>, Seq<char>> {
    match image {
        None => Ok(Seq::empty()),
        Some(v) => if byte_len(v) > 2048 {
            Err("image must be at most 2048 characters"@)
        } else if has_prefix(v, "javascript:"@) {
            Err("image cannot use javascript scheme"@)
        } else {
            Ok(v)
        },
    }
}

/// An optional date to store: absent or blank is none; else it is normalised.
pub open spec fn spec_optional_date(value: Option<Seq<char>>, field: Seq<char>) -> Result<Option<Seq<char>>, Seq<char>> {
    match value {
        None => Ok(None),
        Some(v) => if spec_trim(v).len() == 0 {
            Ok(None)
        } else {
            match normalize_outcome(spec_trim(v), field) {
                Ok(x) => Ok(Some(x)),
                Err(m) => Err(m),
            }
        },
    }
}

/// What creating a post stores besides the values given as they are: the image, the
/// start date and the end date; or the message of the first check that fails, in the
/// order title, description, image, start date, end date, order of the dates.
pub open spec fn spec_post_outcome(
    title: Seq<char>,
    image: Option<Seq<char>>,
    description: Seq<char>,
    start: Option<Seq<char>>,
    end: Option<Seq<char>>,
) -> Result<(Seq<char>, Option<Seq<char>>, Option<Seq<char>>), Seq<char>> {
    if !title_ok(title) {
        Err("title must be between 1 and 160 characters"@)
    } else if !description_ok(description) {
        Err("description must be between 1 and 6000 characters"@)
    } else {
        match spec_image_outcome(image) {
            Err(m) => Err(m),
            Ok(img) => match spec_optional_date(start, "start_date"@) {
                Err(m) => Err(m),
                Ok(s) => match spec_optional_date(end, "end_date"@) {
                    Err(m) => Err(m),
                    Ok(e) => if s is Some && e is Some && lex_lt(e->0, s->0) {
                        Err("end_date must be greater than or equal to start_date"@)
                    } else {
                        Ok((img, s, e))
                    },
                },
            },
        }
    }
}

/// The row that creating a post inserts.
pub struct NewPostRecord {
    pub title: String,
    pub image: String,
    pub description: String,
    pub author_id: i64,
    pub author_name: String,
    pub start_date: Option<String>,
    pub end_date: Option<String>,
    /// The creation and modification time.
    pub now: i64,
}

fn optional_date(value: Option<String>, field_name: &str) -> (r: Result<Option<String>, AppError>)
    ensures
        match spec_optional_date(crate::models::item::opt_string_view(value), field_name@) {
            Ok(o) => r matches Ok(x) && crate::models::item::opt_string_view(x) == o,
            Err(m) => is_bad_request(r, m),
        },
{
    match value {
        Some(v) => {
            let trimmed = trim(v.as_str());
            if trimmed.as_str().is_empty() {
                Ok(None)
            } else {
                match normalize_date_to_iso(trimmed.as_str(), field_name) {
                    Ok(x) => Ok(Some(x)),
                    Err(e) => Err(e),
                }
            }
        },
        None => Ok(None),
    }
}

/// Checks and normalises a new post and gives the row to insert. The title and
/// description are stored as given (the checks look at them trimmed).
pub fn prepare_post(input: CreatePostInput) -> (r: Result<NewPostRecord, AppError>)
    ensures
        match spec_post_outcome(
            input.title@,
            crate::models::item::opt_string_view(input.image),
            input.description@,
            crate::models::item::opt_string_view(input.start_date),
            crate::models::item::opt_string_view(input.end_date),
        ) {
            Ok((img, s, e)) => r matches Ok(p) && p.title@ == input.title@ && p.image@ == img
                && p.description@ == input.description@ && p.author_id == input.author_id
                && p.author_name@ == input.author_name@ && crate::models::item::opt_string_view(
                p.start_date,
            ) == s && crate::models::item::opt_string_view(p.end_date) == e
                && crate::clock::timestamp_of_real_day(p.now as int),
            Err(m) => is_bad_request(r, m),
        },
{
    validate_title(input.title.as_str())?;
    validate_description(input.description.as_str())?;
    let clock = crate::clock::utc_now();
    let now = clock.unix;
    assert(crate::clock::timestamp_in_day(now as int, clock.year as int, clock.month as int, clock.day as int));
    let image = match input.image {
        Some(value) => {
            validate_image(value.as_str())?;
            value
        },
        None => String::new(),
    };
    let start_date = optional_date(input.start_date, "start_date")?;
    let end_date = optional_date(input.end_date, "end_date")?;
    match (&start_date, &end_date) {
        (Some(start), Some(end)) => {
            if str_lt(end.as_str(), start.as_str()) {
                return Err(
                    AppError::BadRequest(
                        owned("end_date must be greater than or equal to start_date"),
                    ),
                );
            }
        },
        _ => {},
    }
    Ok(NewPostRecord {
        title: input.title,
        image,
        description: input.description,
        author_id: input.author_id,
        author_name: input.author_name,
        start_date,
        end_date,
        now,
    })
}

// ---------------------------------------------------------------------------
// Reactions, pins, and reading posts back
// ---------------------------------------------------------------------------

/// What setting a reaction does to the stored one.
#[derive(PartialEq, Eq, Structural, Debug)]
pub enum ReactionUpdate {
    /// Delete the stored reaction.
    Remove,
    /// Store this reaction, replacing any other.
    Store(ReactionValue),
}

/// Setting the reaction already stored takes it back; any other is stored.
pub open spec fn spec_reaction_update(current: Option<Seq<char>>, reaction: ReactionValue) -> ReactionUpdate {
    if current == Some(reaction.spec_as_str()) {
        ReactionUpdate::Remove
    } else {
        ReactionUpdate::Store(reaction)
    }
}

/// Decides what setting `reaction` does, given the reaction stored for the user and
/// the post (if any).
pub fn reaction_update(current: Option<&str>, reaction: ReactionValue) -> (r: ReactionUpdate)
    ensures
        r == spec_reaction_update(opt_view(current), reaction),
{
    match current {
        Some(c) => if str_eq(c, reaction.as_str()) {
            ReactionUpdate::Remove
        } else {
            ReactionUpdate::Store(reaction)
        },
        None => ReactionUpdate::Store(reaction),
    }
}

/// The stored reaction after an update.
pub open spec fn spec_after_update(current: Option<Seq<char>>, u: ReactionUpdate) -> Option<Seq<char>> {
    match u {
        ReactionUpdate::Remove => None,
        ReactionUpdate::Store(v) => Some(v.spec_as_str()),
    }
}

/// The stored value of the pinned flag.
pub fn pinned_flag(pinned: bool) -> (r: i64)
    ensures
        r == (if pinned { 1i64 } else { 0i64 }),
{
    if pinned {
        1
    } else {
        0
    }
}

/// A row of a listing of posts as the database gives it.
pub struct PostRow {
    pub id: i64,
    pub pinned: i64,
    pub title: String,
    pub image: String,
    pub description: String,
    pub author_id: i64,
    pub author_name: String,
    pub start_date: String,
    pub end_date: String,
    pub creation_date: i64,
    pub modification_date: i64,
    pub reacted: i64,
    pub reaction: Option<String>,
}

/// The post that a row read from the database stands for: the flags are the
/// columns equal to 1, and the reaction tells whether the user is going.
pub open spec fn spec_post_from_row(row: PostRow) -> PostListItem {
    PostListItem {
        id: row.id,
        pinned: row.pinned == 1,
        title: row.title,
        image: row.image,
        description: row.description,
        author_id: row.author_id,
        author_name: row.author_name,
        start_date: row.start_date,
        end_date: row.end_date,
        creation_date: row.creation_date,
        modification_date: row.modification_date,
        reacted: row.reacted == 1,
        reaction: row.reaction,
        going: crate::models::item::opt_string_view(row.reaction) == Some("going"@),
        not_going: crate::models::item::opt_string_view(row.reaction) == Some("not_going"@),
    }
}

/// The post that a row shows: flags read from their stored numbers, and the user's
/// reaction told apart.
pub fn post_from_row(row: PostRow) -> (r: PostListItem)
    ensures
        r == spec_post_from_row(row),
        r.id == row.id && r.title == row.title && r.image == row.image && r.description
            == row.description,
        r.author_id == row.author_id && r.author_name == row.author_name,
        r.start_date == row.start_date && r.end_date == row.end_date,
        r.creation_date == row.creation_date && r.modification_date == row.modification_date,
        r.reaction == row.reaction,
{
    let (going, not_going) = match &row.reaction {
        Some(v) => (str_eq(v.as_str(), "going"), str_eq(v.as_str(), "not_going")),
        None => (false, false),
    };
    PostListItem {
        id: row.id,
        pinned: row.pinned == 1,
        title: row.title,
        image: row.image,
        description: row.description,
        author_id: row.author_id,
        author_name: row.author_name,
        start_date: row.start_date,
        end_date: row.end_date,
        creation_date: row.creation_date,
        modification_date: row.modification_date,
        reacted: row.reacted == 1,
        reaction: row.reaction,
        going,
        not_going,
    }
}

/// The posts that rows show, in order.
pub fn posts_from_rows(rows: Vec<PostRow>) -> (r: Vec<PostListItem>)
    ensures
        r@.len() == rows@.len(),
        forall|i: int| 0 <= i < rows@.len() ==> #[trigger] r@[i] == spec_post_from_row(rows@[i]),
{
    let mut rows = rows;
    let ghost all = rows@;
    let mut out: Vec<PostListItem> = Vec::new();
    while rows.len() > 0
        invariant
            out@.len() <= all.len(),
            rows@ == all.skip(out@.len() as int),
            forall|i: int| 0 <= i < out@.len() ==> #[trigger] out@[i] == spec_post_from_row(all[i]),
        decreases rows.len(),
    {
        let ghost k = out@.len();
        let row = rows.remove(0);
        assert(all[k as int] == row);
        out.push(post_from_row(row));
        assert(rows@ =~= all.skip(k + 1 as int));
    }
    out
}

/// The prefix that the start dates of the posts of a month begin with: the
/// `YYYY-MM` of the month and a `-`.
pub fn month_prefix(year_month: &str) -> (r: String)
    ensures
        r@ == year_month@ + "-"@,
{
    let mut r = owned(year_month);
    r.append("-");
    r
}

/// The statement that lists posts for a user, with what is bound to its parameters.
pub struct ListQuery {
    pub sql: String,
    /// Bound to the first parameter: the user whose reactions are joined.
    pub user_id: i64,
    /// Bound to the second parameter when present: today's date, for future posts.
    pub today: Option<String>,
}

/// The text of the statement that lists posts for a filter and an order.
pub open spec fn spec_list_sql(filter: Option<PostFilter>, sort: PostSort) -> Seq<char> {
    list_sql_head() + " WHERE "@ + (match filter {
        Some(PostFilter::Reacted) => "r.user_id IS NOT NULL"@,
        Some(PostFilter::NotReacted) => "r.user_id IS NULL"@,
        Some(PostFilter::Futurs) => "COALESCE(p.start_date, '') > ?"@,
        None => "1 = 1"@,
    }) + " ORDER BY "@ + (match sort {
        PostSort::CreationDate => "p.creation_date DESC"@,
        PostSort::StartDate => "COALESCE(p.start_date, '') DESC"@,
    }) + ", p.id DESC LIMIT 400"@
}

/// The selection and join that every listing of posts starts with.
pub open spec fn list_sql_head() -> Seq<char> {
    "SELECT p.id, p.pinned, p.title, p.image, p.description, p.author_id, p.author_name, p.start_date, p.end_date, p.creation_date, p.modification_date, CASE WHEN r.id IS NULL THEN 0 ELSE 1 END AS reacted, r.reaction AS reaction FROM posts p LEFT JOIN reactions r ON r.post_id = p.id AND r.user_id = ?"@
}

/// The statement that lists the posts for `user_id` with a filter and an order: at
/// most 400, newest (or latest starting) first, ties broken by the newest id.
pub fn list_posts_query(user_id: i64, filter: Option<PostFilter>, sort: PostSort) -> (r: ListQuery)
    ensures
        r.sql@ == spec_list_sql(filter, sort),
        r.user_id == user_id,
        (filter == Some(PostFilter::Futurs)) == (r.today is Some),
        r.today matches Some(t) ==> exists|y: i32, m: u8, d: u8|
            1 <= m <= 12 && 1 <= d <= spec_days_in_month(y as int, m as int) && t@ == spec_iso_text(
                y as int,
                m as int,
                d as int,
            ),
{
    let mut sql = owned(
        "SELECT p.id, p.pinned, p.title, p.image, p.description, p.author_id, p.author_name, p.start_date, p.end_date, p.creation_date, p.modification_date, CASE WHEN r.id IS NULL THEN 0 ELSE 1 END AS reacted, r.reaction AS reaction FROM posts p LEFT JOIN reactions r ON r.post_id = p.id AND r.user_id = ?",
    );
    sql.append(" WHERE ");
    let mut today: Option<String> = None;
    match filter {
        Some(PostFilter::Reacted) => sql.append("r.user_id IS NOT NULL"),
        Some(PostFilter::NotReacted) => sql.append("r.user_id IS NULL"),
        Some(PostFilter::Futurs) => {
            sql.append("COALESCE(p.start_date, '') > ?");
            today = Some(today_iso());
        },
        None => sql.append("1 = 1"),
    }
    sql.append(" ORDER BY ");
    match sort {
        PostSort::CreationDate => sql.append("p.creation_date DESC"),
        PostSort::StartDate => sql.append("COALESCE(p.start_date, '') DESC"),
    }
    sql.append(", p.id DESC LIMIT 400");
    ListQuery { sql, user_id, today }
}

// ---------------------------------------------------------------------------
// Laws of reactions
// ---------------------------------------------------------------------------

proof fn lemma_reaction_names_differ()
    ensures
        "going"@ != "not_going"@,
{
    reveal_strlit("going");
    reveal_strlit("not_going");
    assert("going"@.len() != "not_going"@.len());
}

/// A reaction is read back from the name it is stored under, and the two reactions
/// are stored under different names.
pub proof fn law_reaction_name_round_trip(r: ReactionValue)
    ensures
        ReactionValue::spec_from_str(r.spec_as_str()) == Some(r),
        ReactionValue::Going.spec_as_str() != ReactionValue::NotGoing.spec_as_str(),
{
    lemma_reaction_names_differ();
}

/// Setting a reaction stores it, unless it is the one already stored, which it takes
/// back; so setting the same reaction twice restores what there was, when that was no
/// reaction or that same one.
pub proof fn law_reaction_toggle(current: Option<Seq<char>>, r: ReactionValue)
    ensures
        spec_after_update(current, spec_reaction_update(current, r)) == (if current == Some(
            r.spec_as_str(),
        ) {
            None
        } else {
            Some(r.spec_as_str())
        }),
        (current is None || current == Some(r.spec_as_str())) ==> ({
            let once = spec_after_update(current, spec_reaction_update(current, r));
            spec_after_update(once, spec_reaction_update(once, r)) == current
        }),
{
}

// ---------------------------------------------------------------------------
// Laws of the date handling
// ---------------------------------------------------------------------------

proof fn lemma_trim_fixed(x: Seq<char>)
    requires
        x.len() > 0,
        is_digit(x[0]),
        is_digit(x.last()),
    ensures
        spec_trim(x) == x,
{
    assert(!crate::text::is_ws(x[0]));
    assert(crate::text::trim_start(x) == x);
    assert(!crate::text::is_ws(x.last()));
}

proof fn lemma_ascii_bytes(x: Seq<char>)
    requires
        forall|i: int| 0 <= i < x.len() ==> (is_digit(#[trigger] x[i]) || x[i] == '-' || x[i] == '/'),
    ensures
        vstd::utf8::encode_utf8(x).len() == x.len(),
        forall|i: int| 0 <= i < x.len() ==> vstd::utf8::encode_utf8(x)[i] == x[i] as u8,
{
    assert(vstd::utf8::is_ascii_chars(x));
    vstd::utf8::is_ascii_chars_encode_utf8(x);
}

/// The "reacted" listing keeps exactly the posts that have a reaction of the user
/// joined (`r.user_id IS NOT NULL`), and the "not reacted" listing exactly those that
/// have none (`r.user_id IS NULL`), whatever the order; so the two never list alike.
pub proof fn law_reaction_filters_are_complements(sort: PostSort)
    ensures
        (list_sql_head() + " WHERE r.user_id IS NOT NULL ORDER BY "@).is_prefix_of(
            spec_list_sql(Some(PostFilter::Reacted), sort),
        ),
        (list_sql_head() + " WHERE r.user_id IS NULL ORDER BY "@).is_prefix_of(
            spec_list_sql(Some(PostFilter::NotReacted), sort),
        ),
        spec_list_sql(Some(PostFilter::Reacted), sort) != spec_list_sql(
            Some(PostFilter::NotReacted),
            sort,
        ),
{
    reveal_strlit(" WHERE ");
    reveal_strlit("r.user_id IS NOT NULL");
    reveal_strlit("r.user_id IS NULL");
    reveal_strlit(" ORDER BY ");
    reveal_strlit(" WHERE r.user_id IS NOT NULL ORDER BY ");
    reveal_strlit(" WHERE r.user_id IS NULL ORDER BY ");
    let h = list_sql_head();
    let order = match sort {
        PostSort::CreationDate => "p.creation_date DESC"@,
        PostSort::StartDate => "COALESCE(p.start_date, '') DESC"@,
    };
    let tail = ", p.id DESC LIMIT 400"@;
    let yes = "r.user_id IS NOT NULL"@;
    let no = "r.user_id IS NULL"@;
    let a = spec_list_sql(Some(PostFilter::Reacted), sort);
    let b = spec_list_sql(Some(PostFilter::NotReacted), sort);
    let pa = h + " WHERE r.user_id IS NOT NULL ORDER BY "@;
    let pb = h + " WHERE r.user_id IS NULL ORDER BY "@;
    assert(a == h + " WHERE "@ + yes + " ORDER BY "@ + order + tail);
    assert(b == h + " WHERE "@ + no + " ORDER BY "@ + order + tail);
    assert(a =~= pa + (order + tail));
    assert(b =~= pb + (order + tail));
    assert(a.subrange(0, pa.len() as int) =~= pa);
    assert(b.subrange(0, pb.len() as int) =~= pb);
    assert(a[h.len() + 21int] == pa[h.len() + 21int]);
    assert(b[h.len() + 21int] == pb[h.len() + 21int]);
    assert(pa[h.len() + 21int] != pb[h.len() + 21int]);
}

/// A post read from a row carries every column into the field of the same name:
/// the start date stays the start date and the end date the end date; the flags are
/// the columns equal to 1; and the user is going or not going exactly when the
/// reaction reads `going` or `not_going`, never both.
pub proof fn law_post_from_row_keeps_columns(row: PostRow)
    ensures
        ({
            let p = spec_post_from_row(row);
            &&& p.id == row.id && p.title == row.title && p.image == row.image
            &&& p.description == row.description && p.author_id == row.author_id
            &&& p.author_name == row.author_name
            &&& p.start_date == row.start_date && p.end_date == row.end_date
            &&& p.creation_date == row.creation_date && p.modification_date == row.modification_date
            &&& p.pinned == (row.pinned == 1) && p.reacted == (row.reacted == 1)
            &&& p.reaction == row.reaction
            &&& p.going <==> (row.reaction matches Some(v) && v@ == "going"@)
            &&& p.not_going <==> (row.reaction matches Some(v) && v@ == "not_going"@)
            &&& !(p.going && p.not_going)
        }),
{
    lemma_reaction_names_differ();
}

/// The dates of a created post are real ISO dates, and the end is not before the start.
pub proof fn law_post_dates_ordered(
    title: Seq<char>,
    image: Option<Seq<char>>,
    description: Seq<char>,
    start: Option<Seq<char>>,
    end: Option<Seq<char>>,
)
    ensures
        spec_post_outcome(title, image, description, start, end) matches Ok((img, s, e)) ==> {
            &&& (s matches Some(x) ==> iso_shape(x) && date_check(x) is Valid)
            &&& (e matches Some(y) ==> iso_shape(y) && date_check(y) is Valid)
            &&& (s is Some && e is Some ==> !lex_lt(e->0, s->0))
        },
{
}

/// A month has 28 to 31 days, and February has 29 exactly in leap years.
pub proof fn law_month_lengths(year: int, month: int)
    requires
        1 <= month <= 12,
    ensures
        28 <= spec_days_in_month(year, month) <= 31,
        month == 2 ==> (spec_days_in_month(year, month) == 29 <==> spec_is_leap_year(year)),
{
}

/// A normalised date is an ISO-shaped real date.
pub proof fn law_normalized_date_is_valid(value: Seq<char>, field: Seq<char>)
    ensures
        normalize_outcome(value, field) matches Ok(x) ==> iso_shape(x) && date_check(x) is Valid,
{
}

/// Normalising a normalised date gives it back unchanged.
pub proof fn law_normalize_idempotent(value: Seq<char>, field: Seq<char>, other_field: Seq<char>)
    ensures
        normalize_outcome(value, field) matches Ok(x) ==> normalize_outcome(x, other_field) == Ok::<
            Seq<char>,
            Seq<char>,
        >(x),
{
    if let Ok(x) = normalize_outcome(value, field) {
        assert(iso_shape(x));
        lemma_trim_fixed(x);
        lemma_ascii_bytes(x);
        assert(iso_like_bytes(x));
    }
}

/// A `DD/MM/YYYY` date and the `YYYY-MM-DD` text of the same day normalise alike.
pub proof fn law_dmy_and_iso_agree(t: Seq<char>, field: Seq<char>)
    requires
        dmy_shape(t),
    ensures
        normalize_outcome(t, field) == normalize_outcome(dmy_to_iso(t), field),
{
    let iso = dmy_to_iso(t);
    assert(iso.len() == 10);
    assert(iso[0] == t[6] && iso[3] == t[9] && iso[4] == '-' && iso[5] == t[3] && iso[7] == '-'
        && iso[9] == t[1]);
    assert(iso[1] == t[7] && iso[2] == t[8] && iso[6] == t[4] && iso[8] == t[0]);
    lemma_trim_fixed(t);
    lemma_trim_fixed(iso);
    lemma_ascii_bytes(t);
    lemma_ascii_bytes(iso);
    assert(!iso_like_bytes(t));
    assert(iso_like_bytes(iso));
}

} // verus!
