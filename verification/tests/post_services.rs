use gangrennes::api::posts::services::{
    days_in_month, is_leap_year, list_posts_query, month_prefix, normalize_date_to_iso,
    parse_number, pinned_flag, post_from_row, posts_from_rows, prepare_post, reaction_update,
    today_iso, validate_date_yyyy_mm_dd, validate_description, validate_image, validate_title,
    CreatePostInput, PostFilter, PostRow, PostSort, ReactionUpdate, ReactionValue,
};
use gangrennes::error::AppError;

fn bad_request<T>(r: Result<T, AppError>) -> String {
    match r {
        Err(AppError::BadRequest(m)) => m,
        Err(_) => panic!("expected a bad request, got another error"),
        Ok(_) => panic!("expected a bad request, got a success"),
    }
}

#[test]
fn filters_and_sorts_from_query() {
    assert_eq!(PostFilter::from_query(Some("reacted")), Some(PostFilter::Reacted));
    assert_eq!(PostFilter::from_query(Some("not-reacted")), Some(PostFilter::NotReacted));
    assert_eq!(PostFilter::from_query(Some("futurs")), Some(PostFilter::Futurs));
    assert_eq!(PostFilter::from_query(Some("all")), None);
    assert_eq!(PostFilter::from_query(None), None);
    assert_eq!(PostSort::from_query(Some("start_date")), PostSort::StartDate);
    assert_eq!(PostSort::from_query(Some("whatever")), PostSort::CreationDate);
    assert_eq!(PostSort::from_query(None), PostSort::CreationDate);
}

#[test]
fn reaction_names_round_trip() {
    for r in [ReactionValue::Going, ReactionValue::NotGoing] {
        assert_eq!(ReactionValue::from_str(r.as_str()), Some(r));
    }
    assert_eq!(ReactionValue::Going.as_str(), "going");
    assert_eq!(ReactionValue::NotGoing.as_str(), "not_going");
    assert_eq!(ReactionValue::from_str("maybe"), None);
}

#[test]
fn setting_the_same_reaction_twice_takes_it_back() {
    assert_eq!(reaction_update(None, ReactionValue::Going), ReactionUpdate::Store(ReactionValue::Going));
    assert_eq!(reaction_update(Some("going"), ReactionValue::Going), ReactionUpdate::Remove);
    assert_eq!(
        reaction_update(Some("not_going"), ReactionValue::Going),
        ReactionUpdate::Store(ReactionValue::Going)
    );
}

#[test]
fn title_description_and_image_checks() {
    assert!(validate_title("  A title ").is_ok());
    assert_eq!(bad_request(validate_title("   ")), "title must be between 1 and 160 characters");
    assert!(validate_title(&"é".repeat(80)).is_ok());
    assert_eq!(bad_request(validate_title(&"é".repeat(81))), "title must be between 1 and 160 characters");
    assert!(validate_description(&"x".repeat(6000)).is_ok());
    assert_eq!(
        bad_request(validate_description(&"x".repeat(6001))),
        "description must be between 1 and 6000 characters"
    );
    assert!(validate_image("/uploads/a.png").is_ok());
    assert_eq!(bad_request(validate_image("javascript:alert(1)")), "image cannot use javascript scheme");
    assert_eq!(bad_request(validate_image(&"a".repeat(2049))), "image must be at most 2048 characters");
}

#[test]
fn calendar_arithmetic() {
    assert!(is_leap_year(2024));
    assert!(!is_leap_year(1900));
    assert!(is_leap_year(2000));
    assert!(is_leap_year(-4));
    assert!(!is_leap_year(-1));
    assert_eq!(days_in_month(2024, 2), 29);
    assert_eq!(days_in_month(2023, 2), 28);
    assert_eq!(days_in_month(2023, 4), 30);
    assert_eq!(days_in_month(2023, 12), 31);
    assert_eq!(days_in_month(2023, 13), 0);
}

#[test]
fn iso_dates_are_checked_field_by_field() {
    assert!(validate_date_yyyy_mm_dd("2024-02-29", "start_date").is_ok());
    assert_eq!(
        bad_request(validate_date_yyyy_mm_dd("2023-02-29", "start_date")),
        "start_date day is invalid for this month"
    );
    assert_eq!(
        bad_request(validate_date_yyyy_mm_dd("1969-12-31", "end_date")),
        "end_date year must be between 1970 and 2100"
    );
    assert_eq!(
        bad_request(validate_date_yyyy_mm_dd("2024-13-01", "end_date")),
        "end_date month must be between 1 and 12"
    );
    assert_eq!(
        bad_request(validate_date_yyyy_mm_dd("2024/01/01", "end_date")),
        "end_date must use YYYY-MM-DD format"
    );
    assert_eq!(
        bad_request(validate_date_yyyy_mm_dd("2024-1-01", "end_date")),
        "end_date must use YYYY-MM-DD format"
    );
}

#[test]
fn parse_number_reads_digits_only() {
    assert_eq!(parse_number("0042", "d").ok(), Some(42));
    assert_eq!(bad_request(parse_number("4a", "d")), "d must use YYYY-MM-DD format");
    assert_eq!(bad_request(parse_number("", "d")), "d must use YYYY-MM-DD format");
    assert_eq!(bad_request(parse_number("99999999999", "d")), "d must use YYYY-MM-DD format");
}

#[test]
fn dates_are_normalised_to_iso() {
    assert_eq!(normalize_date_to_iso(" 2024-05-17 ", "start_date").ok().unwrap(), "2024-05-17");
    assert_eq!(normalize_date_to_iso("17/05/2024", "start_date").ok().unwrap(), "2024-05-17");
    assert_eq!(
        bad_request(normalize_date_to_iso("31/02/2024", "start_date")),
        "start_date day is invalid for this month"
    );
    assert_eq!(
        bad_request(normalize_date_to_iso("2024.05.17", "start_date")),
        "start_date must use DD/MM/YYYY or YYYY-MM-DD format"
    );
    assert_eq!(
        bad_request(normalize_date_to_iso("aa/bb/cccc", "end_date")),
        "end_date must use DD/MM/YYYY or YYYY-MM-DD format"
    );
    assert_eq!(
        bad_request(normalize_date_to_iso("20a4-05-17", "end_date")),
        "end_date must use YYYY-MM-DD format"
    );
}

#[test]
fn normalising_twice_changes_nothing() {
    for v in ["2024-05-17", "01/01/1970", " 31/12/2100 "] {
        let once = normalize_date_to_iso(v, "d").ok().unwrap();
        assert_eq!(normalize_date_to_iso(&once, "other").ok().unwrap(), once);
    }
}

#[test]
fn day_first_and_iso_forms_agree() {
    let a = normalize_date_to_iso("29/02/2023", "d").err().map(|e| match e {
        AppError::BadRequest(m) => m,
        _ => String::new(),
    });
    let b = normalize_date_to_iso("2023-02-29", "d").err().map(|e| match e {
        AppError::BadRequest(m) => m,
        _ => String::new(),
    });
    assert_eq!(a, b);
}

fn input(start: Option<&str>, end: Option<&str>) -> CreatePostInput {
    CreatePostInput {
        title: " Party ".to_string(),
        image: None,
        description: "At the park".to_string(),
        author_id: 7,
        author_name: "alice".to_string(),
        start_date: start.map(|s| s.to_string()),
        end_date: end.map(|s| s.to_string()),
    }
}

#[test]
fn preparing_a_post() {
    let p = prepare_post(input(Some("17/05/2024"), Some(" 2024-05-18 "))).ok().unwrap();
    assert_eq!(p.title, " Party ");
    assert_eq!(p.image, "");
    assert_eq!(p.start_date.as_deref(), Some("2024-05-17"));
    assert_eq!(p.end_date.as_deref(), Some("2024-05-18"));
    assert_eq!(p.author_id, 7);
    let blank = prepare_post(input(Some("   "), None)).ok().unwrap();
    assert_eq!(blank.start_date, None);
    assert_eq!(
        bad_request(prepare_post(input(Some("2024-05-18"), Some("2024-05-17")))),
        "end_date must be greater than or equal to start_date"
    );
    assert_eq!(
        bad_request(prepare_post(input(None, Some("2024-02-30")))),
        "end_date day is invalid for this month"
    );
    let mut untitled = input(None, None);
    untitled.title = "  ".to_string();
    assert_eq!(bad_request(prepare_post(untitled)), "title must be between 1 and 160 characters");
    let mut script = input(None, None);
    script.image = Some("javascript:x".to_string());
    assert_eq!(bad_request(prepare_post(script)), "image cannot use javascript scheme");
}

fn row(reaction: Option<&str>) -> PostRow {
    PostRow {
        id: 3,
        pinned: 1,
        title: "t".to_string(),
        image: String::new(),
        description: "d".to_string(),
        author_id: 1,
        author_name: "a".to_string(),
        start_date: "2024-01-01".to_string(),
        end_date: "2024-01-02".to_string(),
        creation_date: 10,
        modification_date: 11,
        reacted: if reaction.is_some() { 1 } else { 0 },
        reaction: reaction.map(|s| s.to_string()),
    }
}

#[test]
fn rows_become_posts() {
    let going = post_from_row(row(Some("going")));
    assert!(going.pinned && going.reacted && going.going && !going.not_going);
    let not_going = post_from_row(row(Some("not_going")));
    assert!(not_going.not_going && !not_going.going);
    let none = post_from_row(row(None));
    assert!(!none.reacted && !none.going && !none.not_going);
    let all = posts_from_rows(vec![row(None), row(Some("going"))]);
    assert_eq!(all.len(), 2);
    assert!(!all[0].going && all[1].going);
}

#[test]
fn the_listing_statement() {
    let q = list_posts_query(5, Some(PostFilter::Reacted), PostSort::StartDate);
    assert!(q.sql.ends_with(" WHERE r.user_id IS NOT NULL ORDER BY COALESCE(p.start_date, '') DESC, p.id DESC LIMIT 400"));
    assert_eq!(q.user_id, 5);
    assert!(q.today.is_none());
    let f = list_posts_query(5, Some(PostFilter::Futurs), PostSort::CreationDate);
    assert!(f.sql.contains("COALESCE(p.start_date, '') > ?"));
    assert_eq!(f.today.as_ref().map(|t| t.len()), Some(10));
    let all = list_posts_query(5, None, PostSort::CreationDate);
    assert!(all.sql.contains(" WHERE 1 = 1 ORDER BY p.creation_date DESC"));
}

#[test]
fn small_helpers() {
    assert_eq!(month_prefix("2024-05"), "2024-05-");
    assert_eq!(pinned_flag(true), 1);
    assert_eq!(pinned_flag(false), 0);
    let today = today_iso();
    assert_eq!(today.len(), 10);
    assert!(validate_date_yyyy_mm_dd(&today, "today").is_ok());
}

#[test]
fn future_posts_are_compared_with_today() {
    let f = list_posts_query(5, Some(PostFilter::Futurs), PostSort::CreationDate);
    let today = f.today.expect("a date is bound");
    assert_eq!(today.len(), 10);
    assert_eq!(normalize_date_to_iso(&today, "today").ok(), Some(today.clone()));
    assert!(today.as_str() > "2020-01-01");
}
