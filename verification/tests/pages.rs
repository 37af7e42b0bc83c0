use gangrennes::api::pages::handlers::{
    auth_error_text, build_calendar_days, calendar_view, days_in_month, index_view,
    layout_calendar_days, parse_or_current_ym, parse_ym, profile_view, weekday_of, ym_text,
    IndexQuery, APP_NAME,
};
use gangrennes::api::posts::services::PostListItem;

fn post(id: i64, title: &str, start: &str, end: &str, reaction: Option<&str>) -> PostListItem {
    PostListItem {
        id,
        pinned: false,
        title: title.to_string(),
        image: String::new(),
        description: String::new(),
        author_id: 1,
        author_name: "bob".to_string(),
        start_date: start.to_string(),
        end_date: end.to_string(),
        creation_date: 1,
        modification_date: 1,
        reacted: reaction.is_some(),
        reaction: reaction.map(|r| r.to_string()),
        going: reaction == Some("going"),
        not_going: reaction == Some("not_going"),
    }
}

#[test]
fn auth_error_codes_have_their_messages() {
    assert_eq!(auth_error_text("invalid_credentials"), "Invalid username or password");
    assert_eq!(auth_error_text("invalid_password"), "Password must be at least 8 characters");
    assert_eq!(auth_error_text("username_taken"), "Username already exists");
    assert_eq!(auth_error_text("registration_failed"), "Registration failed");
    assert_eq!(auth_error_text("whatever"), "Authentication failed");
}

#[test]
fn index_page_opens_the_asked_form() {
    let page = index_view(&IndexQuery { auth: None, err: None });
    assert_eq!(page.app_name, APP_NAME);
    assert_eq!(page.auth_tab, "login");
    assert!(!page.open_auth_modal);
    assert_eq!(page.error_message, None);

    let page = index_view(&IndexQuery { auth: Some("register".to_string()), err: Some("username_taken".to_string()) });
    assert_eq!(page.auth_tab, "register");
    assert!(page.open_auth_modal);
    assert_eq!(page.error_message.as_deref(), Some("Username already exists"));

    let page = index_view(&IndexQuery { auth: Some("other".to_string()), err: None });
    assert_eq!(page.auth_tab, "login");
}

#[test]
fn profile_page_names_the_user() {
    let page = profile_view("alice");
    assert_eq!(page.username, "alice");
    assert_eq!(page.app_name, APP_NAME);
}

#[test]
fn year_month_texts_are_read() {
    assert_eq!(parse_ym("2026-06"), Some((2026, 6)));
    assert_eq!(parse_ym("2026-12"), Some((2026, 12)));
    assert_eq!(parse_ym("2026-13"), None);
    assert_eq!(parse_ym("2026-00"), None);
    assert_eq!(parse_ym("2026"), None);
    assert_eq!(parse_ym("abcd-01"), None);
    assert_eq!(parse_ym(""), None);
    assert_eq!(parse_or_current_ym(Some("1999-02")), (1999, 2));
    let (_, m) = parse_or_current_ym(Some("junk"));
    assert!((1..=12).contains(&m));
    let (_, m) = parse_or_current_ym(None);
    assert!((1..=12).contains(&m));
}

#[test]
fn month_lengths_of_the_calendar() {
    assert_eq!(days_in_month(2024, 2), 29);
    assert_eq!(days_in_month(2023, 2), 28);
    assert_eq!(days_in_month(1900, 2), 28);
    assert_eq!(days_in_month(2000, 2), 29);
    assert_eq!(days_in_month(2024, 4), 30);
    assert_eq!(days_in_month(2024, 12), 31);
    assert_eq!(days_in_month(2024, 13), 30);
}

#[test]
fn weekdays_count_from_monday() {
    assert_eq!(weekday_of(2024, 1, 1), 0);
    assert_eq!(weekday_of(2024, 2, 1), 3);
    assert_eq!(weekday_of(2026, 6, 1), 0);
    assert_eq!(weekday_of(2021, 2, 1), 0);
    assert_eq!(weekday_of(2024, 6, 30), 6);
    assert_eq!(weekday_of(2023, 2, 30), 0);
}

#[test]
fn calendar_grid_is_made_of_whole_weeks() {
    let none: Vec<PostListItem> = Vec::new();
    let feb_2021 = build_calendar_days(2021, 2, &none);
    assert_eq!(feb_2021.len(), 35);
    assert_eq!(feb_2021[0].day, 1);
    assert_eq!(feb_2021[27].day, 28);
    assert!(feb_2021[28..].iter().all(|d| d.day == 0 && d.events.is_empty()));

    let jun_2026 = build_calendar_days(2026, 6, &none);
    assert_eq!(jun_2026.len(), 35);
    assert_eq!(jun_2026[0].day, 1);
    assert_eq!(jun_2026[29].day, 30);
    assert!(jun_2026[30..].iter().all(|d| d.day == 0));

    let feb_2024 = build_calendar_days(2024, 2, &none);
    assert_eq!(feb_2024.len(), 35);
    assert!(feb_2024[..3].iter().all(|d| d.day == 0));
    assert_eq!(feb_2024[3].day, 1);
    assert_eq!(feb_2024[31].day, 29);

    let grid = layout_calendar_days(2024, 3, 6, &none);
    assert_eq!(grid.len(), 42);
    assert_eq!(grid[6].day, 1);
    for (i, d) in grid.iter().enumerate() {
        assert_eq!(d.day as usize, if (6..37).contains(&i) { i - 5 } else { 0 });
    }
}

#[test]
fn posts_are_placed_on_the_days_they_last() {
    let posts = vec![
        post(1, "A very long title", "2024-06-03", "2024-06-05", Some("going")),
        post(2, "Short", "2024-06-05", "2024-06-05", None),
        post(3, "Elsewhere", "2024-07-01", "2024-07-02", None),
    ];
    // June 2024 starts on a Saturday.
    let grid = build_calendar_days(2024, 6, &posts);
    assert_eq!(grid.len(), 35);
    let day = |n: usize| &grid[5 + n - 1];
    assert_eq!(day(1).day, 1);
    assert!(day(2).events.is_empty());
    assert_eq!(day(3).events.len(), 1);
    assert_eq!(day(3).events[0].id, 1);
    assert_eq!(day(3).events[0].title, "A very lon");
    assert_eq!(day(3).events[0].reaction, "going");
    assert_eq!(day(4).events.len(), 1);
    let ids: Vec<i64> = day(5).events.iter().map(|e| e.id).collect();
    assert_eq!(ids, vec![1, 2]);
    assert_eq!(day(5).events[1].reaction, "none");
    assert_eq!(day(5).events[1].title, "Short");
    assert!(day(6).events.is_empty());
    assert!(grid.iter().all(|d| d.events.iter().all(|e| e.id != 3)));
}

#[test]
fn calendar_page_labels_and_links() {
    let page = calendar_view("alice", 2026, 6, Vec::new());
    assert_eq!(page.month_label, "June 2026");
    assert_eq!(page.prev_ym, "2026-05");
    assert_eq!(page.next_ym, "2026-07");
    assert_eq!(page.username, "alice");
    assert_eq!(page.tabs.len(), 3);
    assert!(page.tabs[2].active);

    let jan = calendar_view("alice", 2026, 1, Vec::new());
    assert_eq!(jan.month_label, "January 2026");
    assert_eq!(jan.prev_ym, "2025-12");
    assert_eq!(jan.next_ym, "2026-02");

    let dec = calendar_view("alice", 2026, 12, Vec::new());
    assert_eq!(dec.prev_ym, "2026-11");
    assert_eq!(dec.next_ym, "2027-01");
}

#[test]
fn month_links_read_back() {
    assert_eq!(ym_text(2026, 5), "2026-05");
    assert_eq!(ym_text(7, 1), "0007-01");
    for (y, m) in [(2026, 5u8), (0, 1), (12345, 12), (999, 10)] {
        assert_eq!(parse_ym(&ym_text(y, m)), Some((y, m)));
    }
}
