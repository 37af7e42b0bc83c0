use gangrennes::api::auth::services::AuthUser;
use gangrennes::api::posts::handlers::{
    after_create_post, check_image_upload, create_post_submission, detect_image_extension,
    field_read_error, filter_options, form_field, is_ajax_request, is_allowed_image_content_type,
    list_choice, normalize_filter, normalize_sort, new_page_view, optional_trimmed,
    pinned_from_form, pinned_page_view, post_detail_view, protected_tabs, reaction_from_form,
    sort_options, target_from_form, upload_paths, AfterCreate, CreatePostFields, FormField,
    ParsedCreatePost, APP_NAME,
};
use gangrennes::api::posts::services::{PostFilter, PostListItem, PostSort, ReactionValue};
use gangrennes::error::AppError;

fn message(e: AppError) -> String {
    match e {
        AppError::BadRequest(m) => m,
        _ => panic!("expected a bad request"),
    }
}

fn post(id: i64, title: &str) -> PostListItem {
    PostListItem {
        id,
        pinned: false,
        title: title.to_string(),
        image: String::new(),
        description: "desc".to_string(),
        author_id: 1,
        author_name: "bob".to_string(),
        start_date: "2024-06-03".to_string(),
        end_date: "2024-06-05".to_string(),
        creation_date: 1,
        modification_date: 2,
        reacted: true,
        reaction: Some("going".to_string()),
        going: true,
        not_going: false,
    }
}

#[test]
fn tabs_mark_the_active_one() {
    let tabs = protected_tabs("new");
    let shown: Vec<(&str, &str, bool)> = tabs.iter().map(|t| (t.href.as_str(), t.label.as_str(), t.active)).collect();
    assert_eq!(shown, vec![("/pinned", "pinned", false), ("/new", "new", true), ("/calendar", "calendar", false)]);
    assert!(protected_tabs("other").iter().all(|t| !t.active));
}

#[test]
fn filter_and_sort_values_are_normalised() {
    assert_eq!(normalize_filter(Some("reacted")), "reacted");
    assert_eq!(normalize_filter(Some("nonsense")), "all");
    assert_eq!(normalize_filter(None), "all");
    assert_eq!(normalize_sort(Some("start_date")), "start_date");
    assert_eq!(normalize_sort(Some("x")), "creation_date");
    for v in [Some("reacted"), Some("futurs"), Some("zzz"), None] {
        assert_eq!(PostFilter::from_query(Some(normalize_filter(v))), PostFilter::from_query(v));
    }
    let c = list_choice(Some("not-reacted"), Some("start_date"));
    assert_eq!(c.filter, Some(PostFilter::NotReacted));
    assert_eq!(c.sort, PostSort::StartDate);
}

#[test]
fn one_option_is_selected() {
    let f = filter_options("not-reacted");
    let labels: Vec<&str> = f.iter().map(|o| o.label.as_str()).collect();
    assert_eq!(labels, vec!["all", "reacted", "not reacted", "futurs"]);
    assert_eq!(f.iter().filter(|o| o.selected).count(), 1);
    assert!(f[2].selected);
    let s = sort_options("creation_date");
    assert!(s[0].selected && !s[1].selected);
}

#[test]
fn optional_values_are_trimmed() {
    assert_eq!(optional_trimmed(Some("  x ".to_string())), Some("x".to_string()));
    assert_eq!(optional_trimmed(Some("   ".to_string())), None);
    assert_eq!(optional_trimmed(None), None);
}

#[test]
fn where_to_go_back_to() {
    assert_eq!(target_from_form(Some("pinned"), Some("reacted"), None), "/pinned");
    assert_eq!(target_from_form(None, None, None), "/new?filter=all&sort=creation_date");
    assert_eq!(target_from_form(Some("new"), Some("futurs"), Some("start_date")), "/new?filter=futurs&sort=start_date");
}

#[test]
fn image_formats_by_signature() {
    assert_eq!(detect_image_extension(&[0x89, b'P', b'N', b'G', 0x0D, 0x0A, 0x1A, 0x0A, 0]), Some("png"));
    assert_eq!(detect_image_extension(&[0xFF, 0xD8, 0xFF, 0xE0]), Some("jpg"));
    assert_eq!(detect_image_extension(b"GIF89a...."), Some("gif"));
    assert_eq!(detect_image_extension(b"GIF87a"), Some("gif"));
    assert_eq!(detect_image_extension(b"RIFF\0\0\0\0WEBPVP8 "), Some("webp"));
    assert_eq!(detect_image_extension(b"RIFF\0\0\0\0WAVE"), None);
    assert_eq!(detect_image_extension(&[0xFF, 0xD8]), None);
    assert_eq!(detect_image_extension(&[]), None);
    assert!(is_allowed_image_content_type("image/webp"));
    assert!(!is_allowed_image_content_type("image/svg+xml"));
}

#[test]
fn uploaded_images_are_judged_in_order() {
    assert!(matches!(check_image_upload("text/plain", &[]), Ok(None)));
    assert_eq!(message(check_image_upload("text/plain", b"GIF89a").err().unwrap()), "unsupported image content type");
    assert!(matches!(check_image_upload("", b"GIF89a"), Ok(Some("gif"))));
    assert!(matches!(check_image_upload("image/png", &[0xFF, 0xD8, 0xFF]), Ok(Some("jpg"))));
    assert_eq!(
        message(check_image_upload("image/png", b"plain text").err().unwrap()),
        "unsupported image format; allowed: jpg, png, webp, gif"
    );
    let big = vec![0xFFu8; 5 * 1024 * 1024 + 1];
    assert_eq!(message(check_image_upload("image/jpeg", &big).err().unwrap()), "image must be at most 5MB");
}

#[test]
fn uploads_get_random_hex_names() {
    let a = upload_paths("png");
    let b = upload_paths("png");
    let name = a.file_path.strip_prefix("uploads/").unwrap().strip_suffix(".png").unwrap();
    assert_eq!(name.len(), 32);
    assert!(name.chars().all(|c| c.is_ascii_hexdigit() && !c.is_ascii_uppercase()));
    assert_eq!(a.url, format!("/{}", a.file_path));
    assert_ne!(a.file_path, b.file_path);
}

#[test]
fn form_fields_by_name() {
    assert_eq!(form_field("title"), FormField::Title);
    assert_eq!(form_field("image"), FormField::Image);
    assert_eq!(form_field("other"), FormField::Ignored);
    assert_eq!(message(field_read_error(FormField::StartDate)), "invalid start_date field");
    assert_eq!(message(field_read_error(FormField::Image)), "invalid image upload");
    assert_eq!(message(field_read_error(FormField::Ignored)), "invalid multipart payload");
}

#[test]
fn form_needs_title_and_description() {
    let mut f = CreatePostFields::new();
    f.set_text(FormField::Description, "d".to_string());
    assert_eq!(message(f.finish().err().unwrap()), "missing title");
    let mut f = CreatePostFields::new();
    f.set_text(FormField::Title, "first".to_string());
    f.set_text(FormField::Title, "second".to_string());
    assert_eq!(message(f.finish().err().unwrap()), "missing description");
    let mut f = CreatePostFields::new();
    f.set_text(FormField::Title, "t".to_string());
    f.set_text(FormField::Description, "d".to_string());
    f.set_text(FormField::Sort, "start_date".to_string());
    f.set_image("/uploads/x.png".to_string());
    let p = f.finish().ok().unwrap();
    assert_eq!((p.title.as_str(), p.image.as_deref(), p.sort.as_deref()), ("t", Some("/uploads/x.png"), Some("start_date")));
}

#[test]
fn submission_from_the_form() {
    let form = ParsedCreatePost {
        title: "  Title ".to_string(),
        image: Some(" ".to_string()),
        description: " Body ".to_string(),
        start_date: Some(" 2024-01-01 ".to_string()),
        end_date: None,
        filter: Some("reacted".to_string()),
        sort: None,
    };
    let user = AuthUser { id: 9, username: "eve".to_string() };
    let s = create_post_submission(form, &user);
    assert_eq!(s.input.title, "Title");
    assert_eq!(s.input.image, None);
    assert_eq!(s.input.description, "Body");
    assert_eq!(s.input.start_date.as_deref(), Some("2024-01-01"));
    assert_eq!((s.input.author_id, s.input.author_name.as_str()), (9, "eve"));
    assert_eq!(s.filter.as_deref(), Some("reacted"));
}

#[test]
fn after_creating_a_post() {
    match after_create_post(Ok(()), Some("reacted"), None) {
        AfterCreate::Redirect(t) => assert_eq!(t, "/new?filter=reacted&sort=creation_date"),
        _ => panic!("expected a redirect"),
    }
    match after_create_post(Err(AppError::BadRequest("no".to_string())), None, None) {
        AfterCreate::ShowForm(m) => assert_eq!(m, "no"),
        _ => panic!("expected the form"),
    }
    assert!(matches!(after_create_post(Err(AppError::Database), None, None), AfterCreate::Fail(AppError::Database)));
}

#[test]
fn pages_of_posts() {
    let posts = vec![post(1, "A very long title that goes on"), post(2, "Short")];
    let c = list_choice(Some("reacted"), None);
    let page = new_page_view("bob", &c, None, &posts);
    assert_eq!(page.app_name, APP_NAME);
    assert_eq!(page.current_tab, "new");
    assert!(page.show_create_controls);
    assert_eq!(page.selected_filter, "reacted");
    assert_eq!(page.posts.len(), 2);
    assert_eq!(page.posts[0].title, "A very long title th");
    assert_eq!(page.posts[1].title, "Short");
    let pinned = pinned_page_view("bob", Some("oops".to_string()), &posts);
    assert_eq!(pinned.current_tab, "pinned");
    assert!(!pinned.show_create_controls);
    assert_eq!(pinned.error_message.as_deref(), Some("oops"));
    assert!(pinned.tabs[0].active);
    let detail = post_detail_view("bob", Some(post(1, "A very long title that goes on"))).ok().unwrap();
    assert_eq!(detail.post.title, "A very long title that goes on");
    assert_eq!((detail.creation_date, detail.modification_date), (1, 2));
    assert_eq!(message(post_detail_view("bob", None).err().unwrap()), "post not found");
}

#[test]
fn reading_the_small_forms() {
    assert_eq!(pinned_from_form("1").ok(), Some(true));
    assert_eq!(pinned_from_form("0").ok(), Some(false));
    assert_eq!(message(pinned_from_form("yes").err().unwrap()), "invalid pinned value");
    assert_eq!(reaction_from_form(" going ").ok(), Some(ReactionValue::Going));
    assert_eq!(message(reaction_from_form("maybe").err().unwrap()), "invalid reaction");
    assert!(is_ajax_request(Some("XMLHttpRequest")));
    assert!(!is_ajax_request(Some("fetch")));
    assert!(!is_ajax_request(None));
}
