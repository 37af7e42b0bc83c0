//! The decisions of the post pages: which list to show and how, what a form says,
//! where to go next, and what an uploaded image is. Reading requests, querying the
//! database, writing files and rendering stand outside this library.
use vstd::prelude::*;
use crate::api::auth::services::AuthUser;
use crate::api::posts::dto::CreatePostForm;
use crate::api::posts::services::{
    CreatePostInput, PostFilter, PostListItem, PostSort, opt_view,
};
use crate::api::views::{NewTemplate, PostDetailTemplate, PostItemTemplate, SelectOption, TabLink};
use crate::error::{AppError, is_bad_request};
use crate::models::item::opt_string_view;
use crate::numbers::{hex_lower, to_hex_lower};
use crate::text::{
    chars_of, eq_ignore_ascii_case, owned, spec_ascii_lowercase, spec_trim, spec_truncate, str_eq,
    trim,
};

pub use crate::text::truncate_chars;

use rand::RngCore;
verus! {

broadcast use vstd::string::group_string_axioms;

/// The name of the application, shown on every page.
pub const APP_NAME: &'static str = "LA GANGRENNE";

/// Whether `t` is the tab `label` linking to `href`, active as given.
pub open spec fn is_tab(t: TabLink, href: Seq<char>, label: Seq<char>, active: bool) -> bool {
    t.href@ == href && t.label@ == label && t.active == active
}

fn tab(href: &str, label: &str, active: &str) -> (r: TabLink)
    ensures
        is_tab(r, href@, label@, label@ == active@),
{
    TabLink { href: owned(href), label: owned(label), active: str_eq(label, active) }
}

/// Whether `tabs` are the tabs of the pages for signed-in users (pinned, new,
/// calendar), with the one labelled `active` marked.
pub open spec fn is_protected_tabs(tabs: Seq<TabLink>, active: Seq<char>) -> bool {
    &&& tabs.len() == 3
    &&& is_tab(tabs[0], "/pinned"@, "pinned"@, "pinned"@ == active)
    &&& is_tab(tabs[1], "/new"@, "new"@, "new"@ == active)
    &&& is_tab(tabs[2], "/calendar"@, "calendar"@, "calendar"@ == active)
}

/// The tabs of the pages for signed-in users, with the one labelled `active` marked.
pub fn protected_tabs(active: &str) -> (r: Vec<TabLink>)
    ensures
        is_protected_tabs(r@, active@),
        r@.len() == 3,
        is_tab(r@[0], "/pinned"@, "pinned"@, "pinned"@ == active@),
        is_tab(r@[1], "/new"@, "new"@, "new"@ == active@),
        is_tab(r@[2], "/calendar"@, "calendar"@, "calendar"@ == active@),
{
    let mut r: Vec<TabLink> = Vec::new();
    r.push(tab("/pinned", "pinned", active));
    r.push(tab("/new", "new", active));
    r.push(tab("/calendar", "calendar", active));
    r
}

/// The filter value that the page keeps: a known one, else `all`.
pub open spec fn spec_normalize_filter(value: Option<Seq<char>>) -> Seq<char> {
    match value {
        Some(v) => if v == "reacted"@ || v == "not-reacted"@ || v == "futurs"@ {
            v
        } else {
            "all"@
        },
        None => "all"@,
    }
}

/// The filter value of the page for a query value.
pub fn normalize_filter(value: Option<&str>) -> (r: &'static str)
    ensures
        r@ == spec_normalize_filter(opt_view(value)),
{
    match value {
        Some(v) => if str_eq(v, "reacted") {
            "reacted"
        } else if str_eq(v, "not-reacted") {
            "not-reacted"
        } else if str_eq(v, "futurs") {
            "futurs"
        } else {
            "all"
        },
        None => "all",
    }
}

/// The sort value that the page keeps: `start_date` if asked, else `creation_date`.
pub open spec fn spec_normalize_sort(value: Option<Seq<char>>) -> Seq<char> {
    if value == Some("start_date"@) {
        "start_date"@
    } else {
        "creation_date"@
    }
}

/// The sort value of the page for a query value.
pub fn normalize_sort(value: Option<&str>) -> (r: &'static str)
    ensures
        r@ == spec_normalize_sort(opt_view(value)),
{
    match value {
        Some(v) => if str_eq(v, "start_date") {
            "start_date"
        } else {
            "creation_date"
        },
        None => "creation_date",
    }
}

/// Whether `o` is the option `value` shown as `label`, selected as given.
pub open spec fn is_option(o: SelectOption, value: Seq<char>, label: Seq<char>, selected: bool) -> bool {
    o.value@ == value && o.label@ == label && o.selected == selected
}

fn option(value: &str, label: &str, selected: &str) -> (r: SelectOption)
    ensures
        is_option(r, value@, label@, selected@ == value@),
{
    SelectOption { value: owned(value), label: owned(label), selected: str_eq(selected, value) }
}

/// Whether `opts` are the options of the filter box, with `selected` selected.
pub open spec fn is_filter_options(opts: Seq<SelectOption>, selected: Seq<char>) -> bool {
    &&& opts.len() == 4
    &&& is_option(opts[0], "all"@, "all"@, selected == "all"@)
    &&& is_option(opts[1], "reacted"@, "reacted"@, selected == "reacted"@)
    &&& is_option(opts[2], "not-reacted"@, "not reacted"@, selected == "not-reacted"@)
    &&& is_option(opts[3], "futurs"@, "futurs"@, selected == "futurs"@)
}

/// Whether `opts` are the options of the sort box, with `selected` selected.
pub open spec fn is_sort_options(opts: Seq<SelectOption>, selected: Seq<char>) -> bool {
    &&& opts.len() == 2
    &&& is_option(opts[0], "creation_date"@, "creation_date"@, selected == "creation_date"@)
    &&& is_option(opts[1], "start_date"@, "start_date"@, selected == "start_date"@)
}

/// The options of the filter box, with `selected_filter` selected.
pub fn filter_options(selected_filter: &str) -> (r: Vec<SelectOption>)
    ensures
        is_filter_options(r@, selected_filter@),
        r@.len() == 4,
        is_option(r@[0], "all"@, "all"@, selected_filter@ == "all"@),
        is_option(r@[1], "reacted"@, "reacted"@, selected_filter@ == "reacted"@),
        is_option(r@[2], "not-reacted"@, "not reacted"@, selected_filter@ == "not-reacted"@),
        is_option(r@[3], "futurs"@, "futurs"@, selected_filter@ == "futurs"@),
{
    let mut r: Vec<SelectOption> = Vec::new();
    r.push(option("all", "all", selected_filter));
    r.push(option("reacted", "reacted", selected_filter));
    r.push(option("not-reacted", "not reacted", selected_filter));
    r.push(option("futurs", "futurs", selected_filter));
    r
}

/// The options of the sort box, with `selected_sort` selected.
pub fn sort_options(selected_sort: &str) -> (r: Vec<SelectOption>)
    ensures
        is_sort_options(r@, selected_sort@),
        r@.len() == 2,
        is_option(r@[0], "creation_date"@, "creation_date"@, selected_sort@ == "creation_date"@),
        is_option(r@[1], "start_date"@, "start_date"@, selected_sort@ == "start_date"@),
{
    let mut r: Vec<SelectOption> = Vec::new();
    r.push(option("creation_date", "creation_date", selected_sort));
    r.push(option("start_date", "start_date", selected_sort));
    r
}

/// A trimmed optional text, absent when nothing is left.
pub open spec fn spec_optional_trimmed(value: Option<Seq<char>>) -> Option<Seq<char>> {
    match value {
        Some(v) => if spec_trim(v).len() == 0 {
            None
        } else {
            Some(spec_trim(v))
        },
        None => None,
    }
}

/// Trims an optional form value, dropping it when nothing is left.
pub fn optional_trimmed(value: Option<String>) -> (r: Option<String>)
    ensures
        opt_string_view(r) == spec_optional_trimmed(opt_string_view(value)),
{
    match value {
        Some(v) => {
            let trimmed = trim(v.as_str());
            if trimmed.as_str().is_empty() {
                None
            } else {
                Some(trimmed)
            }
        },
        None => None,
    }
}

/// The address of the list of posts with the given filter and sort (`all` and
/// `creation_date` when absent).
pub open spec fn list_target(filter: Option<Seq<char>>, sort: Option<Seq<char>>) -> Seq<char> {
    "/new?filter="@ + (match filter {
        Some(f) => f,
        None => "all"@,
    }) + "&sort="@ + (match sort {
        Some(s) => s,
        None => "creation_date"@,
    })
}

/// Where to go back to after acting on a post: the pinned tab, or the list.
pub open spec fn spec_target_from_form(
    tab: Option<Seq<char>>,
    filter: Option<Seq<char>>,
    sort: Option<Seq<char>>,
) -> Seq<char> {
    if tab == Some("pinned"@) {
        "/pinned"@
    } else {
        list_target(filter, sort)
    }
}

/// The address of the list of posts with the given filter and sort.
pub fn list_address(filter: Option<&str>, sort: Option<&str>) -> (r: String)
    ensures
        r@ == list_target(opt_view(filter), opt_view(sort)),
{
    let mut r = owned("/new?filter=");
    match filter {
        Some(f) => r.append(f),
        None => r.append("all"),
    }
    r.append("&sort=");
    match sort {
        Some(s) => r.append(s),
        None => r.append("creation_date"),
    }
    r
}

/// Where to go back to after acting on a post.
pub fn target_from_form(tab: Option<&str>, filter: Option<&str>, sort: Option<&str>) -> (r: String)
    ensures
        r@ == spec_target_from_form(opt_view(tab), opt_view(filter), opt_view(sort)),
{
    match tab {
        Some(t) => if str_eq(t, "pinned") {
            return owned("/pinned");
        },
        None => {},
    }
    list_address(filter, sort)
}

/// Whether an uploaded file declares one of the accepted image types.
pub open spec fn spec_allowed_image_type(content_type: Seq<char>) -> bool {
    content_type == "image/jpeg"@ || content_type == "image/png"@ || content_type == "image/webp"@
        || content_type == "image/gif"@
}

/// Whether `content_type` is an accepted image type.
pub fn is_allowed_image_content_type(content_type: &str) -> (r: bool)
    ensures
        r == spec_allowed_image_type(content_type@),
{
    str_eq(content_type, "image/jpeg") || str_eq(content_type, "image/png") || str_eq(
        content_type,
        "image/webp",
    ) || str_eq(content_type, "image/gif")
}

/// The content type that an image file of extension `e` declares: `image/jpeg` for
/// `jpg`, else `image/` and the extension.
pub open spec fn declared_type_of(e: Seq<char>) -> Seq<char> {
    if e == "jpg"@ {
        "image/jpeg"@
    } else {
        "image/"@ + e
    }
}

/// Whether `b` begins with the bytes `p`.
pub open spec fn bytes_start_with(b: Seq<u8>, p: Seq<u8>) -> bool {
    p.len() <= b.len() && b.subrange(0, p.len() as int) == p
}

/// The file extension that the leading bytes of an image show, if any: PNG, JPEG,
/// GIF (87a or 89a) or WebP, tested in that order.
pub open spec fn spec_image_extension(b: Seq<u8>) -> Option<Seq<char>> {
    if bytes_start_with(b, seq![0x89u8, 0x50u8, 0x4eu8, 0x47u8, 0x0du8, 0x0au8, 0x1au8, 0x0au8]) {
        Some("png"@)
    } else if b.len() >= 3 && b[0] == 0xffu8 && b[1] == 0xd8u8 && b[2] == 0xffu8 {
        Some("jpg"@)
    } else if bytes_start_with(b, seq![0x47u8, 0x49u8, 0x46u8, 0x38u8, 0x37u8, 0x61u8])
        || bytes_start_with(b, seq![0x47u8, 0x49u8, 0x46u8, 0x38u8, 0x39u8, 0x61u8]) {
        Some("gif"@)
    } else if b.len() >= 12 && b.subrange(0, 4) == seq![0x52u8, 0x49u8, 0x46u8, 0x46u8]
        && b.subrange(8, 12) == seq![0x57u8, 0x45u8, 0x42u8, 0x50u8] {
        Some("webp"@)
    } else {
        None
    }
}

/// Whether `b[at..]` begins with the bytes `p`.
fn bytes_match_at(b: &[u8], at: usize, p: &[u8]) -> (r: bool)
    requires
        at <= b@.len(),
    ensures
        r == (at + p@.len() <= b@.len() && b@.subrange(at as int, at + p@.len()) == p@),
{
    if p.len() > b.len() - at {
        return false;
    }
    let mut k: usize = 0;
    while k < p.len()
        invariant
            k <= p@.len(),
            at + p@.len() <= b@.len(),
            b@.len() == b.len(),
            forall|j: int| 0 <= j < k ==> b@[at + j] == p@[j],
        decreases p.len() - k,
    {
        if b[at + k] != p[k] {
            assert(b@.subrange(at as int, at + p@.len())[k as int] != p@[k as int]);
            return false;
        }
        k = k + 1;
    }
    assert(b@.subrange(at as int, at + p@.len()) =~= p@);
    true
}

/// The extension of the image format that `bytes` begin with, if any.
pub fn detect_image_extension(bytes: &[u8]) -> (r: Option<&'static str>)
    ensures
        opt_view(r) == spec_image_extension(bytes@),
{
    let png: [u8; 8] = [0x89, 0x50, 0x4e, 0x47, 0x0d, 0x0a, 0x1a, 0x0a];
    let gif87: [u8; 6] = [0x47, 0x49, 0x46, 0x38, 0x37, 0x61];
    let gif89: [u8; 6] = [0x47, 0x49, 0x46, 0x38, 0x39, 0x61];
    let riff: [u8; 4] = [0x52, 0x49, 0x46, 0x46];
    let webp: [u8; 4] = [0x57, 0x45, 0x42, 0x50];
    assert(png@ =~= seq![0x89u8, 0x50u8, 0x4eu8, 0x47u8, 0x0du8, 0x0au8, 0x1au8, 0x0au8]);
    assert(gif87@ =~= seq![0x47u8, 0x49u8, 0x46u8, 0x38u8, 0x37u8, 0x61u8]);
    assert(gif89@ =~= seq![0x47u8, 0x49u8, 0x46u8, 0x38u8, 0x39u8, 0x61u8]);
    assert(riff@ =~= seq![0x52u8, 0x49u8, 0x46u8, 0x46u8]);
    assert(webp@ =~= seq![0x57u8, 0x45u8, 0x42u8, 0x50u8]);
    if bytes_match_at(bytes, 0, png.as_slice()) {
        return Some("png");
    }
    if bytes.len() >= 3 && bytes[0] == 0xff && bytes[1] == 0xd8 && bytes[2] == 0xff {
        return Some("jpg");
    }
    if bytes_match_at(bytes, 0, gif87.as_slice()) || bytes_match_at(bytes, 0, gif89.as_slice()) {
        return Some("gif");
    }
    if bytes.len() >= 12 && bytes_match_at(bytes, 0, riff.as_slice()) && bytes_match_at(
        bytes,
        8,
        webp.as_slice(),
    ) {
        return Some("webp");
    }
    None
}

/// Whether `t` shows `p` with its title cut to `title` characters.
pub open spec fn shows_post(t: PostItemTemplate, p: PostListItem, title: Seq<char>) -> bool {
    &&& t.id == p.id
    &&& t.pinned == p.pinned
    &&& t.title@ == title
    &&& t.image@ == p.image@
    &&& t.description@ == p.description@
    &&& t.author_name@ == p.author_name@
    &&& t.start_date@ == p.start_date@
    &&& t.end_date@ == p.end_date@
    &&& t.reacted == p.reacted
    &&& t.going == p.going
    &&& t.not_going == p.not_going
}

fn post_item(post: &PostListItem, title: String) -> (r: PostItemTemplate)
    ensures
        shows_post(r, *post, title@),
{
    PostItemTemplate {
        id: post.id,
        pinned: post.pinned,
        title,
        image: post.image.clone(),
        description: post.description.clone(),
        author_name: post.author_name.clone(),
        start_date: post.start_date.clone(),
        end_date: post.end_date.clone(),
        reacted: post.reacted,
        going: post.going,
        not_going: post.not_going,
    }
}

/// Whether `items` lists `posts` in order, each title cut to 20 characters.
pub open spec fn lists_posts(items: Seq<PostItemTemplate>, posts: Seq<PostListItem>) -> bool {
    items.len() == posts.len() && forall|i: int|
        0 <= i < posts.len() ==> shows_post(
            #[trigger] items[i],
            posts[i],
            spec_truncate(posts[i].title@, 20),
        )
}

fn list_items(posts: &Vec<PostListItem>) -> (r: Vec<PostItemTemplate>)
    ensures
        lists_posts(r@, posts@),
{
    let mut r: Vec<PostItemTemplate> = Vec::new();
    let mut i: usize = 0;
    while i < posts.len()
        invariant
            i <= posts.len(),
            r@.len() == i,
            forall|k: int|
                0 <= k < i ==> shows_post(
                    #[trigger] r@[k],
                    posts@[k],
                    spec_truncate(posts@[k].title@, 20),
                ),
        decreases posts.len() - i,
    {
        let title = truncate_chars(posts[i].title.as_str(), 20);
        r.push(post_item(&posts[i], title));
        i = i + 1;
    }
    r
}

/// The filter and order that the list of posts is queried with, and the values of the
/// select boxes, for the query values of the page.
pub struct ListChoice {
    pub filter: Option<PostFilter>,
    pub sort: PostSort,
    pub selected_filter: &'static str,
    pub selected_sort: &'static str,
}

/// Reads the filter and sort of the list of posts from the query values.
pub fn list_choice(filter_query: Option<&str>, sort_query: Option<&str>) -> (r: ListChoice)
    ensures
        r.selected_filter@ == spec_normalize_filter(opt_view(filter_query)),
        r.selected_sort@ == spec_normalize_sort(opt_view(sort_query)),
        r.filter == PostFilter::spec_from_query(Some(r.selected_filter@)),
        r.sort == PostSort::spec_from_query(Some(r.selected_sort@)),
{
    let selected_filter = normalize_filter(filter_query);
    let selected_sort = normalize_sort(sort_query);
    ListChoice {
        filter: PostFilter::from_query(Some(selected_filter)),
        sort: PostSort::from_query(Some(selected_sort)),
        selected_filter,
        selected_sort,
    }
}

proof fn lemma_labels_differ()
    ensures
        "pinned"@ != "new"@,
        "calendar"@ != "new"@,
        "pinned"@ != "calendar"@,
        "all"@ != "reacted"@,
        "all"@ != "not-reacted"@,
        "all"@ != "futurs"@,
        "creation_date"@ != "start_date"@,
{
    reveal_strlit("pinned");
    reveal_strlit("new");
    reveal_strlit("calendar");
    reveal_strlit("all");
    reveal_strlit("reacted");
    reveal_strlit("not-reacted");
    reveal_strlit("futurs");
    reveal_strlit("creation_date");
    reveal_strlit("start_date");
    assert("pinned"@[0] != "new"@[0]);
    assert("calendar"@[0] != "new"@[0]);
    assert("pinned"@[0] != "calendar"@[0]);
    assert("all"@[0] != "reacted"@[0]);
    assert("all"@[0] != "not-reacted"@[0]);
    assert("all"@[0] != "futurs"@[0]);
    assert("creation_date"@[0] != "start_date"@[0]);
}

/// The page of the list of posts (`new` tab), for the chosen filter and sort.
pub fn new_page_view(
    username: &str,
    choice: &ListChoice,
    error_message: Option<String>,
    posts: &Vec<PostListItem>,
) -> (r: NewTemplate)
    ensures
        r.app_name@ == APP_NAME@,
        r.current_tab@ == "new"@,
        r.show_create_controls,
        r.username@ == username@,
        r.tabs@.len() == 3 && r.tabs@[1].active && !r.tabs@[0].active && !r.tabs@[2].active,
        is_protected_tabs(r.tabs@, "new"@),
        is_filter_options(r.filter_options@, choice.selected_filter@),
        is_sort_options(r.sort_options@, choice.selected_sort@),
        r.filter_options@.len() == 4,
        forall|i: int| 0 <= i < 4 ==> #[trigger] r.filter_options@[i].selected == (r.filter_options@[i].value@ == choice.selected_filter@),
        r.sort_options@.len() == 2,
        forall|i: int| 0 <= i < 2 ==> #[trigger] r.sort_options@[i].selected == (r.sort_options@[i].value@ == choice.selected_sort@),
        r.selected_filter@ == choice.selected_filter@,
        r.selected_sort@ == choice.selected_sort@,
        r.error_message == error_message,
        lists_posts(r.posts@, posts@),
{
    proof {
        lemma_labels_differ();
    }
    NewTemplate {
        app_name: owned(APP_NAME),
        current_tab: owned("new"),
        show_create_controls: true,
        username: owned(username),
        tabs: protected_tabs("new"),
        filter_options: filter_options(choice.selected_filter),
        sort_options: sort_options(choice.selected_sort),
        selected_filter: owned(choice.selected_filter),
        selected_sort: owned(choice.selected_sort),
        error_message,
        posts: list_items(posts),
    }
}

/// The page of the pinned posts.
pub fn pinned_page_view(username: &str, error_message: Option<String>, posts: &Vec<PostListItem>) -> (r: NewTemplate)
    ensures
        r.app_name@ == APP_NAME@,
        r.current_tab@ == "pinned"@,
        !r.show_create_controls,
        r.username@ == username@,
        r.tabs@.len() == 3 && r.tabs@[0].active && !r.tabs@[1].active && !r.tabs@[2].active,
        is_protected_tabs(r.tabs@, "pinned"@),
        is_filter_options(r.filter_options@, "all"@),
        is_sort_options(r.sort_options@, "creation_date"@),
        r.filter_options@.len() == 4,
        forall|i: int| 0 <= i < 4 ==> #[trigger] r.filter_options@[i].selected == (i == 0),
        r.sort_options@.len() == 2,
        forall|i: int| 0 <= i < 2 ==> #[trigger] r.sort_options@[i].selected == (i == 0),
        r.selected_filter@ == "all"@,
        r.selected_sort@ == "creation_date"@,
        r.error_message == error_message,
        lists_posts(r.posts@, posts@),
{
    proof {
        lemma_labels_differ();
    }
    NewTemplate {
        app_name: owned(APP_NAME),
        current_tab: owned("pinned"),
        show_create_controls: false,
        username: owned(username),
        tabs: protected_tabs("pinned"),
        filter_options: filter_options("all"),
        sort_options: sort_options("creation_date"),
        selected_filter: owned("all"),
        selected_sort: owned("creation_date"),
        error_message,
        posts: list_items(posts),
    }
}

/// The page of one post, or the failure when there is no such post.
pub fn post_detail_view(username: &str, post: Option<PostListItem>) -> (r: Result<PostDetailTemplate, AppError>)
    ensures
        post is None ==> is_bad_request(r, "post not found"@),
        post matches Some(p) ==> r matches Ok(t) && t.app_name@ == APP_NAME@ && t.username@
            == username@ && t.creation_date == p.creation_date && t.modification_date
            == p.modification_date && shows_post(t.post, p, p.title@),
{
    let post = match post {
        Some(p) => p,
        None => return Err(AppError::BadRequest(owned("post not found"))),
    };
    let title = post.title.clone();
    Ok(PostDetailTemplate {
        app_name: owned(APP_NAME),
        username: owned(username),
        creation_date: post.creation_date,
        modification_date: post.modification_date,
        post: post_item(&post, title),
    })
}

/// Reads the `pinned` value of the pin form: `1` pins, `0` unpins.
pub fn pinned_from_form(value: &str) -> (r: Result<bool, AppError>)
    ensures
        value@ == "1"@ ==> r == Ok::<bool, AppError>(true),
        value@ == "0"@ ==> r == Ok::<bool, AppError>(false),
        value@ != "1"@ && value@ != "0"@ ==> is_bad_request(r, "invalid pinned value"@),
{
    proof {
        reveal_strlit("1");
        reveal_strlit("0");
        assert("1"@[0] != "0"@[0]);
    }
    if str_eq(value, "1") {
        Ok(true)
    } else if str_eq(value, "0") {
        Ok(false)
    } else {
        Err(AppError::BadRequest(owned("invalid pinned value")))
    }
}

/// Reads the reaction of the reaction form (trimmed).
pub fn reaction_from_form(value: &str) -> (r: Result<crate::api::posts::services::ReactionValue, AppError>)
    ensures
        crate::api::posts::services::ReactionValue::spec_from_str(spec_trim(value@)) matches Some(v)
            ==> r == Ok::<crate::api::posts::services::ReactionValue, AppError>(v),
        crate::api::posts::services::ReactionValue::spec_from_str(spec_trim(value@)) is None
            ==> is_bad_request(r, "invalid reaction"@),
{
    let t = trim(value);
    match crate::api::posts::services::ReactionValue::from_str(t.as_str()) {
        Some(v) => Ok(v),
        None => Err(AppError::BadRequest(owned("invalid reaction"))),
    }
}

/// Whether a request came from script: its `x-requested-with` header (when present
/// and readable as text) is `XMLHttpRequest`, in any case of letters.
pub fn is_ajax_request(requested_with: Option<&str>) -> (r: bool)
    ensures
        r == (match requested_with {
            Some(v) => spec_ascii_lowercase(v@) == spec_ascii_lowercase("xmlhttprequest"@),
            None => false,
        }),
{
    match requested_with {
        Some(v) => eq_ignore_ascii_case(v, "xmlhttprequest"),
        None => false,
    }
}

// ---------------------------------------------------------------------------
// The form that creates a post
// ---------------------------------------------------------------------------

/// The fields of the form that creates a post, as read from the request.
pub struct ParsedCreatePost {
    pub title: String,
    pub image: Option<String>,
    pub description: String,
    pub start_date: Option<String>,
    pub end_date: Option<String>,
    pub filter: Option<String>,
    pub sort: Option<String>,
}

/// The fields of the form that the handler reads.
#[derive(Clone, Copy, PartialEq, Eq, Structural, Debug)]
pub enum FormField {
    Title,
    Description,
    StartDate,
    EndDate,
    Filter,
    Sort,
    Image,
    Ignored,
}

/// The field that a part of the form is, by its name.
pub open spec fn spec_form_field(name: Seq<char>) -> FormField {
    if name == "title"@ {
        FormField::Title
    } else if name == "description"@ {
        FormField::Description
    } else if name == "start_date"@ {
        FormField::StartDate
    } else if name == "end_date"@ {
        FormField::EndDate
    } else if name == "filter"@ {
        FormField::Filter
    } else if name == "sort"@ {
        FormField::Sort
    } else if name == "image"@ {
        FormField::Image
    } else {
        FormField::Ignored
    }
}

/// Which field a part of the form is, by its name.
pub fn form_field(name: &str) -> (r: FormField)
    ensures
        r == spec_form_field(name@),
{
    if str_eq(name, "title") {
        FormField::Title
    } else if str_eq(name, "description") {
        FormField::Description
    } else if str_eq(name, "start_date") {
        FormField::StartDate
    } else if str_eq(name, "end_date") {
        FormField::EndDate
    } else if str_eq(name, "filter") {
        FormField::Filter
    } else if str_eq(name, "sort") {
        FormField::Sort
    } else if str_eq(name, "image") {
        FormField::Image
    } else {
        FormField::Ignored
    }
}

/// The message when the content of a field cannot be read.
pub open spec fn spec_field_read_message(f: FormField) -> Seq<char> {
    match f {
        FormField::Title => "invalid title field"@,
        FormField::Description => "invalid description field"@,
        FormField::StartDate => "invalid start_date field"@,
        FormField::EndDate => "invalid end_date field"@,
        FormField::Filter => "invalid filter field"@,
        FormField::Sort => "invalid sort field"@,
        FormField::Image => "invalid image upload"@,
        FormField::Ignored => "invalid multipart payload"@,
    }
}

/// The failure when the content of a field (or, for `Ignored`, the next part of the
/// form) cannot be read.
pub fn field_read_error(f: FormField) -> (r: AppError)
    ensures
        r matches AppError::BadRequest(m) && m@ == spec_field_read_message(f),
{
    let m = match f {
        FormField::Title => owned("invalid title field"),
        FormField::Description => owned("invalid description field"),
        FormField::StartDate => owned("invalid start_date field"),
        FormField::EndDate => owned("invalid end_date field"),
        FormField::Filter => owned("invalid filter field"),
        FormField::Sort => owned("invalid sort field"),
        FormField::Image => owned("invalid image upload"),
        FormField::Ignored => owned("invalid multipart payload"),
    };
    AppError::BadRequest(m)
}

/// The fields of the form read so far.
pub struct CreatePostFields {
    pub title: Option<String>,
    pub image: Option<String>,
    pub description: Option<String>,
    pub start_date: Option<String>,
    pub end_date: Option<String>,
    pub filter: Option<String>,
    pub sort: Option<String>,
}

impl CreatePostFields {
    /// No field read yet.
    pub fn new() -> (r: Self)
        ensures
            r.title is None && r.image is None && r.description is None && r.start_date is None
                && r.end_date is None && r.filter is None && r.sort is None,
    {
        CreatePostFields {
            title: None,
            image: None,
            description: None,
            start_date: None,
            end_date: None,
            filter: None,
            sort: None,
        }
    }

    /// Records the text of a field; a later part with the same name replaces an
    /// earlier one. The image and ignored parts hold no text and change nothing.
    pub fn set_text(&mut self, f: FormField, text: String)
        ensures
            final(self).title == (if f == FormField::Title { Some(text) } else { old(self).title }),
            final(self).description == (if f == FormField::Description {
                Some(text)
            } else {
                old(self).description
            }),
            final(self).start_date == (if f == FormField::StartDate {
                Some(text)
            } else {
                old(self).start_date
            }),
            final(self).end_date == (if f == FormField::EndDate {
                Some(text)
            } else {
                old(self).end_date
            }),
            final(self).filter == (if f == FormField::Filter { Some(text) } else { old(self).filter }),
            final(self).sort == (if f == FormField::Sort { Some(text) } else { old(self).sort }),
            final(self).image == old(self).image,
    {
        match f {
            FormField::Title => self.title = Some(text),
            FormField::Description => self.description = Some(text),
            FormField::StartDate => self.start_date = Some(text),
            FormField::EndDate => self.end_date = Some(text),
            FormField::Filter => self.filter = Some(text),
            FormField::Sort => self.sort = Some(text),
            _ => {},
        }
    }

    /// Records the address of a saved image.
    pub fn set_image(&mut self, url: String)
        ensures
            final(self).image == Some(url),
            final(self).title == old(self).title,
            final(self).description == old(self).description,
            final(self).start_date == old(self).start_date,
            final(self).end_date == old(self).end_date,
            final(self).filter == old(self).filter,
            final(self).sort == old(self).sort,
    {
        self.image = Some(url);
    }

    /// The form once every part is read: the title and the description are required.
    pub fn finish(self) -> (r: Result<ParsedCreatePost, AppError>)
        ensures
            self.title is None ==> is_bad_request(r, "missing title"@),
            self.title is Some && self.description is None ==> is_bad_request(
                r,
                "missing description"@,
            ),
            (self.title is Some && self.description is Some) ==> (r matches Ok(p)
                && Some(p.title) == self.title && Some(p.description) == self.description && p.image == self.image && p.start_date
                == self.start_date && p.end_date == self.end_date && p.filter == self.filter
                && p.sort == self.sort),
    {
        let title = match self.title {
            Some(t) => t,
            None => return Err(AppError::BadRequest(owned("missing title"))),
        };
        let description = match self.description {
            Some(d) => d,
            None => return Err(AppError::BadRequest(owned("missing description"))),
        };
        Ok(ParsedCreatePost {
            title,
            image: self.image,
            description,
            start_date: self.start_date,
            end_date: self.end_date,
            filter: self.filter,
            sort: self.sort,
        })
    }
}

/// The largest image accepted, in bytes (5 MiB).
pub const MAX_IMAGE_BYTES: usize = 5242880;

/// How an uploaded image part is judged, in the order of the checks: an empty part is
/// skipped; a declared type must be an accepted image type; the size is limited; the
/// bytes must show a known format, whose extension is given.
pub open spec fn spec_image_upload(content_type: Seq<char>, bytes: Seq<u8>) -> Result<Option<Seq<char>>, Seq<char>> {
    if bytes.len() == 0 {
        Ok(None)
    } else if content_type.len() > 0 && !spec_allowed_image_type(content_type) {
        Err("unsupported image content type"@)
    } else if bytes.len() > MAX_IMAGE_BYTES {
        Err("image must be at most 5MB"@)
    } else {
        match spec_image_extension(bytes) {
            Some(e) => Ok(Some(e)),
            None => Err("unsupported image format; allowed: jpg, png, webp, gif"@),
        }
    }
}

/// Judges an uploaded image part.
pub fn check_image_upload(content_type: &str, bytes: &[u8]) -> (r: Result<Option<&'static str>, AppError>)
    ensures
        match spec_image_upload(content_type@, bytes@) {
            Ok(None) => r matches Ok(None),
            Ok(Some(e)) => r matches Ok(Some(x)) && x@ == e,
            Err(m) => is_bad_request(r, m),
        },
{
    if bytes.len() == 0 {
        return Ok(None);
    }
    if !content_type.is_empty() && !is_allowed_image_content_type(content_type) {
        return Err(AppError::BadRequest(owned("unsupported image content type")));
    }
    if bytes.len() > MAX_IMAGE_BYTES {
        return Err(AppError::BadRequest(owned("image must be at most 5MB")));
    }
    match detect_image_extension(bytes) {
        Some(e) => Ok(Some(e)),
        None => Err(
            AppError::BadRequest(owned("unsupported image format; allowed: jpg, png, webp, gif")),
        ),
    }
}

/// Draws 16 bytes from the thread's generator (`rand::thread_rng`,
/// `RngCore::fill_bytes`). Only the length is claimed.
#[verifier::external_body]
fn thread_random_16() -> (r: Vec<u8>)
    ensures
        r@.len() == 16,
{
    let mut bytes = [0u8; 16];
    rand::thread_rng().fill_bytes(&mut bytes);
    bytes.to_vec()
}

/// Where a new upload is written and the address it is served at.
pub struct UploadPaths {
    pub file_path: String,
    pub url: String,
}

/// The paths of an upload named `name` with the extension `ext`.
pub open spec fn spec_upload_paths(name: Seq<char>, ext: Seq<char>, p: UploadPaths) -> bool {
    &&& p.file_path@ == "uploads/"@ + name + "."@ + ext
    &&& p.url@ == "/uploads/"@ + name + "."@ + ext
}

/// Names a new upload with 32 random hexadecimal digits and the extension `extension`.
pub fn upload_paths(extension: &str) -> (r: UploadPaths)
    ensures
        exists|b: Seq<u8>| b.len() == 16 && spec_upload_paths(hex_lower(b), extension@, r),
{
    let random_bytes = thread_random_16();
    let filename = to_hex_lower(random_bytes.as_slice());
    let mut file_path = owned("uploads/");
    file_path.append(filename.as_str());
    file_path.append(".");
    file_path.append(extension);
    let mut url = owned("/uploads/");
    url.append(filename.as_str());
    url.append(".");
    url.append(extension);
    let r = UploadPaths { file_path, url };
    assert(spec_upload_paths(hex_lower(random_bytes@), extension@, r));
    r
}

/// What the form asks to create, and the list to return to.
pub struct NewPostSubmission {
    pub input: CreatePostInput,
    pub filter: Option<String>,
    pub sort: Option<String>,
}

/// The post that the form asks `user` to create: the title and description
/// trimmed, the optional fields trimmed and dropped when empty.
pub fn create_post_submission(form: ParsedCreatePost, user: &AuthUser) -> (r: NewPostSubmission)
    ensures
        r.input.title@ == spec_trim(form.title@),
        opt_string_view(r.input.image) == spec_optional_trimmed(opt_string_view(form.image)),
        r.input.description@ == spec_trim(form.description@),
        r.input.author_id == user.id,
        r.input.author_name@ == user.username@,
        opt_string_view(r.input.start_date) == spec_optional_trimmed(
            opt_string_view(form.start_date),
        ),
        opt_string_view(r.input.end_date) == spec_optional_trimmed(opt_string_view(form.end_date)),
        r.filter == form.filter,
        r.sort == form.sort,
{
    let input = CreatePostInput {
        title: trim(form.title.as_str()),
        image: optional_trimmed(form.image),
        description: trim(form.description.as_str()),
        author_id: user.id,
        author_name: user.username.clone(),
        start_date: optional_trimmed(form.start_date),
        end_date: optional_trimmed(form.end_date),
    };
    NewPostSubmission { input, filter: form.filter, sort: form.sort }
}

/// What the page does after an attempt to create a post.
pub enum AfterCreate {
    /// Go to this address.
    Redirect(String),
    /// Show the form again with this message.
    ShowForm(String),
    /// Fail with this error.
    Fail(AppError),
}

/// After creating a post: go back to the list on success, show the form again with
/// the message of a rejected request, fail otherwise.
pub fn after_create_post(result: Result<(), AppError>, filter: Option<&str>, sort: Option<&str>) -> (r: AfterCreate)
    ensures
        result is Ok ==> (r matches AfterCreate::Redirect(t) && t@ == list_target(
            opt_view(filter),
            opt_view(sort),
        )),
        result matches Err(AppError::BadRequest(m)) ==> (r matches AfterCreate::ShowForm(x) && x
            == m),
        (result matches Err(e) && !(e is BadRequest)) ==> (r matches AfterCreate::Fail(x) && x
            == result->Err_0),
{
    match result {
        Ok(()) => AfterCreate::Redirect(list_address(filter, sort)),
        Err(AppError::BadRequest(message)) => AfterCreate::ShowForm(message),
        Err(error) => AfterCreate::Fail(error),
    }
}

// ---------------------------------------------------------------------------
// Laws of the list page
// ---------------------------------------------------------------------------

/// Normalising the filter value of the page does not change which posts are listed.
pub proof fn law_filter_normalization_keeps_listing(value: Option<Seq<char>>)
    ensures
        PostFilter::spec_from_query(Some(spec_normalize_filter(value))) == PostFilter::spec_from_query(
            value,
        ),
{
    lemma_labels_differ();
}

/// Normalising the sort value of the page does not change the order of the list.
pub proof fn law_sort_normalization_keeps_order(value: Option<Seq<char>>)
    ensures
        PostSort::spec_from_query(Some(spec_normalize_sort(value))) == PostSort::spec_from_query(
            value,
        ),
{
    lemma_labels_differ();
}

/// The value kept by the page is always one of the options of its select box, so
/// exactly one option is selected.
pub proof fn law_one_filter_option_selected(value: Option<Seq<char>>)
    ensures
        ({
            let f = spec_normalize_filter(value);
            f == "all"@ || f == "reacted"@ || f == "not-reacted"@ || f == "futurs"@
        }),
        ({
            let s = spec_normalize_sort(value);
            s == "creation_date"@ || s == "start_date"@
        }),
{
}

/// Trimming an optional value twice is trimming it once, and never keeps a blank.
pub proof fn law_optional_trimmed_idempotent(value: Option<Seq<char>>)
    ensures
        spec_optional_trimmed(spec_optional_trimmed(value)) == spec_optional_trimmed(value),
        spec_optional_trimmed(value) matches Some(t) ==> t.len() > 0,
{
    if let Some(v) = value {
        crate::text::lemma_trim_idempotent(v);
    }
}

/// The four image types JPEG, PNG, WebP and GIF are accepted; and a non-empty upload
/// of at most 5MB whose bytes show a known format is accepted with that format's
/// extension, whether it declares no type or the type of that format.
pub proof fn law_matching_image_accepted(content_type: Seq<char>, bytes: Seq<u8>)
    ensures
        spec_allowed_image_type("image/jpeg"@),
        spec_allowed_image_type("image/png"@),
        spec_allowed_image_type("image/webp"@),
        spec_allowed_image_type("image/gif"@),
        spec_image_extension(bytes) matches Some(e) ==> (0 < bytes.len() <= MAX_IMAGE_BYTES && (
        content_type.len() == 0 || content_type == declared_type_of(e)) ==> spec_image_upload(
            content_type,
            bytes,
        ) == Ok::<Option<Seq<char>>, Seq<char>>(Some(e))),
{
    reveal_strlit("image/");
    reveal_strlit("image/jpeg");
    reveal_strlit("image/png");
    reveal_strlit("image/webp");
    reveal_strlit("image/gif");
    reveal_strlit("jpg");
    reveal_strlit("png");
    reveal_strlit("webp");
    reveal_strlit("gif");
    assert("image/"@ + "png"@ =~= "image/png"@);
    assert("image/"@ + "webp"@ =~= "image/webp"@);
    assert("image/"@ + "gif"@ =~= "image/gif"@);
}

} // verus!
