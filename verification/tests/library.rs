use s3nav::app::{starts_in_selector, Action, App, KeyPage, PickerTarget, TransferFailure};
use s3nav::config::{self, Config, ConfigFile, SaveFailure, SavedProfile};
use s3nav::download::{DownloadStep, FileFailure, PrefixDownload};
use s3nav::form::ConfigForm;
use s3nav::model::{Key, KeyCode, View};
use s3nav::order::{stable_sort_positions, SortKey};
use s3nav::picker::{arrange_picker, DirItem};
use s3nav::display::{display_timestamp, is_success_message, line_number_label};
use s3nav::size::format_size;
use s3nav::s3::{
    has_connection_flags, is_text_file, is_text_name, last_piece_str, push_page_entries,
    relative_key, sort_entries, Args, ConnectionParams, ObjectPage, RawObject, S3Entry,
};
use s3nav::text::{
    decimal_string, join_lines, lines_of, split_once_str, split_str, strip_prefix_str, trim_end_matches,
    trim_matches, trim_str,
};

fn key(c: char) -> Key {
    Key { code: KeyCode::Char(c), ctrl: false, alt: false }
}

fn code(k: KeyCode) -> Key {
    Key { code: k, ctrl: false, alt: false }
}

fn ctrl(c: char) -> Key {
    Key { code: KeyCode::Char(c), ctrl: true, alt: false }
}

fn profile(name: &str, bucket: Option<&str>) -> SavedProfile {
    SavedProfile {
        name: name.into(),
        profile: Some(format!("{name}-acct")),
        region: Some("eu-west-1".into()),
        endpoint_url: None,
        bucket: bucket.map(String::from),
    }
}

fn no_conn() -> ConnectionParams {
    ConnectionParams { profile: None, region: None, endpoint_url: None }
}

fn entry(name: &str, is_dir: bool) -> S3Entry {
    S3Entry {
        name: name.into(),
        is_dir,
        size: 0,
        last_modified: None,
        storage_class: None,
        e_tag: None,
    }
}

fn object(key: &str, size: i64) -> RawObject {
    RawObject {
        key: Some(key.into()),
        size: Some(size),
        last_modified: Some("2024-01-15T10:30:00Z".into()),
        storage_class: Some("STANDARD".into()),
        e_tag: Some("\"abc123\"".into()),
    }
}

fn page(prefixes: &[&str], objects: Vec<RawObject>, truncated: Option<bool>, token: Option<&str>) -> ObjectPage {
    ObjectPage {
        common_prefixes: prefixes.iter().map(|p| Some(p.to_string())).collect(),
        objects,
        is_truncated: truncated,
        next_token: token.map(String::from),
    }
}

/// A browser on the object list of `bucket` at its root, showing `entries`.
fn browsing(entries: Vec<S3Entry>) -> App {
    let mut app = App::new(no_conn(), Some("bucket".into()), Vec::new());
    app.begin();
    let a = app.start();
    assert!(matches!(a, Action::ListObjects { .. }));
    let names: Vec<RawObject> = Vec::new();
    app.on_objects_page(Ok(page(&[], names, None, None)));
    app.entries = entries;
    app.selected = Some(0);
    app
}

// ---------------------------------------------------------------------------
// Text.

#[test]
fn trim_removes_unicode_whitespace() {
    assert_eq!(trim_str(" \t\u{a0}prod\u{3000}\n"), "prod");
    assert_eq!(trim_str("   "), "");
    assert_eq!(trim_str("a b"), "a b");
}

#[test]
fn trim_matches_and_trim_end_matches() {
    assert_eq!(trim_matches("//a/b//", '/'), "a/b");
    assert_eq!(trim_end_matches("a/b//", '/'), "a/b");
    assert_eq!(trim_end_matches("///", '/'), "");
    assert_eq!(trim_matches("\"etag\"", '"'), "etag");
}

#[test]
fn strip_prefix_and_split_once() {
    assert_eq!(strip_prefix_str("foo/bar", "foo/").as_deref(), Some("bar"));
    assert_eq!(strip_prefix_str("foo", "foo/"), None);
    assert_eq!(
        split_once_str("bucket/a/b", '/'),
        Some(("bucket".to_string(), "a/b".to_string()))
    );
    assert_eq!(split_once_str("bucket", '/'), None);
    assert_eq!(split_str("a//b", '/'), vec!["a", "", "b"]);
}

#[test]
fn lines_match_str_lines() {
    for s in ["", "a", "a\n", "a\r\nb", "a\n\nb\n", "x\r", "\n", "a\rb\n"] {
        let expected: Vec<String> = s.lines().map(String::from).collect();
        assert_eq!(lines_of(s), expected, "input {s:?}");
    }
}

#[test]
fn join_lines_with_line_feeds() {
    assert_eq!(join_lines(&vec!["a".into(), "".into(), "b".into()]), "a\n\nb");
    assert_eq!(join_lines(&vec![]), "");
    assert_eq!(join_lines(&vec!["only".into()]), "only");
}

#[test]
fn decimal_strings() {
    assert_eq!(decimal_string(0), "0");
    assert_eq!(decimal_string(7), "7");
    assert_eq!(decimal_string(1024), "1024");
    assert_eq!(decimal_string(4294967295), "4294967295");
    assert_eq!(decimal_string(u64::MAX), "18446744073709551615");
}

// ---------------------------------------------------------------------------
// Configuration file.

#[test]
fn load_missing_file_is_empty() {
    let c = config::load(ConfigFile::Missing).unwrap();
    assert!(c.profiles.is_empty());
}

#[test]
fn load_reports_read_and_parse_failures() {
    assert_eq!(
        config::load(ConfigFile::ReadFailed("denied".into())).unwrap_err(),
        "Failed to read config: denied"
    );
    assert_eq!(
        config::load(ConfigFile::Parsed(Err("bad toml".into()))).unwrap_err(),
        "Failed to parse config: bad toml"
    );
    let c = Config { profiles: vec![profile("a", None)] };
    assert_eq!(config::load(ConfigFile::Parsed(Ok(c.clone()))).unwrap(), c);
}

#[test]
fn save_reports_the_failed_step() {
    assert_eq!(config::save(Ok(())), Ok(()));
    assert_eq!(
        config::save(Err(SaveFailure::CreateDir("x".into()))),
        Err("Failed to create config dir: x".to_string())
    );
    assert_eq!(
        config::save(Err(SaveFailure::Serialize("y".into()))),
        Err("Failed to serialize config: y".to_string())
    );
    assert_eq!(
        config::save(Err(SaveFailure::Write("z".into()))),
        Err("Failed to write config: z".to_string())
    );
}

#[test]
fn upsert_replaces_by_name_or_appends() {
    let list = vec![profile("a", None), profile("b", None)];
    let mut b2 = profile("b", Some("bkt"));
    b2.region = None;
    let r = config::upsert_profile(&list, None, &b2);
    assert_eq!(r, vec![profile("a", None), b2.clone()]);
    let c = profile("c", None);
    let r = config::upsert_profile(&list, None, &c);
    assert_eq!(r.len(), 3);
    assert_eq!(r[2], c);
    // An edit index out of range behaves like a new profile.
    let r = config::upsert_profile(&list, Some(9), &c);
    assert_eq!(r.len(), 3);
}

#[test]
fn upsert_edit_renames_in_place() {
    let list = vec![profile("a", None), profile("b", None)];
    let renamed = profile("z", None);
    let r = config::upsert_profile(&list, Some(0), &renamed);
    assert_eq!(r, vec![renamed, profile("b", None)]);
    assert_eq!(config::position_by_name(&r, "b"), Some(1));
    assert_eq!(config::position_by_name(&r, "a"), None);
}

// ---------------------------------------------------------------------------
// Form.

#[test]
fn form_fields_wrap_both_ways() {
    let mut f = ConfigForm::default();
    for expected in [1, 2, 3, 4, 0] {
        f.next_field();
        assert_eq!(f.field, expected);
    }
    f.prev_field();
    assert_eq!(f.field, 4);
    f.next_field();
    assert_eq!(f.field, 0);
}

#[test]
fn form_active_buffer_follows_field() {
    let mut f = ConfigForm::default();
    f.field = 2;
    f.active_buf().push_str("us-east-1");
    assert_eq!(f.region, "us-east-1");
    f.field = 9;
    f.active_buf().push('b');
    assert_eq!(f.bucket, "b");
    f.clear();
    assert_eq!(f.region, "");
    assert_eq!(f.bucket, "");
    assert_eq!(f.field, 0);
}

#[test]
fn form_from_session_builds_bucket_field() {
    let conn = ConnectionParams { profile: Some("dev".into()), region: None, endpoint_url: Some("http://e".into()) };
    let f = ConfigForm::from_session(&conn, "bkt", "a/b/");
    assert_eq!(f.bucket, "bkt/a/b");
    assert_eq!(f.profile, "dev");
    assert_eq!(f.region, "");
    assert_eq!(f.endpoint_url, "http://e");
    assert_eq!(f.name, "");
    assert_eq!(ConfigForm::from_session(&conn, "bkt", "").bucket, "bkt");
    assert_eq!(ConfigForm::from_session(&conn, "", "a/").bucket, "");
}

// ---------------------------------------------------------------------------
// S3 helpers.

#[test]
fn summary_mixes_values_and_defaults() {
    let c = ConnectionParams { profile: None, region: Some("us-east-1".into()), endpoint_url: None };
    assert_eq!(c.summary(), "AWS · us-east-1 · default");
}

#[test]
fn connection_flags_any_of_four() {
    assert!(!has_connection_flags(&Args::default()));
    let a = Args { bucket: Some("b".into()), ..Args::default() };
    assert!(has_connection_flags(&a));
}

#[test]
fn text_files_by_extension_or_name() {
    assert!(is_text_file("notes.md"));
    assert!(is_text_file("CONFIG.JSON"));
    assert!(is_text_file("dir/Dockerfile"));
    assert!(is_text_file("README"));
    assert!(is_text_file("txt"));
    assert!(!is_text_file("photo.png"));
    assert!(!is_text_file("archive.tar.gz"));
    assert!(!is_text_file("a.json/binary"));
    assert!(is_text_name("x.yaml"));
    assert!(!is_text_name("x.YAML"));
    assert_eq!(last_piece_str("a.b.c", '.'), "c");
    assert_eq!(last_piece_str("abc", '.'), "abc");
}

#[test]
fn page_entries_strip_prefix_and_skip_markers() {
    let mut out = Vec::new();
    let p = page(
        &["photos/2024/", "photos/"],
        vec![object("photos/", 0), object("photos/a.txt", 5), object("photos/sub/", 0)],
        None,
        None,
    );
    push_page_entries(&mut out, "photos/", &p);
    assert_eq!(out.len(), 2);
    assert_eq!(out[0].name, "2024");
    assert!(out[0].is_dir);
    assert_eq!(out[1].name, "a.txt");
    assert_eq!(out[1].size, 5);
    assert_eq!(out[1].e_tag.as_deref(), Some("abc123"));
    assert_eq!(out[1].storage_class.as_deref(), Some("STANDARD"));
    let mut missing_size = object("photos/b.txt", 0);
    missing_size.size = None;
    let mut out2 = Vec::new();
    push_page_entries(&mut out2, "photos/", &page(&[], vec![missing_size], None, None));
    assert_eq!(out2[0].size, 0);
}

#[test]
fn listing_sorts_folders_first_then_by_name() {
    let v = vec![entry("b.txt", false), entry("zeta", true), entry("A.txt", false), entry("alpha", true)];
    let names: Vec<String> = sort_entries(&v).into_iter().map(|e| e.name).collect();
    assert_eq!(names, vec!["alpha", "zeta", "A.txt", "b.txt"]);
}

#[test]
fn stable_sort_keeps_equal_keys_in_order() {
    let k = |first: bool, s: &str| SortKey { first, name: s.chars().collect() };
    let keys = vec![k(false, "b"), k(true, "x"), k(false, "a"), k(false, "b"), k(true, "a")];
    assert_eq!(stable_sort_positions(&keys), vec![4, 1, 2, 0, 3]);
}

#[test]
fn picker_hides_dotfiles_and_sorts_case_insensitively() {
    let item = |name: &str, is_dir: bool, is_file: bool| DirItem { name: name.into(), is_dir, is_file, size: 1 };
    let items = vec![
        item("b.txt", false, true),
        item(".hidden", false, true),
        item("Zdir", true, false),
        item("A.txt", false, true),
        item("socket", false, false),
        item("adir", true, false),
    ];
    let names: Vec<String> = arrange_picker(&items, false).into_iter().map(|e| e.name).collect();
    assert_eq!(names, vec!["adir", "Zdir", "A.txt", "b.txt"]);
    let all: Vec<String> = arrange_picker(&items, true).into_iter().map(|e| e.name).collect();
    assert_eq!(all, vec!["adir", "Zdir", ".hidden", "A.txt", "b.txt"]);
}

// ---------------------------------------------------------------------------
// The browser.

#[test]
fn startup_lists_buckets_then_opens_one() {
    let mut app = App::new(no_conn(), None, Vec::new());
    app.begin();
    assert!(app.loading);
    assert!(matches!(app.start(), Action::ListBuckets));
    let a = app.on_buckets_listed(Ok(vec![Some("one".into()), None, Some("two".into())]));
    assert!(matches!(a, Action::Nothing));
    assert_eq!(app.buckets, vec!["one", "two"]);
    assert_eq!(app.selected, Some(0));
    assert!(!app.loading);
    app.on_key(key('j'));
    assert_eq!(app.selected, Some(1));
    match app.on_key(code(KeyCode::Enter)) {
        Action::ListObjects { bucket, prefix, token } => {
            assert_eq!(bucket, "two");
            assert_eq!(prefix, None);
            assert_eq!(token, None);
        }
        _ => panic!("expected a listing"),
    }
    // The object list is shown once the listing ends.
    assert_eq!(app.view, View::Buckets);
    app.on_objects_page(Ok(page(&["docs/"], vec![object("a.txt", 1)], None, None)));
    assert_eq!(app.view, View::Objects);
    assert_eq!(app.entries.len(), 2);
    assert_eq!(app.current_prefix(), "");
    assert_eq!(app.item_count(), 2);
}

#[test]
fn startup_with_bucket_argument_opens_prefix() {
    let mut app = App::new(no_conn(), Some("my-bucket//some/prefix/".into()), Vec::new());
    app.begin();
    match app.start() {
        Action::ListObjects { bucket, prefix, .. } => {
            assert_eq!(bucket, "my-bucket");
            assert_eq!(prefix.as_deref(), Some("some/prefix/"));
        }
        _ => panic!("expected a listing"),
    }
    assert_eq!(app.view, View::Objects);
    assert_eq!(app.initial_bucket, None);
    assert_eq!(app.prefix_stack, vec!["", "some/prefix/"]);
}

#[test]
fn startup_in_selector_lists_nothing() {
    let configs = vec![profile("prod", Some("my-bucket/data"))];
    assert!(starts_in_selector(&Args::default(), &configs));
    assert!(!starts_in_selector(&Args { region: Some("r".into()), ..Args::default() }, &configs));
    assert!(!starts_in_selector(&Args::default(), &Vec::new()));
    let mut app = App::new(no_conn(), None, configs);
    app.view = View::ConfigSelector;
    app.begin();
    assert!(matches!(app.start(), Action::Nothing));
    assert!(!app.loading);
    assert_eq!(app.selected, Some(0));
    // Enter connects with the profile and opens its bucket and prefix.
    match app.on_key(code(KeyCode::Enter)) {
        Action::Connect(c) => {
            assert_eq!(c.profile.as_deref(), Some("prod-acct"));
            assert_eq!(c.region.as_deref(), Some("eu-west-1"));
        }
        _ => panic!("expected a connection"),
    }
    assert_eq!(app.view, View::Objects);
    match app.on_connected() {
        Action::ListObjects { bucket, prefix, .. } => {
            assert_eq!(bucket, "my-bucket");
            assert_eq!(prefix.as_deref(), Some("data/"));
        }
        _ => panic!("expected a listing"),
    }
}

#[test]
fn listing_follows_pages_and_reports_failures() {
    let mut app = browsing(vec![]);
    match app.on_key(key('r')) {
        Action::ListObjects { token: None, .. } => {}
        _ => panic!("expected the first page"),
    }
    match app.on_objects_page(Ok(page(&[], vec![object("z.txt", 1)], Some(true), Some("t1")))) {
        Action::ListObjects { token, .. } => assert_eq!(token.as_deref(), Some("t1")),
        _ => panic!("expected the next page"),
    }
    assert!(app.loading);
    assert!(matches!(
        app.on_objects_page(Ok(page(&["d/"], vec![object("a.txt", 1)], Some(false), None))),
        Action::Nothing
    ));
    let names: Vec<&str> = app.entries.iter().map(|e| e.name.as_str()).collect();
    assert_eq!(names, vec!["d", "a.txt", "z.txt"]);
    app.on_key(key('r'));
    app.on_objects_page(Err("timeout".into()));
    assert_eq!(app.error.as_deref(), Some("Failed to list objects: timeout"));
    assert!(app.entries.is_empty());
    assert_eq!(app.selected, None);
    // An outcome nobody waits for changes nothing.
    assert!(matches!(app.on_buckets_listed(Ok(vec![Some("x".into())])), Action::Nothing));
    assert!(app.buckets.is_empty());
}

#[test]
fn bucket_listing_failure_is_shown() {
    let mut app = App::new(no_conn(), None, Vec::new());
    app.begin();
    app.start();
    app.on_buckets_listed(Err("no credentials".into()));
    assert_eq!(app.error.as_deref(), Some("Failed to list buckets: no credentials"));
    assert!(!app.loading);
}

#[test]
fn open_folder_then_go_back() {
    let mut app = browsing(vec![entry("docs", true), entry("a.txt", false)]);
    match app.on_key(key('l')) {
        Action::ListObjects { prefix, .. } => assert_eq!(prefix.as_deref(), Some("docs/")),
        _ => panic!("expected a listing"),
    }
    app.on_objects_page(Ok(page(&[], vec![object("docs/x.md", 3)], None, None)));
    assert_eq!(app.current_prefix(), "docs/");
    assert_eq!(app.entries[0].name, "x.md");
    match app.on_key(key('h')) {
        Action::ListObjects { prefix, .. } => assert_eq!(prefix, None),
        _ => panic!("expected a listing"),
    }
    assert_eq!(app.prefix_stack, vec![""]);
    app.on_objects_page(Ok(page(&[], vec![], None, None)));
    // From the bucket root, going back shows the bucket list (listing it when empty).
    assert!(matches!(app.on_key(code(KeyCode::Backspace)), Action::ListBuckets));
    assert_eq!(app.view, View::Buckets);
    assert!(app.entries.is_empty());
}

#[test]
fn quit_from_lists() {
    let mut app = browsing(vec![]);
    app.error = Some("old".into());
    app.on_key(key('q'));
    assert!(app.should_exit);
    assert_eq!(app.error, None);
}

#[test]
fn esc_goes_up_then_asks_to_quit() {
    let mut app = browsing(vec![entry("docs", true)]);
    app.on_key(key('l'));
    app.on_objects_page(Ok(page(&[], vec![object("docs/x.md", 3)], None, None)));
    assert_eq!(app.current_prefix(), "docs/");
    // Inside a folder, Esc goes up one level.
    match app.on_key(code(KeyCode::Esc)) {
        Action::ListObjects { prefix, .. } => assert_eq!(prefix, None),
        _ => panic!("expected a listing"),
    }
    assert_eq!(app.prefix_stack, vec![""]);
    app.on_objects_page(Ok(page(&[], vec![], None, None)));
    // At the bucket root it asks first; any key but `y` cancels.
    assert!(matches!(app.on_key(code(KeyCode::Esc)), Action::Nothing));
    assert!(app.quit_pending);
    assert!(!app.should_exit);
    assert_eq!(app.view, View::Objects);
    app.on_key(key('n'));
    assert!(!app.quit_pending);
    assert!(!app.should_exit);
    assert_eq!(app.view, View::Objects);
    app.on_key(code(KeyCode::Esc));
    app.on_key(key('y'));
    assert!(app.should_exit);
}

#[test]
fn esc_on_bucket_list_quits() {
    let mut app = App::new(no_conn(), None, Vec::new());
    app.begin();
    app.start();
    app.on_buckets_listed(Ok(vec![Some("b".into())]));
    app.on_key(code(KeyCode::Esc));
    assert!(!app.quit_pending);
    assert!(app.should_exit);
}

#[test]
fn esc_at_bucket_root_confirms_with_capital_y() {
    let mut app = browsing(vec![]);
    app.on_key(code(KeyCode::Esc));
    assert!(app.quit_pending);
    app.on_key(key('Y'));
    assert!(app.should_exit);
}

#[test]
fn config_form_caret_editing() {
    let mut app = App::new(no_conn(), None, vec![profile("prod", None)]);
    app.view = View::ConfigSelector;
    app.selected = Some(0);
    app.on_key(key('e'));
    // The caret starts at the end of the name.
    app.on_key(key('1'));
    assert_eq!(app.config_form.name, "prod1");
    app.on_key(code(KeyCode::Left));
    app.on_key(code(KeyCode::Left));
    app.on_key(key('-'));
    assert_eq!(app.config_form.name, "pro-d1");
    app.on_key(code(KeyCode::Delete));
    assert_eq!(app.config_form.name, "pro-1");
    app.on_key(code(KeyCode::Backspace));
    assert_eq!(app.config_form.name, "pro1");
    app.on_key(code(KeyCode::Home));
    app.on_key(code(KeyCode::Backspace));
    assert_eq!(app.config_form.name, "pro1");
    app.on_key(key('x'));
    assert_eq!(app.config_form.name, "xpro1");
    app.on_key(code(KeyCode::Delete));
    assert_eq!(app.config_form.name, "xro1");
    app.on_key(code(KeyCode::End));
    app.on_key(code(KeyCode::Delete));
    assert_eq!(app.config_form.name, "xro1");
    app.on_key(key('!'));
    assert_eq!(app.config_form.name, "xro1!");
    // Moving to another field puts the caret at its end.
    app.on_key(code(KeyCode::Left));
    app.on_key(code(KeyCode::Tab));
    app.on_key(key('X'));
    assert_eq!(app.config_form.profile, "prod-acctX");
    app.on_key(code(KeyCode::Up));
    app.on_key(key('?'));
    assert_eq!(app.config_form.name, "xro1!?");
}

#[test]
fn config_form_caret_methods() {
    let mut form = ConfigForm::default();
    for c in "ab".chars() {
        form.insert_char(c);
    }
    form.move_home();
    assert_eq!(form.after_caret, 2);
    form.move_left();
    assert_eq!(form.after_caret, 2);
    form.move_right();
    form.insert_char('Z');
    assert_eq!(form.name, "aZb");
    form.move_end();
    form.move_right();
    assert_eq!(form.after_caret, 0);
    form.delete_before();
    assert_eq!(form.name, "aZ");
    // A caret count past the field's length stands at its start.
    form.after_caret = 99;
    form.insert_char('>');
    assert_eq!(form.name, ">aZ");
    assert_eq!(form.after_caret, 2);
    form.after_caret = 99;
    form.delete_at();
    assert_eq!(form.name, "aZ");
}

#[test]
fn list_selection_moves_and_saturates() {
    let mut app = browsing(vec![entry("a", false), entry("b", false)]);
    app.selected = None;
    app.on_key(code(KeyCode::Up));
    assert_eq!(app.selected, Some(usize::MAX));
    app.on_key(key('j'));
    assert_eq!(app.selected, Some(usize::MAX));
    app.on_key(key('g'));
    assert_eq!(app.selected, Some(0));
    app.on_key(key('k'));
    assert_eq!(app.selected, Some(0));
    app.on_key(key('G'));
    assert_eq!(app.selected, Some(usize::MAX));
    let mut empty = browsing(vec![]);
    empty.selected = None;
    empty.on_key(key('j'));
    assert_eq!(empty.selected, None);
}

#[test]
fn preview_edit_and_save() {
    let mut app = browsing(vec![entry("notes.md", false)]);
    match app.on_key(code(KeyCode::Enter)) {
        Action::GetObject { bucket, key } => {
            assert_eq!(bucket, "bucket");
            assert_eq!(key, "notes.md");
        }
        _ => panic!("expected a fetch"),
    }
    app.on_object_fetched(Ok(b"one\r\ntwo\xff".to_vec()));
    assert_eq!(app.view, View::FilePreview);
    assert_eq!(app.preview_content, "one\r\ntwo\u{fffd}");
    assert_eq!(app.preview_name, "notes.md");
    app.on_key(key('d'));
    app.on_key(key('j'));
    assert_eq!(app.preview_scroll, 21);
    app.on_key(code(KeyCode::PageUp));
    app.on_key(key('k'));
    assert_eq!(app.preview_scroll, 0);
    match app.on_key(key('e')) {
        Action::OpenEditor(lines) => assert_eq!(lines, vec!["one", "two\u{fffd}"]),
        _ => panic!("expected the editor"),
    }
    assert_eq!(app.view, View::FileEdit);
    assert!(matches!(app.on_key(key('x')), Action::EditorInput));
    assert!(app.editor_modified);
    assert!(matches!(app.on_key(ctrl('s')), Action::SubmitEditor));
    match app.on_editor_lines(vec!["one".into(), "2".into()]) {
        Action::PutObject { key, content, .. } => {
            assert_eq!(key, "notes.md");
            assert_eq!(content, "one\n2");
        }
        _ => panic!("expected a write"),
    }
    assert!(matches!(app.on_object_put(Ok(())), Action::ListObjects { .. }));
    assert_eq!(app.error.as_deref(), Some("Saved notes.md"));
    assert_eq!(app.preview_content, "one\n2");
    assert!(!app.editor_modified);
    assert_eq!(app.view, View::FilePreview);
}

#[test]
fn editor_round_trip_reproduces_content() {
    let mut app = browsing(vec![entry("a.txt", false)]);
    app.on_key(code(KeyCode::Enter));
    app.on_object_fetched(Ok(b"x\n\ny".to_vec()));
    let lines = match app.on_key(key('e')) {
        Action::OpenEditor(lines) => lines,
        _ => panic!("expected the editor"),
    };
    app.on_key(ctrl('s'));
    match app.on_editor_lines(lines) {
        Action::PutObject { content, .. } => assert_eq!(content, "x\n\ny"),
        _ => panic!("expected a write"),
    }
}

#[test]
fn preview_fetch_failures() {
    let mut app = browsing(vec![entry("a.txt", false)]);
    app.on_key(code(KeyCode::Enter));
    app.on_object_fetched(Err(TransferFailure::Body("reset".into())));
    assert_eq!(app.error.as_deref(), Some("Failed to read body: reset"));
    assert_eq!(app.view, View::Objects);
    app.on_key(code(KeyCode::Enter));
    app.on_object_fetched(Err(TransferFailure::Request("403".into())));
    assert_eq!(app.error.as_deref(), Some("Failed to get object: 403"));
}

#[test]
fn download_prompt_for_binary_files() {
    let mut app = browsing(vec![entry("img.png", false)]);
    assert!(matches!(app.on_key(code(KeyCode::Enter)), Action::Nothing));
    assert_eq!(app.view, View::DownloadPrompt);
    assert_eq!(app.download_key, "img.png");
    match app.on_key(code(KeyCode::Enter)) {
        Action::Download { dir, name, .. } => {
            assert_eq!(dir, None);
            assert_eq!(name, "img.png");
        }
        _ => panic!("expected a download"),
    }
    app.on_downloaded(Ok("/home/u/Downloads/img.png".into()));
    assert_eq!(app.error.as_deref(), Some("Downloaded to /home/u/Downloads/img.png"));
    app.on_key(code(KeyCode::Enter));
    for c in "~/tmpx".chars() {
        app.on_key(key(c));
    }
    app.on_key(code(KeyCode::Backspace));
    match app.on_key(code(KeyCode::Enter)) {
        Action::Download { dir, .. } => assert_eq!(dir.as_deref(), Some("~/tmp")),
        _ => panic!("expected a download"),
    }
    app.on_downloaded(Err(TransferFailure::Write("read-only".into())));
    assert_eq!(app.error.as_deref(), Some("Failed to write file: read-only"));
    assert_eq!(app.download_input, "~/tmp");
    assert!(!app.loading);
}

#[test]
fn delete_file_and_folder() {
    let mut app = browsing(vec![entry("d", true), entry("f.txt", false)]);
    app.on_key(key('j'));
    app.on_key(key('d'));
    assert_eq!(app.view, View::DeleteConfirm);
    assert_eq!(app.delete_target_key, "f.txt");
    match app.on_key(key('y')) {
        Action::DeleteObject { key, .. } => assert_eq!(key, "f.txt"),
        _ => panic!("expected a delete"),
    }
    assert!(matches!(app.on_object_deleted(Ok(())), Action::ListObjects { .. }));
    assert_eq!(app.error.as_deref(), Some("Deleted f.txt"));
    app.entries = vec![entry("d", true)];
    app.selected = Some(0);
    app.on_key(key('d'));
    assert_eq!(app.delete_target_key, "d/");
    match app.on_key(key('Y')) {
        Action::ListPrefix { prefix, token, .. } => {
            assert_eq!(prefix, "d/");
            assert_eq!(token, None);
        }
        _ => panic!("expected a listing"),
    }
    let first = KeyPage { keys: vec![Some("d/1".into()), None, Some("d/2".into())], is_truncated: Some(true), next_token: Some("t".into()) };
    match app.on_prefix_page(Ok(first)) {
        Action::DeleteObject { key, .. } => assert_eq!(key, "d/1"),
        _ => panic!("expected a delete"),
    }
    match app.on_object_deleted(Ok(())) {
        Action::DeleteObject { key, .. } => assert_eq!(key, "d/2"),
        _ => panic!("expected a delete"),
    }
    match app.on_object_deleted(Ok(())) {
        Action::ListPrefix { token, .. } => assert_eq!(token.as_deref(), Some("t")),
        _ => panic!("expected the next page"),
    }
    let last = KeyPage { keys: vec![Some("d/".into())], is_truncated: None, next_token: None };
    app.on_prefix_page(Ok(last));
    assert!(matches!(app.on_object_deleted(Ok(())), Action::ListObjects { .. }));
    assert_eq!(app.error.as_deref(), Some("Deleted d/ (3 objects)"));
}

#[test]
fn delete_failures_and_cancel() {
    let mut app = browsing(vec![entry("d", true)]);
    app.on_key(key('d'));
    app.on_key(key('n'));
    assert_eq!(app.view, View::Objects);
    app.on_key(key('d'));
    app.on_key(key('y'));
    app.on_prefix_page(Ok(KeyPage { keys: vec![Some("d/x".into())], is_truncated: None, next_token: None }));
    app.on_object_deleted(Err("denied".into()));
    assert_eq!(app.error.as_deref(), Some("Failed to delete d/x: denied"));
    assert!(!app.loading);
    app.on_key(key('d'));
    app.on_key(key('y'));
    app.on_prefix_page(Err("throttled".into()));
    assert_eq!(app.error.as_deref(), Some("Failed to list objects for deletion: throttled"));
    let mut one = browsing(vec![entry("f", false)]);
    one.on_key(key('d'));
    one.on_key(key('y'));
    one.on_object_deleted(Err("gone".into()));
    assert_eq!(one.error.as_deref(), Some("Failed to delete object: gone"));
}

#[test]
fn create_folder_and_file() {
    let mut app = browsing(vec![]);
    app.on_key(key('n'));
    assert_eq!(app.view, View::CreateFolder);
    for c in "  new ".chars() {
        app.on_key(key(c));
    }
    match app.on_key(code(KeyCode::Enter)) {
        Action::PutObject { key, content, .. } => {
            assert_eq!(key, "new/");
            assert_eq!(content, "");
        }
        _ => panic!("expected a write"),
    }
    assert!(matches!(app.on_object_put(Ok(())), Action::ListObjects { .. }));
    assert_eq!(app.error.as_deref(), Some("Created folder new/"));
    assert_eq!(app.new_folder_input, "");
    app.on_objects_page(Ok(page(&[], vec![], None, None)));
    app.on_key(key('c'));
    app.on_key(code(KeyCode::Enter));
    assert_eq!(app.view, View::Objects);
    app.on_key(key('c'));
    app.on_key(key('f'));
    match app.on_key(code(KeyCode::Enter)) {
        Action::PutObject { key, .. } => assert_eq!(key, "f"),
        _ => panic!("expected a write"),
    }
    app.on_object_put(Err("quota".into()));
    assert_eq!(app.error.as_deref(), Some("Failed to upload object: quota"));
    assert_eq!(app.new_file_input, "f");
}

#[test]
fn picker_toggle_hidden_twice() {
    let mut app = browsing(vec![]);
    app.on_key(key('u'));
    let item = |name: &str, is_dir: bool| DirItem { name: name.into(), is_dir, is_file: !is_dir, size: 3 };
    let dir = || vec![item("Zeta", false), item(".cache", true), item("alpha", false), item(".rc", false)];
    app.on_picker_listed(dir());
    let names = |app: &App| app.picker_entries.iter().map(|e| e.name.clone()).collect::<Vec<_>>();
    assert_eq!(names(&app), vec!["alpha", "Zeta"]);
    assert!(matches!(app.on_key(key('.')), Action::ReadPicker(PickerTarget::Current)));
    app.on_picker_listed(dir());
    assert_eq!(names(&app), vec![".cache", ".rc", "alpha", "Zeta"]);
    assert!(matches!(app.on_key(key('.')), Action::ReadPicker(PickerTarget::Current)));
    app.on_picker_listed(dir());
    assert_eq!(names(&app), vec!["alpha", "Zeta"]);
}

#[test]
fn picker_lists_toggles_and_uploads() {
    let mut app = browsing(vec![]);
    assert!(matches!(app.on_key(key('u')), Action::ReadPicker(PickerTarget::Home)));
    assert_eq!(app.view, View::FilePicker);
    let item = |name: &str, is_dir: bool| DirItem { name: name.into(), is_dir, is_file: !is_dir, size: 3 };
    app.on_picker_listed(vec![item(".rc", false), item("b.txt", false), item("sub", true)]);
    let names: Vec<&str> = app.picker_entries.iter().map(|e| e.name.as_str()).collect();
    assert_eq!(names, vec!["sub", "b.txt"]);
    assert_eq!(app.picker_selected, Some(0));
    assert!(matches!(app.on_key(key('.')), Action::ReadPicker(PickerTarget::Current)));
    app.on_picker_listed(vec![item(".rc", false), item("b.txt", false), item("sub", true)]);
    assert_eq!(app.picker_entries.len(), 3);
    match app.on_key(code(KeyCode::Enter)) {
        Action::ReadPicker(PickerTarget::Child(n)) => assert_eq!(n, "sub"),
        _ => panic!("expected a directory read"),
    }
    app.on_picker_listed(vec![item("b.txt", false)]);
    match app.on_key(key('l')) {
        Action::Upload { key, name, .. } => {
            assert_eq!(key, "b.txt");
            assert_eq!(name, "b.txt");
        }
        _ => panic!("expected an upload"),
    }
    assert!(matches!(app.on_uploaded(Ok(())), Action::ListObjects { .. }));
    assert_eq!(app.error.as_deref(), Some("Uploaded b.txt"));
    app.on_objects_page(Ok(page(&[], vec![], None, None)));
    app.on_key(key('u'));
    app.on_picker_listed(vec![item("c.txt", false)]);
    app.on_key(code(KeyCode::Enter));
    app.on_uploaded(Err(TransferFailure::ReadFile("missing".into())));
    assert_eq!(app.error.as_deref(), Some("Failed to read file: missing"));
    app.on_key(key('u'));
    app.on_picker_listed(vec![item("c.txt", false)]);
    app.on_key(code(KeyCode::Enter));
    app.on_uploaded(Err(TransferFailure::Send("503".into())));
    assert_eq!(app.error.as_deref(), Some("Failed to upload: 503"));
    app.on_key(key('u'));
    assert!(matches!(app.on_key(key('h')), Action::ReadPicker(PickerTarget::Parent)));
    app.on_key(key('q'));
    assert_eq!(app.view, View::Objects);
}

#[test]
fn config_form_saves_new_profile() {
    let mut app = App::new(no_conn(), None, vec![profile("a", None)]);
    app.view = View::ConfigSelector;
    app.selected = Some(0);
    app.on_key(key('n'));
    assert_eq!(app.view, View::ConfigForm);
    // A blank name is refused.
    assert!(matches!(app.on_key(code(KeyCode::Enter)), Action::Nothing));
    assert_eq!(app.error.as_deref(), Some("Config name is required"));
    for c in " b ".chars() {
        app.on_key(key(c));
    }
    app.on_key(code(KeyCode::Tab));
    app.on_key(code(KeyCode::Tab));
    app.on_key(key('r'));
    app.on_key(ctrl('x'));
    app.on_key(code(KeyCode::Backspace));
    app.on_key(key('z'));
    app.on_key(code(KeyCode::BackTab));
    assert_eq!(app.config_form.field, 1);
    let saved = match app.on_key(code(KeyCode::Enter)) {
        Action::SaveConfig(c) => c,
        _ => panic!("expected a save"),
    };
    assert_eq!(saved.profiles.len(), 2);
    assert_eq!(saved.profiles[1].name, "b");
    assert_eq!(saved.profiles[1].region.as_deref(), Some("z"));
    assert_eq!(saved.profiles[1].profile, None);
    app.on_config_saved(Ok(()));
    assert_eq!(app.configs.len(), 2);
    assert_eq!(app.selected, Some(1));
    assert_eq!(app.error.as_deref(), Some("Saved config b"));
    assert_eq!(app.view, View::ConfigSelector);
    assert_eq!(app.config_form.name, "");
}

#[test]
fn config_form_edit_and_cancel() {
    let mut app = App::new(no_conn(), None, vec![profile("a", None), profile("b", None)]);
    app.view = View::ConfigSelector;
    app.selected = Some(1);
    app.on_key(key('e'));
    assert_eq!(app.config_form.name, "b");
    assert_eq!(app.config_form_edit_index, Some(1));
    app.on_key(key('2'));
    match app.on_key(ctrl('s')) {
        Action::SaveConfig(c) => {
            assert_eq!(c.profiles.len(), 2);
            assert_eq!(c.profiles[1].name, "b2");
        }
        _ => panic!("expected a save"),
    }
    app.on_config_saved(Err(SaveFailure::Write("disk full".into())));
    assert_eq!(app.error.as_deref(), Some("Failed to write config: disk full"));
    assert_eq!(app.configs[1].name, "b");
    assert_eq!(app.view, View::ConfigForm);
    app.on_key(code(KeyCode::Esc));
    assert_eq!(app.view, View::ConfigSelector);
    assert_eq!(app.config_form_edit_index, None);
    assert_eq!(app.error, None);
}

#[test]
fn save_session_from_bucket_list() {
    let conn = ConnectionParams { profile: Some("dev".into()), region: Some("r".into()), endpoint_url: None };
    let mut app = App::new(conn, None, Vec::new());
    app.begin();
    app.start();
    app.on_buckets_listed(Ok(vec![]));
    app.on_key(key('s'));
    assert_eq!(app.view, View::ConfigForm);
    assert_eq!(app.config_form.profile, "dev");
    assert_eq!(app.config_form_origin, View::Buckets);
    app.on_key(key('x'));
    app.on_key(code(KeyCode::Enter));
    app.on_config_saved(Ok(()));
    assert_eq!(app.view, View::Buckets);
    assert_eq!(app.configs.len(), 1);
}

#[test]
fn delete_config_with_confirmation() {
    let mut app = App::new(no_conn(), None, vec![profile("a", None), profile("b", None)]);
    app.view = View::ConfigSelector;
    app.selected = Some(1);
    app.on_key(key('d'));
    assert!(app.config_delete_pending);
    app.on_key(key('x'));
    assert!(!app.config_delete_pending);
    app.on_key(code(KeyCode::Delete));
    match app.on_key(key('y')) {
        Action::SaveConfig(c) => assert_eq!(c.profiles.len(), 1),
        _ => panic!("expected a save"),
    }
    app.on_config_saved(Err(SaveFailure::CreateDir("denied".into())));
    assert_eq!(app.configs.len(), 2);
    assert_eq!(app.error.as_deref(), Some("Failed to create config dir: denied"));
    app.on_key(key('d'));
    app.on_key(key('y'));
    app.on_config_saved(Ok(()));
    assert_eq!(app.configs.len(), 1);
    assert_eq!(app.configs[0].name, "a");
    assert_eq!(app.selected, Some(0));
    assert_eq!(app.error.as_deref(), Some("Deleted config b"));
    app.on_key(key('d'));
    app.on_key(key('y'));
    app.on_config_saved(Ok(()));
    assert!(app.configs.is_empty());
    assert_eq!(app.selected, None);
    app.on_key(key('q'));
    assert!(app.should_exit);
}

#[test]
fn apply_profile_without_bucket_lists_buckets() {
    let mut app = App::new(no_conn(), None, vec![profile("a", Some(""))]);
    app.view = View::ConfigSelector;
    app.selected = Some(0);
    app.error = Some("old".into());
    assert!(matches!(app.on_key(key('l')), Action::Connect(_)));
    assert_eq!(app.view, View::Buckets);
    assert_eq!(app.error, None);
    assert!(matches!(app.on_connected(), Action::ListBuckets));
    assert!(app.loading);
}

#[test]
fn folder_download_writes_each_file() {
    let (mut d, step) = PrefixDownload::new("foo/bar/");
    assert!(matches!(step, DownloadStep::ListPage { token: None, .. }));
    let keys = vec![Some("foo/bar/".into()), Some("foo/bar/a.txt".into()), None, Some("foo/bar/baz/x.txt".into())];
    let step = d.on_page(Ok(KeyPage { keys, is_truncated: Some(true), next_token: Some("t".into()) })).unwrap();
    match step {
        DownloadStep::Fetch { key, parts } => {
            assert_eq!(key, "foo/bar/a.txt");
            assert_eq!(parts, vec!["a.txt"]);
        }
        _ => panic!("expected a file"),
    }
    match d.on_file_written(Ok(())).unwrap() {
        DownloadStep::Fetch { parts, .. } => assert_eq!(parts, vec!["baz", "x.txt"]),
        _ => panic!("expected a file"),
    }
    match d.on_file_written(Ok(())).unwrap() {
        DownloadStep::ListPage { token, .. } => assert_eq!(token.as_deref(), Some("t")),
        _ => panic!("expected the next page"),
    }
    let step = d.on_page(Ok(KeyPage { keys: vec![Some("foo/bar/sub/".into())], is_truncated: None, next_token: None })).unwrap();
    assert!(matches!(step, DownloadStep::Done(2)));
}

#[test]
fn folder_download_failures() {
    let (mut d, _) = PrefixDownload::new("p/");
    assert_eq!(
        d.on_page(Err("nope".into())).err().as_deref(),
        Some("Failed to list objects for download: nope")
    );
    d.on_page(Ok(KeyPage { keys: vec![Some("p/a".into())], is_truncated: None, next_token: None })).unwrap();
    let r = d.on_file_written(Err(FileFailure::CreateDir { path: "/x".into(), cause: "denied".into() }));
    assert_eq!(r.err().as_deref(), Some("Failed to create /x: denied"));
    let r = d.on_file_written(Err(FileFailure::Write { path: "/x/a".into(), cause: "full".into() }));
    assert_eq!(r.err().as_deref(), Some("Failed to write /x/a: full"));
    let r = d.on_file_written(Err(FileFailure::Fetch(TransferFailure::Request("403".into()))));
    assert_eq!(r.err().as_deref(), Some("Failed to get object: 403"));
}

#[test]
fn relative_key_outside_prefix_keeps_key() {
    assert_eq!(relative_key("other/", "foo.txt").as_deref(), Some("foo.txt"));
    assert_eq!(relative_key("", "a/"), None);
}

fn shown_with_floats(bytes: i64) -> String {
    let b = bytes as f64;
    for (unit, name) in [(1u64 << 30, "GB"), (1u64 << 20, "MB"), (1u64 << 10, "KB")] {
        if b >= unit as f64 {
            return format!("{:.1} {name}", b / unit as f64);
        }
    }
    format!("{bytes} B")
}

#[test]
fn sizes_with_units() {
    assert_eq!(format_size(0), "0 B");
    assert_eq!(format_size(1023), "1023 B");
    assert_eq!(format_size(-5), "-5 B");
    assert_eq!(format_size(i64::MIN), "-9223372036854775808 B");
    assert_eq!(format_size(1024), "1.0 KB");
    assert_eq!(format_size(1536), "1.5 KB");
    // Halves of the decimal place go to the even digit.
    assert_eq!(format_size(1280), "1.2 KB");
    assert_eq!(format_size(1792), "1.8 KB");
    assert_eq!(format_size(3328), "3.2 KB");
    assert_eq!(format_size(1_048_575), "1024.0 KB");
    assert_eq!(format_size(1_048_576), "1.0 MB");
    assert_eq!(format_size(5 * (1 << 30)), "5.0 GB");
    assert_eq!(format_size(i64::MAX), "8589934592.0 GB");
}

#[test]
fn sizes_match_float_formatting() {
    let mut samples: Vec<i64> = vec![i64::MIN, -1, i64::MAX, i64::MAX - 512, i64::MAX - 513];
    for shift in 0..63 {
        let p = 1i64 << shift;
        for delta in [-3i64, -1, 0, 1, 3, p / 4, p / 2, 3 * p / 4] {
            samples.push(p.saturating_add(delta));
            samples.push(p.saturating_mul(3).saturating_add(delta));
        }
    }
    for k in 0..20_000i64 {
        samples.push(k * 256);
        samples.push(k * 104_857 + 17);
        samples.push(k * 268_435_456 + k);
        samples.push((1i64 << 53) + k * 1023);
        samples.push((1i64 << 60) + k * 131_071);
    }
    for b in samples {
        assert_eq!(format_size(b), shown_with_floats(b), "size {b}");
    }
}

#[test]
fn header_titles_and_paths() {
    let mut app = browsing(vec![entry("docs", true), entry("a.txt", false)]);
    assert_eq!(app.header_title(), " s3://bucket");
    assert_eq!(app.entry_path(&app.entries[0]), "s3://bucket/docs/");
    app.on_key(key('l'));
    app.on_objects_page(Ok(page(&[], vec![object("docs/x.md", 3)], None, None)));
    assert_eq!(app.header_title(), " s3://bucket/docs/");
    assert_eq!(app.entry_path(&app.entries[0]), "s3://bucket/docs/x.md");
    app.on_key(code(KeyCode::Enter));
    app.on_object_fetched(Ok(b"hi".to_vec()));
    assert_eq!(app.header_title(), " x.md");
    app.on_key(key('e'));
    assert_eq!(app.header_title(), " EDITING: x.md");
    app.on_key(key('z'));
    assert_eq!(app.header_title(), " EDITING: x.md [modified]");
    let mut lists = App::new(no_conn(), None, Vec::new());
    assert_eq!(lists.header_title(), " S3 Buckets");
    lists.view = View::ConfigSelector;
    assert_eq!(lists.header_title(), " Select configuration");
    lists.view = View::ConfigForm;
    assert_eq!(lists.header_title(), " New configuration");
}

#[test]
fn status_messages_and_labels() {
    assert!(is_success_message("Downloaded to /tmp/a"));
    assert!(is_success_message("Saved config prod"));
    assert!(is_success_message("Deleted d/ (3 objects)"));
    assert!(is_success_message("Created folder x/"));
    assert!(is_success_message("Uploaded notes.txt"));
    assert!(!is_success_message("Uploading"));
    assert!(!is_success_message("Failed to delete object: denied"));
    assert!(!is_success_message("Config name is required"));
    assert!(!is_success_message("Saved"));
    assert_eq!(display_timestamp("2024-01-15T10:30:00Z"), "2024-01-15 10:30:00");
    assert_eq!(display_timestamp("TZZ"), " ");
    assert_eq!(display_timestamp(""), "");
    assert_eq!(line_number_label(1), "   1 ");
    assert_eq!(line_number_label(42), "  42 ");
    assert_eq!(line_number_label(9999), "9999 ");
    assert_eq!(line_number_label(123456), "123456 ");
}

fn key_page(keys: &[&str], token: Option<&str>) -> KeyPage {
    KeyPage {
        keys: keys.iter().map(|k| Some(k.to_string())).collect(),
        is_truncated: Some(token.is_some()),
        next_token: token.map(String::from),
    }
}

#[test]
fn download_key_on_file_and_cancel() {
    let mut app = browsing(vec![entry("docs", true), entry("a.txt", false)]);
    app.on_key(key('j'));
    assert!(matches!(app.on_key(key('D')), Action::Nothing));
    assert_eq!(app.view, View::DownloadPrompt);
    assert_eq!(app.download_key, "a.txt");
    assert_eq!(app.download_name, "a.txt");
    assert!(!app.download_is_dir);
    assert_eq!(app.download_origin, View::Objects);
    app.on_key(key('x'));
    app.on_key(code(KeyCode::Esc));
    assert_eq!(app.view, View::Objects);
    assert_eq!(app.download_input, "");
}

#[test]
fn download_folder_recursively() {
    let mut app = browsing(vec![entry("docs", true), entry("a.txt", false)]);
    app.on_key(key('D'));
    assert_eq!(app.view, View::DownloadPrompt);
    assert_eq!(app.download_key, "docs/");
    assert!(app.download_is_dir);
    match app.on_key(code(KeyCode::Enter)) {
        Action::DownloadFolder { dir, name } => {
            assert_eq!(dir, None);
            assert_eq!(name, "docs");
        }
        _ => panic!("expected a folder download"),
    }
    assert_eq!(app.view, View::Objects);
    assert!(app.loading);
    match app.on_download_root("/home/u/Downloads/docs".into()) {
        Action::ListForDownload { bucket, prefix, token } => {
            assert_eq!(bucket, "bucket");
            assert_eq!(prefix, "docs/");
            assert_eq!(token, None);
        }
        _ => panic!("expected a listing"),
    }
    match app.on_download_page(Ok(key_page(&["docs/", "docs/a.txt"], Some("t1")))) {
        Action::WriteFile { key, root, parts, .. } => {
            assert_eq!(key, "docs/a.txt");
            assert_eq!(root, "/home/u/Downloads/docs");
            assert_eq!(parts, vec!["a.txt"]);
        }
        _ => panic!("expected a file"),
    }
    match app.on_file_written(Ok(())) {
        Action::ListForDownload { token, .. } => assert_eq!(token.as_deref(), Some("t1")),
        _ => panic!("expected the next page"),
    }
    match app.on_download_page(Ok(key_page(&["docs/sub/", "docs/sub/b.txt"], None))) {
        Action::WriteFile { key, parts, .. } => {
            assert_eq!(key, "docs/sub/b.txt");
            assert_eq!(parts, vec!["sub", "b.txt"]);
        }
        _ => panic!("expected a file"),
    }
    assert!(matches!(app.on_file_written(Ok(())), Action::Nothing));
    assert_eq!(app.error.as_deref(), Some("Downloaded 2 files to /home/u/Downloads/docs"));
    assert!(!app.loading);
}

#[test]
fn download_folder_failures() {
    let mut app = browsing(vec![entry("docs", true)]);
    app.on_key(key('D'));
    for c in "~/x".chars() {
        app.on_key(key(c));
    }
    match app.on_key(code(KeyCode::Enter)) {
        Action::DownloadFolder { dir, .. } => assert_eq!(dir.as_deref(), Some("~/x")),
        _ => panic!("expected a folder download"),
    }
    app.on_download_root("/tmp/x/docs".into());
    assert!(matches!(app.on_download_page(Err("denied".into())), Action::Nothing));
    assert_eq!(app.error.as_deref(), Some("Failed to list objects for download: denied"));
    assert!(!app.loading);
    app.on_key(key('D'));
    app.on_key(code(KeyCode::Enter));
    app.on_download_root("/tmp/d/docs".into());
    app.on_download_page(Ok(key_page(&["docs/a"], None)));
    let failure = FileFailure::Write { path: "/tmp/d/docs/a".into(), cause: "read-only".into() };
    assert!(matches!(app.on_file_written(Err(failure)), Action::Nothing));
    assert_eq!(app.error.as_deref(), Some("Failed to write /tmp/d/docs/a: read-only"));
    // An empty folder reports no files.
    app.on_key(key('D'));
    app.on_key(code(KeyCode::Enter));
    app.on_download_root("/tmp/e/docs".into());
    assert!(matches!(app.on_download_page(Ok(key_page(&["docs/"], None))), Action::Nothing));
    assert_eq!(app.error.as_deref(), Some("Downloaded 0 files to /tmp/e/docs"));
}

#[test]
fn download_from_preview() {
    let mut app = browsing(vec![entry("notes.md", false)]);
    app.on_key(code(KeyCode::Enter));
    app.on_object_fetched(Ok(b"hello".to_vec()));
    assert_eq!(app.view, View::FilePreview);
    app.on_key(key('D'));
    assert_eq!(app.view, View::DownloadPrompt);
    assert_eq!(app.download_origin, View::FilePreview);
    assert_eq!(app.download_key, "notes.md");
    match app.on_key(code(KeyCode::Enter)) {
        Action::Download { key, name, .. } => {
            assert_eq!(key, "notes.md");
            assert_eq!(name, "notes.md");
        }
        _ => panic!("expected a download"),
    }
    assert_eq!(app.view, View::FilePreview);
    app.on_downloaded(Ok("/d/notes.md".into()));
    assert_eq!(app.error.as_deref(), Some("Downloaded to /d/notes.md"));
    assert_eq!(app.preview_content, "hello");
    app.on_key(key('D'));
    app.on_key(code(KeyCode::Esc));
    assert_eq!(app.view, View::FilePreview);
}
