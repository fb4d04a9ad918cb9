//! The browser as a state machine over plain values.
//!
//! `AppView` is the whole state of the browser. `spec_on_key` and the
//! `spec_on_*` functions for outcomes say what one event (a key, or the
//! outcome of the outside work the previous step asked for) makes of it, and
//! which outside work comes next (`ActionView`). The executable `App` in `app.rs` is proved to follow
//! these functions exactly.
use vstd::prelude::*;
use vstd::view::View as _;
use crate::config::{find_named, upsert, SavedProfileView};
use crate::form::{
    caret_end, caret_home, caret_left, caret_right, delete_at_caret, delete_before_caret,
    empty_form, form_profile, insert_at_caret, profile_form, session_form, ConfigFormView,
};
use crate::picker::{picker_listing, starts_with_dot, DirItemView, LocalEntryView};
use crate::s3::{
    is_text_lowercase, page_entries, sorted_listing, ConnectionParamsView, RawObjectView,
    S3EntryView,
};
use crate::download::{
    spec_download_page, spec_file_written, DownloadStepView, FileFailureView, PrefixDownloadView,
};
use crate::text::{decimal, join, lines, lowercase, split_once, trim, trim_by, utf8_lossy, Pattern};

verus! {

/// The screen the browser shows.
#[derive(Clone, Copy, Debug, PartialEq, Eq, Structural)]
pub enum View {
    Buckets,
    Objects,
    FilePreview,
    FileEdit,
    DownloadPrompt,
    DeleteConfirm,
    CreateFolder,
    CreateFile,
    FilePicker,
    ConfigSelector,
    ConfigForm,
}

/// A key as the browser reads it.
#[derive(Clone, Copy, Debug, PartialEq, Eq, Structural)]
pub enum KeyCode {
    Char(char),
    Enter,
    Esc,
    Backspace,
    Delete,
    Left,
    Right,
    Up,
    Down,
    Home,
    End,
    PageUp,
    PageDown,
    Tab,
    BackTab,
    Other,
}

/// A key press with the Control and Alt modifiers.
#[derive(Clone, Copy, Debug, PartialEq, Eq)]
pub struct Key {
    pub code: KeyCode,
    pub ctrl: bool,
    pub alt: bool,
}

/// Which directory the file picker reads next.
pub enum PickerTargetView {
    Home,
    Parent,
    Child(Seq<char>),
    Current,
}

/// The outside work a step asks for.
pub enum ActionView {
    Nothing,
    Connect(ConnectionParamsView),
    ListBuckets,
    ListObjects { bucket: Seq<char>, prefix: Option<Seq<char>>, token: Option<Seq<char>> },
    GetObject { bucket: Seq<char>, key: Seq<char> },
    PutObject { bucket: Seq<char>, key: Seq<char>, content: Seq<char> },
    DeleteObject { bucket: Seq<char>, key: Seq<char> },
    ListPrefix { bucket: Seq<char>, prefix: Seq<char>, token: Option<Seq<char>> },
    Download { bucket: Seq<char>, key: Seq<char>, dir: Option<Seq<char>>, name: Seq<char> },
    DownloadFolder { dir: Option<Seq<char>>, name: Seq<char> },
    ListForDownload { bucket: Seq<char>, prefix: Seq<char>, token: Option<Seq<char>> },
    WriteFile { bucket: Seq<char>, key: Seq<char>, root: Seq<char>, parts: Seq<Seq<char>> },
    Upload { bucket: Seq<char>, key: Seq<char>, name: Seq<char> },
    SaveConfig(Seq<SavedProfileView>),
    ReadPicker(PickerTargetView),
    EditorInput,
    OpenEditor(Seq<Seq<char>>),
    SubmitEditor,
}

/// What the browser waits for: the outside work in flight and what it will
/// do with the outcome.
pub enum TaskView {
    Idle,
    Connecting { objects: bool },
    ListingBuckets,
    ListingObjects {
        bucket: Seq<char>,
        listed: Seq<char>,
        acc: Seq<S3EntryView>,
        then_objects: bool,
    },
    Previewing { name: Seq<char> },
    AwaitingEditor,
    SavingEditor { content: Seq<char> },
    Downloading,
    AwaitingDownloadRoot { bucket: Seq<char>, prefix: Seq<char> },
    DownloadingFolder { bucket: Seq<char>, root: Seq<char>, download: PrefixDownloadView },
    DeletingObject { name: Seq<char> },
    DeletingPrefix {
        name: Seq<char>,
        bucket: Seq<char>,
        prefix: Seq<char>,
        deleted: u32,
        keys: Seq<Seq<char>>,
        next: nat,
        more: bool,
        token: Option<Seq<char>>,
    },
    Creating { folder: bool, name: Seq<char> },
    Uploading { name: Seq<char> },
    SavingForm { profiles: Seq<SavedProfileView>, name: Seq<char> },
    DeletingConfig { index: usize, name: Seq<char>, profiles: Seq<SavedProfileView> },
    ReadingPicker { show_hidden: bool },
}

/// The whole state of the browser.
pub struct AppView {
    pub should_exit: bool,
    pub quit_pending: bool,
    pub view: View,
    pub buckets: Seq<Seq<char>>,
    pub entries: Seq<S3EntryView>,
    pub current_bucket: Seq<char>,
    pub prefix_stack: Seq<Seq<char>>,
    pub selected: Option<usize>,
    pub loading: bool,
    pub error: Option<Seq<char>>,
    pub initial_bucket: Option<Seq<char>>,
    pub preview_content: Seq<char>,
    pub preview_name: Seq<char>,
    pub preview_scroll: u16,
    pub editor_key: Seq<char>,
    pub editor_name: Seq<char>,
    pub editor_modified: bool,
    pub download_input: Seq<char>,
    pub download_key: Seq<char>,
    pub download_name: Seq<char>,
    pub download_is_dir: bool,
    pub download_origin: View,
    pub delete_target_name: Seq<char>,
    pub delete_target_key: Seq<char>,
    pub delete_is_dir: bool,
    pub new_folder_input: Seq<char>,
    pub new_file_input: Seq<char>,
    pub picker_entries: Seq<LocalEntryView>,
    pub picker_selected: Option<usize>,
    pub configs: Seq<SavedProfileView>,
    pub connection: ConnectionParamsView,
    pub config_delete_pending: bool,
    pub config_form: ConfigFormView,
    pub config_form_origin: View,
    pub config_form_edit_index: Option<usize>,
    pub task: TaskView,
}

/// A step's outcome: the next state and the outside work it asks for.
pub type Step = (AppView, ActionView);

// ---------------------------------------------------------------------------
// Derived values.
/// The prefix being browsed: the top of the prefix stack, or empty.
pub open spec fn current_prefix(s: AppView) -> Seq<char> {
    if s.prefix_stack.len() > 0 {
        s.prefix_stack.last()
    } else {
        seq![]
    }
}

/// Number of rows of the list shown on the current screen.
pub open spec fn item_count(s: AppView) -> nat {
    match s.view {
        View::Buckets => s.buckets.len(),
        View::Objects => s.entries.len(),
        View::FilePicker => s.picker_entries.len(),
        View::ConfigSelector => s.configs.len(),
        _ => 0,
    }
}

/// The selection after moving down (from nothing: the first row).
pub open spec fn next_selection(sel: Option<usize>) -> Option<usize> {
    match sel {
        None => Some(0),
        Some(i) => Some(if i == usize::MAX { i } else { (i + 1) as usize }),
    }
}

/// The selection after moving up (from nothing: the last row).
pub open spec fn previous_selection(sel: Option<usize>) -> Option<usize> {
    match sel {
        None => Some(usize::MAX),
        Some(i) => Some(if i == 0 { 0 } else { (i - 1) as usize }),
    }
}

/// The selection of a freshly filled list: its first row, if any.
pub open spec fn first_or_none(len: nat) -> Option<usize> {
    if len > 0 {
        Some(0)
    } else {
        None
    }
}

/// `s` scrolled to `delta` lines further, saturating.
pub open spec fn scroll_down(s: u16, delta: u16) -> u16 {
    if s + delta > u16::MAX {
        u16::MAX
    } else {
        (s + delta) as u16
    }
}

/// `s` scrolled `delta` lines back, saturating at the top.
pub open spec fn scroll_up(s: u16, delta: u16) -> u16 {
    if s < delta {
        0
    } else {
        (s - delta) as u16
    }
}

/// Whether a name is previewed as text.
pub open spec fn is_text(name: Seq<char>) -> bool {
    is_text_lowercase(lowercase(name))
}

// ---------------------------------------------------------------------------
// Loading.
/// Starts listing the buckets.
pub open spec fn load_buckets(s: AppView) -> Step {
    (AppView { loading: true, task: TaskView::ListingBuckets, ..s }, ActionView::ListBuckets)
}

/// The prefix argument of a listing: none for the bucket root.
pub open spec fn prefix_arg(prefix: Seq<char>) -> Option<Seq<char>> {
    if prefix.len() == 0 {
        None
    } else {
        Some(prefix)
    }
}

/// Starts listing the objects at the current prefix; `then_objects` shows
/// the object list once the listing ends.
pub open spec fn load_objects(s: AppView, then_objects: bool) -> Step {
    (
        AppView {
            loading: true,
            task: TaskView::ListingObjects {
                bucket: s.current_bucket,
                listed: current_prefix(s),
                acc: seq![],
                then_objects,
            },
            ..s
        },
        ActionView::ListObjects {
            bucket: s.current_bucket,
            prefix: prefix_arg(current_prefix(s)),
            token: None,
        },
    )
}

/// The bucket and prefix of a `bucket` or `bucket/prefix` argument: the
/// part before the first slash, and the rest without leading or trailing
/// slashes.
pub open spec fn bucket_arg_parts(arg: Seq<char>) -> (Seq<char>, Seq<char>) {
    match split_once(arg, '/') {
        Some((b, p)) => (b, trim_by(p, Pattern::Char('/'))),
        None => (arg, seq![]),
    }
}

/// The prefix stack for browsing `prefix` from the bucket root.
pub open spec fn stack_for(prefix: Seq<char>) -> Seq<Seq<char>> {
    if prefix.len() == 0 {
        seq![seq![]]
    } else {
        seq![seq![], prefix + seq!['/']]
    }
}

/// Navigates to a `bucket` or `bucket/prefix` argument.
pub open spec fn set_bucket_from_arg(s: AppView, arg: Seq<char>) -> AppView {
    let (b, p) = bucket_arg_parts(arg);
    AppView { current_bucket: b, prefix_stack: stack_for(p), ..s }
}

/// Marks the browser busy before the first screen is filled.
pub open spec fn spec_begin(s: AppView) -> AppView {
    AppView { loading: true, ..s }
}

/// The first step: the configuration selector needs no loading; a bucket
/// argument opens that bucket; otherwise the buckets are listed.
pub open spec fn spec_start(s: AppView) -> Step {
    if s.view == View::ConfigSelector {
        (
            AppView {
                loading: false,
                selected: if s.configs.len() > 0 { Some(0) } else { s.selected },
                ..s
            },
            ActionView::Nothing,
        )
    } else if s.initial_bucket is Some {
        let s1 = set_bucket_from_arg(
            AppView { initial_bucket: None, ..s },
            s.initial_bucket->0,
        );
        load_objects(AppView { view: View::Objects, ..s1 }, false)
    } else {
        load_buckets(s)
    }
}

// ---------------------------------------------------------------------------
// List navigation.
/// Moves the selection down, when the list has rows.
pub open spec fn select_next(s: AppView) -> AppView {
    if item_count(s) == 0 {
        s
    } else {
        AppView { selected: next_selection(s.selected), ..s }
    }
}

/// Moves the selection up, when the list has rows.
pub open spec fn select_previous(s: AppView) -> AppView {
    if item_count(s) == 0 {
        s
    } else {
        AppView { selected: previous_selection(s.selected), ..s }
    }
}

/// Selects the first row, when the list has rows.
pub open spec fn select_first(s: AppView) -> AppView {
    if item_count(s) > 0 {
        AppView { selected: Some(0), ..s }
    } else {
        s
    }
}

/// Selects the last row (rendering clamps it), when the list has rows.
pub open spec fn select_last(s: AppView) -> AppView {
    if item_count(s) > 0 {
        AppView { selected: Some(usize::MAX), ..s }
    } else {
        s
    }
}

/// `Esc` on the lists: inside a folder it goes up one level, as `Backspace`
/// does; at a bucket root it asks to confirm quitting; on the bucket list it
/// quits.
pub open spec fn esc_key(s: AppView) -> Step {
    if s.view == View::Objects && s.prefix_stack.len() > 1 {
        go_back(s)
    } else if s.view == View::Objects {
        (AppView { quit_pending: true, ..s }, ActionView::Nothing)
    } else if s.view == View::Buckets {
        (AppView { should_exit: true, ..s }, ActionView::Nothing)
    } else {
        (s, ActionView::Nothing)
    }
}

/// Quits from the bucket and object lists.
pub open spec fn go_back_or_quit(s: AppView) -> AppView {
    if s.view == View::Buckets || s.view == View::Objects {
        AppView { should_exit: true, ..s }
    } else {
        s
    }
}

/// Opens the selected bucket or entry: a bucket or folder is listed, a text
/// file is fetched for preview, any other file gets the download prompt.
pub open spec fn enter(s: AppView) -> Step {
    if s.selected is None {
        (s, ActionView::Nothing)
    } else {
        let i = s.selected->0;
        if s.view == View::Buckets {
            if i < s.buckets.len() {
                load_objects(
                    AppView { current_bucket: s.buckets[i as int], prefix_stack: seq![seq![]], ..s },
                    true,
                )
            } else {
                (s, ActionView::Nothing)
            }
        } else if s.view == View::Objects {
            if i >= s.entries.len() {
                (s, ActionView::Nothing)
            } else {
                let e = s.entries[i as int];
                if e.is_dir {
                    load_objects(
                        AppView {
                            prefix_stack: s.prefix_stack.push(current_prefix(s) + e.name + seq!['/']),
                            ..s
                        },
                        false,
                    )
                } else {
                    let key = current_prefix(s) + e.name;
                    if is_text(e.name) {
                        (
                            AppView {
                                loading: true,
                                task: TaskView::Previewing { name: e.name },
                                ..s
                            },
                            ActionView::GetObject { bucket: s.current_bucket, key },
                        )
                    } else {
                        (download_prompt(s, key, e.name, false, View::Objects), ActionView::Nothing)
                    }
                }
            }
        } else {
            (s, ActionView::Nothing)
        }
    }
}

/// Opens the download prompt for `key` (a folder's key ends with `/`),
/// saved locally as `name`; the prompt returns to `origin`.
pub open spec fn download_prompt(
    s: AppView,
    key: Seq<char>,
    name: Seq<char>,
    is_dir: bool,
    origin: View,
) -> AppView {
    AppView {
        download_key: key,
        download_name: name,
        download_is_dir: is_dir,
        download_origin: origin,
        download_input: seq![],
        view: View::DownloadPrompt,
        ..s
    }
}

/// `D` on the object list: the download prompt for the selected entry, a
/// file or a whole folder.
pub open spec fn download_selected(s: AppView) -> AppView {
    if s.view != View::Objects || s.selected is None || s.selected->0 >= s.entries.len() {
        s
    } else {
        let e = s.entries[s.selected->0 as int];
        if e.is_dir {
            download_prompt(s, current_prefix(s) + e.name + seq!['/'], e.name, true, View::Objects)
        } else {
            download_prompt(s, current_prefix(s) + e.name, e.name, false, View::Objects)
        }
    }
}

/// Goes up one folder, or from a bucket root back to the bucket list.
pub open spec fn go_back(s: AppView) -> Step {
    if s.view == View::Objects {
        if s.prefix_stack.len() > 1 {
            load_objects(AppView { prefix_stack: s.prefix_stack.drop_last(), ..s }, false)
        } else {
            let s1 = AppView { view: View::Buckets, entries: seq![], ..s };
            if s.buckets.len() == 0 {
                load_buckets(s1)
            } else {
                (AppView { selected: Some(0), ..s1 }, ActionView::Nothing)
            }
        }
    } else {
        (s, ActionView::Nothing)
    }
}

/// Asks to confirm deleting the selected entry.
pub open spec fn prompt_delete(s: AppView) -> AppView {
    if s.view != View::Objects || s.selected is None || s.selected->0 >= s.entries.len() {
        s
    } else {
        let e = s.entries[s.selected->0 as int];
        AppView {
            delete_target_name: e.name,
            delete_is_dir: e.is_dir,
            delete_target_key: if e.is_dir {
                current_prefix(s) + e.name + seq!['/']
            } else {
                current_prefix(s) + e.name
            },
            view: View::DeleteConfirm,
            ..s
        }
    }
}

/// Keys of the bucket and object lists (the error line is already cleared).
/// While quitting waits for confirmation, `y` quits and any other key
/// cancels.
pub open spec fn list_key(s: AppView, code: KeyCode) -> Step {
    if s.quit_pending {
        match code {
            KeyCode::Char('y') | KeyCode::Char('Y') => (
                AppView { should_exit: true, quit_pending: false, ..s },
                ActionView::Nothing,
            ),
            _ => (AppView { quit_pending: false, ..s }, ActionView::Nothing),
        }
    } else {
        list_command(s, code)
    }
}

/// Keys of the bucket and object lists when no confirmation is pending.
pub open spec fn list_command(s: AppView, code: KeyCode) -> Step {
    match code {
        KeyCode::Char('q') => (go_back_or_quit(s), ActionView::Nothing),
        KeyCode::Esc => esc_key(s),
        KeyCode::Down | KeyCode::Char('j') => (select_next(s), ActionView::Nothing),
        KeyCode::Up | KeyCode::Char('k') => (select_previous(s), ActionView::Nothing),
        KeyCode::Home | KeyCode::Char('g') => (select_first(s), ActionView::Nothing),
        KeyCode::End | KeyCode::Char('G') => (select_last(s), ActionView::Nothing),
        KeyCode::Enter | KeyCode::Right | KeyCode::Char('l') => enter(s),
        KeyCode::Backspace | KeyCode::Left | KeyCode::Char('h') => go_back(s),
        KeyCode::Char('d') | KeyCode::Delete => (prompt_delete(s), ActionView::Nothing),
        KeyCode::Char('D') => (download_selected(s), ActionView::Nothing),
        KeyCode::Char('n') => if s.view == View::Objects {
            (AppView { new_folder_input: seq![], view: View::CreateFolder, ..s }, ActionView::Nothing)
        } else {
            (s, ActionView::Nothing)
        },
        KeyCode::Char('c') => if s.view == View::Objects {
            (AppView { new_file_input: seq![], view: View::CreateFile, ..s }, ActionView::Nothing)
        } else {
            (s, ActionView::Nothing)
        },
        KeyCode::Char('s') => if s.view == View::Buckets {
            (
                AppView {
                    config_form: session_form(s.connection, s.current_bucket, current_prefix(s)),
                    error: None,
                    config_form_origin: View::Buckets,
                    config_form_edit_index: None,
                    view: View::ConfigForm,
                    ..s
                },
                ActionView::Nothing,
            )
        } else {
            (s, ActionView::Nothing)
        },
        KeyCode::Char('u') => if s.view == View::Objects {
            (
                AppView { view: View::FilePicker, task: TaskView::ReadingPicker { show_hidden: false }, ..s },
                ActionView::ReadPicker(PickerTargetView::Home),
            )
        } else {
            (s, ActionView::Nothing)
        },
        KeyCode::Char('r') => if s.view == View::Objects {
            load_objects(s, false)
        } else if s.view == View::Buckets {
            load_buckets(s)
        } else {
            (s, ActionView::Nothing)
        },
        _ => (s, ActionView::Nothing),
    }
}

// ---------------------------------------------------------------------------
// Preview and editor.
/// The lines handed to the editor: the preview's lines, or one empty line.
pub open spec fn editor_lines(content: Seq<char>) -> Seq<Seq<char>> {
    if lines(content).len() == 0 {
        seq![seq![]]
    } else {
        lines(content)
    }
}

/// Keys of the file preview.
pub open spec fn preview_key(s: AppView, code: KeyCode) -> Step {
    match code {
        KeyCode::Char('e') => (
            AppView {
                editor_key: current_prefix(s) + s.preview_name,
                editor_name: s.preview_name,
                editor_modified: false,
                view: View::FileEdit,
                ..s
            },
            ActionView::OpenEditor(editor_lines(s.preview_content)),
        ),
        KeyCode::Char('D') => (
            download_prompt(
                s,
                current_prefix(s) + s.preview_name,
                s.preview_name,
                false,
                View::FilePreview,
            ),
            ActionView::Nothing,
        ),
        KeyCode::Char('q') | KeyCode::Esc | KeyCode::Backspace | KeyCode::Left | KeyCode::Char('h') => (
            AppView { view: View::Objects, preview_content: seq![], preview_scroll: 0, ..s },
            ActionView::Nothing,
        ),
        KeyCode::Down | KeyCode::Char('j') => (
            AppView { preview_scroll: scroll_down(s.preview_scroll, 1), ..s },
            ActionView::Nothing,
        ),
        KeyCode::Up | KeyCode::Char('k') => (
            AppView { preview_scroll: scroll_up(s.preview_scroll, 1), ..s },
            ActionView::Nothing,
        ),
        KeyCode::PageDown | KeyCode::Char('d') => (
            AppView { preview_scroll: scroll_down(s.preview_scroll, 20), ..s },
            ActionView::Nothing,
        ),
        KeyCode::PageUp | KeyCode::Char('u') => (
            AppView { preview_scroll: scroll_up(s.preview_scroll, 20), ..s },
            ActionView::Nothing,
        ),
        KeyCode::Home | KeyCode::Char('g') => (AppView { preview_scroll: 0, ..s }, ActionView::Nothing),
        _ => (s, ActionView::Nothing),
    }
}

/// Keys of the editor: Ctrl+S saves, Esc returns to the preview, anything
/// else goes to the editor and marks the text modified.
pub open spec fn edit_key(s: AppView, key: Key) -> Step {
    if key.ctrl && key.code == KeyCode::Char('s') {
        (AppView { task: TaskView::AwaitingEditor, ..s }, ActionView::SubmitEditor)
    } else if key.code == KeyCode::Esc {
        (AppView { preview_scroll: 0, view: View::FilePreview, ..s }, ActionView::Nothing)
    } else {
        (AppView { editor_modified: true, ..s }, ActionView::EditorInput)
    }
}

/// The editor's lines arrived: they are joined with line feeds and stored.
pub open spec fn spec_on_editor_lines(s: AppView, ls: Seq<Seq<char>>) -> Step {
    if s.task is AwaitingEditor {
        let content = join(ls, seq!['\n']);
        (
            AppView { loading: true, task: TaskView::SavingEditor { content }, ..s },
            ActionView::PutObject { bucket: s.current_bucket, key: s.editor_key, content },
        )
    } else {
        (s, ActionView::Nothing)
    }
}

// ---------------------------------------------------------------------------
// Prompts.
/// A text input after a key: Backspace drops the last character, a
/// character is appended.
pub open spec fn edit_input(input: Seq<char>, code: KeyCode) -> Seq<char> {
    match code {
        KeyCode::Backspace => if input.len() > 0 {
            input.drop_last()
        } else {
            input
        },
        KeyCode::Char(c) => input.push(c),
        _ => input,
    }
}

/// The directory typed in the download prompt, if any.
pub open spec fn download_dir(s: AppView) -> Option<Seq<char>> {
    if s.download_input.len() == 0 {
        None
    } else {
        Some(s.download_input)
    }
}

/// Keys of the download prompt: `Esc` cancels and `Enter` starts the
/// download (of the file, or of everything under the folder), both
/// returning to the screen the prompt was opened from.
pub open spec fn download_key(s: AppView, code: KeyCode) -> Step {
    match code {
        KeyCode::Esc => (
            AppView { view: s.download_origin, download_input: seq![], ..s },
            ActionView::Nothing,
        ),
        KeyCode::Enter => if s.download_is_dir {
            (
                AppView {
                    loading: true,
                    view: s.download_origin,
                    task: TaskView::AwaitingDownloadRoot {
                        bucket: s.current_bucket,
                        prefix: s.download_key,
                    },
                    ..s
                },
                ActionView::DownloadFolder { dir: download_dir(s), name: s.download_name },
            )
        } else {
            (
                AppView { loading: true, view: s.download_origin, task: TaskView::Downloading, ..s },
                ActionView::Download {
                    bucket: s.current_bucket,
                    key: s.download_key,
                    dir: download_dir(s),
                    name: s.download_name,
                },
            )
        },
        KeyCode::Backspace | KeyCode::Char(_) => (
            AppView { download_input: edit_input(s.download_input, code), ..s },
            ActionView::Nothing,
        ),
        _ => (s, ActionView::Nothing),
    }
}

/// Keys of the delete confirmation: `y` deletes the object, or every object
/// under the folder; any other key cancels.
pub open spec fn delete_confirm_key(s: AppView, code: KeyCode) -> Step {
    match code {
        KeyCode::Char('y') | KeyCode::Char('Y') => {
            let s1 = AppView { loading: true, view: View::Objects, ..s };
            if s.delete_is_dir {
                (
                    AppView {
                        task: TaskView::DeletingPrefix {
                            name: s.delete_target_name,
                            bucket: s.current_bucket,
                            prefix: s.delete_target_key,
                            deleted: 0,
                            keys: seq![],
                            next: 0,
                            more: false,
                            token: None,
                        },
                        ..s1
                    },
                    ActionView::ListPrefix {
                        bucket: s.current_bucket,
                        prefix: s.delete_target_key,
                        token: None,
                    },
                )
            } else {
                (
                    AppView { task: TaskView::DeletingObject { name: s.delete_target_name }, ..s1 },
                    ActionView::DeleteObject { bucket: s.current_bucket, key: s.delete_target_key },
                )
            }
        },
        _ => (AppView { view: View::Objects, ..s }, ActionView::Nothing),
    }
}

/// Keys of the new folder (`folder`) or new file prompt.
pub open spec fn create_key(s: AppView, code: KeyCode, folder: bool) -> Step {
    let input = if folder { s.new_folder_input } else { s.new_file_input };
    match code {
        KeyCode::Esc => if folder {
            (AppView { view: View::Objects, new_folder_input: seq![], ..s }, ActionView::Nothing)
        } else {
            (AppView { view: View::Objects, new_file_input: seq![], ..s }, ActionView::Nothing)
        },
        KeyCode::Enter => {
            let name = trim(input);
            if name.len() == 0 {
                (AppView { view: View::Objects, ..s }, ActionView::Nothing)
            } else {
                let key = if folder {
                    current_prefix(s) + name + seq!['/']
                } else {
                    current_prefix(s) + name
                };
                (
                    AppView {
                        loading: true,
                        view: View::Objects,
                        task: TaskView::Creating { folder, name },
                        ..s
                    },
                    ActionView::PutObject { bucket: s.current_bucket, key, content: seq![] },
                )
            }
        },
        KeyCode::Backspace | KeyCode::Char(_) => if folder {
            (AppView { new_folder_input: edit_input(input, code), ..s }, ActionView::Nothing)
        } else {
            (AppView { new_file_input: edit_input(input, code), ..s }, ActionView::Nothing)
        },
        _ => (s, ActionView::Nothing),
    }
}

// ---------------------------------------------------------------------------
// File picker.
/// Whether any listed item is hidden.
pub open spec fn any_hidden(es: Seq<LocalEntryView>) -> bool {
    exists|i: int| 0 <= i < es.len() && #[trigger] starts_with_dot(es[i].name)
}

/// Moves the picker selection when it has entries.
pub open spec fn picker_move(s: AppView, sel: Option<usize>) -> AppView {
    if s.picker_entries.len() > 0 {
        AppView { picker_selected: sel, ..s }
    } else {
        s
    }
}

/// `Enter` in the file picker: a directory is opened, a file is uploaded
/// under the current prefix.
pub open spec fn picker_enter(s: AppView) -> Step {
    if s.picker_selected is Some && s.picker_selected->0 < s.picker_entries.len() {
        let e = s.picker_entries[s.picker_selected->0 as int];
        if e.is_dir {
            (
                AppView { task: TaskView::ReadingPicker { show_hidden: false }, ..s },
                ActionView::ReadPicker(PickerTargetView::Child(e.name)),
            )
        } else {
            (
                AppView {
                    loading: true,
                    view: View::Objects,
                    task: TaskView::Uploading { name: e.name },
                    ..s
                },
                ActionView::Upload {
                    bucket: s.current_bucket,
                    key: current_prefix(s) + e.name,
                    name: e.name,
                },
            )
        }
    } else {
        (s, ActionView::Nothing)
    }
}

/// Keys of the file picker.
pub open spec fn picker_key(s: AppView, code: KeyCode) -> Step {
    match code {
        KeyCode::Esc | KeyCode::Char('q') => (AppView { view: View::Objects, ..s }, ActionView::Nothing),
        KeyCode::Down | KeyCode::Char('j') => (
            picker_move(s, next_selection(s.picker_selected)),
            ActionView::Nothing,
        ),
        KeyCode::Up | KeyCode::Char('k') => (
            picker_move(s, previous_selection(s.picker_selected)),
            ActionView::Nothing,
        ),
        KeyCode::Home | KeyCode::Char('g') => (picker_move(s, Some(0)), ActionView::Nothing),
        KeyCode::End | KeyCode::Char('G') => (picker_move(s, Some(usize::MAX)), ActionView::Nothing),
        KeyCode::Char('.') => (
            AppView {
                task: TaskView::ReadingPicker { show_hidden: !any_hidden(s.picker_entries) },
                ..s
            },
            ActionView::ReadPicker(PickerTargetView::Current),
        ),
        KeyCode::Backspace | KeyCode::Left | KeyCode::Char('h') => (
            AppView { task: TaskView::ReadingPicker { show_hidden: false }, ..s },
            ActionView::ReadPicker(PickerTargetView::Parent),
        ),
        KeyCode::Enter | KeyCode::Right | KeyCode::Char('l') => picker_enter(s),
        _ => (s, ActionView::Nothing),
    }
}

/// A directory was read for the picker.
pub open spec fn spec_on_picker_listed(s: AppView, items: Seq<DirItemView>) -> AppView {
    match s.task {
        TaskView::ReadingPicker { show_hidden } => {
            let es = picker_listing(items, show_hidden);
            AppView {
                picker_entries: es,
                picker_selected: first_or_none(es.len()),
                task: TaskView::Idle,
                ..s
            }
        },
        _ => s,
    }
}

// ---------------------------------------------------------------------------
// Saved configurations.
/// Connects with a saved profile and opens its bucket (and prefix), or the
/// bucket list when it names none.
pub open spec fn apply_config(s: AppView, p: SavedProfileView) -> Step {
    let conn = ConnectionParamsView {
        profile: p.profile,
        region: p.region,
        endpoint_url: p.endpoint_url,
    };
    let s1 = AppView {
        connection: conn,
        buckets: seq![],
        entries: seq![],
        prefix_stack: seq![],
        selected: None,
        ..s
    };
    if p.bucket is Some && p.bucket->0.len() > 0 {
        (
            AppView {
                view: View::Objects,
                task: TaskView::Connecting { objects: true },
                ..set_bucket_from_arg(s1, p.bucket->0)
            },
            ActionView::Connect(conn),
        )
    } else {
        (
            AppView { view: View::Buckets, task: TaskView::Connecting { objects: false }, ..s1 },
            ActionView::Connect(conn),
        )
    }
}

/// Deletes the selected configuration from the saved list.
pub open spec fn delete_selected_config(s: AppView) -> Step {
    let s1 = AppView { config_delete_pending: false, ..s };
    if s.selected is None || s.selected->0 >= s.configs.len() {
        (s1, ActionView::Nothing)
    } else {
        let i = s.selected->0;
        let rest = s.configs.remove(i as int);
        (
            AppView {
                task: TaskView::DeletingConfig { index: i, name: s.configs[i as int].name, profiles: rest },
                ..s1
            },
            ActionView::SaveConfig(rest),
        )
    }
}

/// Keys of the configuration selector.
pub open spec fn selector_key(s: AppView, code: KeyCode) -> Step {
    if s.config_delete_pending {
        match code {
            KeyCode::Char('y') | KeyCode::Char('Y') => delete_selected_config(s),
            _ => (AppView { config_delete_pending: false, ..s }, ActionView::Nothing),
        }
    } else {
        match code {
            KeyCode::Char('q') | KeyCode::Esc => (AppView { should_exit: true, ..s }, ActionView::Nothing),
            KeyCode::Down | KeyCode::Char('j') => (select_next(s), ActionView::Nothing),
            KeyCode::Up | KeyCode::Char('k') => (select_previous(s), ActionView::Nothing),
            KeyCode::Home | KeyCode::Char('g') => (select_first(s), ActionView::Nothing),
            KeyCode::End | KeyCode::Char('G') => (select_last(s), ActionView::Nothing),
            KeyCode::Enter | KeyCode::Right | KeyCode::Char('l') => {
                if s.selected is Some && s.selected->0 < s.configs.len() {
                    apply_config(AppView { error: None, ..s }, s.configs[s.selected->0 as int])
                } else {
                    (s, ActionView::Nothing)
                }
            },
            KeyCode::Char('n') => (
                AppView {
                    config_form: empty_form(),
                    error: None,
                    config_form_origin: View::ConfigSelector,
                    config_form_edit_index: None,
                    view: View::ConfigForm,
                    ..s
                },
                ActionView::Nothing,
            ),
            KeyCode::Char('e') => {
                if s.selected is Some && s.selected->0 < s.configs.len() {
                    (
                        AppView {
                            config_form: profile_form(s.configs[s.selected->0 as int]),
                            error: None,
                            config_form_origin: View::ConfigSelector,
                            config_form_edit_index: s.selected,
                            view: View::ConfigForm,
                            ..s
                        },
                        ActionView::Nothing,
                    )
                } else {
                    (s, ActionView::Nothing)
                }
            },
            KeyCode::Char('d') | KeyCode::Delete => if s.configs.len() > 0 {
                (AppView { config_delete_pending: true, ..s }, ActionView::Nothing)
            } else {
                (s, ActionView::Nothing)
            },
            _ => (s, ActionView::Nothing),
        }
    }
}

/// `"Config name is required"`.
pub open spec fn name_required_message() -> Seq<char> {
    "Config name is required"@
}

/// Saves the form: a blank name is refused; otherwise the profile is stored
/// in the saved list (replacing the edited entry or the entry of the same
/// name, or appended) and the list is written.
pub open spec fn save_config_form(s: AppView) -> Step {
    let p = form_profile(s.config_form);
    if p.name.len() == 0 {
        (AppView { error: Some(name_required_message()), ..s }, ActionView::Nothing)
    } else {
        let profiles = upsert(s.configs, s.config_form_edit_index, p);
        (
            AppView { task: TaskView::SavingForm { profiles, name: p.name }, ..s },
            ActionView::SaveConfig(profiles),
        )
    }
}

/// Whether the field step that `code` asks for in the configuration form
/// stays within `usize`: `Tab` and `↓` add one to the field index, `BackTab`
/// and `↑` add the number of fields before subtracting one.
pub open spec fn field_step_fits(field: usize, code: KeyCode) -> bool {
    match code {
        KeyCode::Tab | KeyCode::Down => field < usize::MAX,
        KeyCode::BackTab | KeyCode::Up => field <= usize::MAX - 5,
        _ => true,
    }
}

/// The state with `f` as the form, asking for nothing.
pub open spec fn with_form(s: AppView, f: ConfigFormView) -> Step {
    (AppView { config_form: f, ..s }, ActionView::Nothing)
}

/// Keys of the configuration form: `Tab`, `↑` and `↓` change fields, `←`,
/// `→`, `Home` and `End` move the caret, `Backspace` and `Delete` delete
/// before and at the caret, and a character is typed at the caret.
pub open spec fn form_key(s: AppView, key: Key) -> Step {
    if key.ctrl && key.code == KeyCode::Char('s') {
        save_config_form(s)
    } else {
        let f = s.config_form;
        match key.code {
            KeyCode::Esc => (
                AppView {
                    config_form: empty_form(),
                    error: None,
                    config_form_edit_index: None,
                    view: s.config_form_origin,
                    ..s
                },
                ActionView::Nothing,
            ),
            KeyCode::Tab | KeyCode::Down => with_form(
                s,
                ConfigFormView { field: ((f.field + 1) % 5) as usize, after_caret: 0, ..f },
            ),
            KeyCode::BackTab | KeyCode::Up => with_form(
                s,
                ConfigFormView { field: ((f.field + 4) % 5) as usize, after_caret: 0, ..f },
            ),
            KeyCode::Enter => save_config_form(s),
            KeyCode::Left => with_form(s, caret_left(f)),
            KeyCode::Right => with_form(s, caret_right(f)),
            KeyCode::Home => with_form(s, caret_home(f)),
            KeyCode::End => with_form(s, caret_end(f)),
            KeyCode::Backspace => with_form(s, delete_before_caret(f)),
            KeyCode::Delete => with_form(s, delete_at_caret(f)),
            KeyCode::Char(c) => if !(key.ctrl || key.alt) {
                with_form(s, insert_at_caret(f, c))
            } else {
                (s, ActionView::Nothing)
            },
            _ => (s, ActionView::Nothing),
        }
    }
}

// ---------------------------------------------------------------------------
// Keys.
/// What a key does on the current screen. On the bucket and object lists
/// the error line is cleared first.
pub open spec fn spec_on_key(s: AppView, key: Key) -> Step {
    match s.view {
        View::FilePreview => preview_key(s, key.code),
        View::FileEdit => edit_key(s, key),
        View::DownloadPrompt => download_key(s, key.code),
        View::DeleteConfirm => delete_confirm_key(s, key.code),
        View::CreateFolder => create_key(s, key.code, true),
        View::CreateFile => create_key(s, key.code, false),
        View::FilePicker => picker_key(s, key.code),
        View::ConfigSelector => selector_key(s, key.code),
        View::ConfigForm => form_key(s, key),
        _ => list_key(AppView { error: None, ..s }, key.code),
    }
}

// ---------------------------------------------------------------------------
// Outcomes of outside work.
/// Ends a step: the browser is idle and no longer busy.
pub open spec fn finish(s: AppView) -> AppView {
    AppView { loading: false, task: TaskView::Idle, ..s }
}

/// The client for a new connection is ready: the listing it was made for starts.
pub open spec fn spec_on_connected(s: AppView) -> Step {
    match s.task {
        TaskView::Connecting { objects } => if objects {
            load_objects(AppView { task: TaskView::Idle, ..s }, false)
        } else {
            load_buckets(AppView { task: TaskView::Idle, ..s })
        },
        _ => (s, ActionView::Nothing),
    }
}

/// The names of a listing that have one, in order.
pub open spec fn named(names: Seq<Option<Seq<char>>>) -> Seq<Seq<char>>
    decreases names.len(),
{
    if names.len() == 0 {
        seq![]
    } else {
        let before = named(names.drop_last());
        match names.last() {
            Some(n) => before.push(n),
            None => before,
        }
    }
}

/// `"Failed to list buckets: "`.
pub open spec fn list_buckets_failure() -> Seq<char> {
    "Failed to list buckets: "@
}

/// The buckets were listed (or listing failed with the given cause).
pub open spec fn spec_on_buckets(s: AppView, r: Result<Seq<Option<Seq<char>>>, Seq<char>>) -> Step {
    if s.task is ListingBuckets {
        match r {
            Ok(names) => {
                let b = named(names);
                (finish(AppView { buckets: b, selected: first_or_none(b.len()), ..s }), ActionView::Nothing)
            },
            Err(e) => (finish(AppView { error: Some(list_buckets_failure() + e), ..s }), ActionView::Nothing),
        }
    } else {
        (s, ActionView::Nothing)
    }
}

/// One page of an object listing, as plain values.
pub struct PageView {
    pub common_prefixes: Seq<Option<Seq<char>>>,
    pub objects: Seq<RawObjectView>,
    pub is_truncated: Option<bool>,
    pub next_token: Option<Seq<char>>,
}

/// `"Failed to list objects: "`.
pub open spec fn list_objects_failure() -> Seq<char> {
    "Failed to list objects: "@
}

/// A page of the object listing arrived (or the listing failed): more pages
/// are asked for while the listing is truncated; at the end the entries are
/// shown in display order with the first one selected. A failure shows the
/// error and an empty list.
pub open spec fn spec_on_objects_page(s: AppView, r: Result<PageView, Seq<char>>) -> Step {
    match s.task {
        TaskView::ListingObjects { bucket, listed, acc, then_objects } => {
            let shown = if then_objects { View::Objects } else { s.view };
            match r {
                Err(e) => (
                    finish(
                        AppView {
                            error: Some(list_objects_failure() + e),
                            entries: seq![],
                            selected: None,
                            view: shown,
                            ..s
                        },
                    ),
                    ActionView::Nothing,
                ),
                Ok(page) => {
                    let acc2 = acc + page_entries(listed, page.common_prefixes, page.objects);
                    if page.is_truncated == Some(true) {
                        (
                            AppView {
                                task: TaskView::ListingObjects { bucket, listed, acc: acc2, then_objects },
                                ..s
                            },
                            ActionView::ListObjects {
                                bucket,
                                prefix: prefix_arg(listed),
                                token: page.next_token,
                            },
                        )
                    } else {
                        let es = sorted_listing(acc2);
                        (
                            finish(
                                AppView {
                                    entries: es,
                                    selected: first_or_none(es.len()),
                                    view: shown,
                                    ..s
                                },
                            ),
                            ActionView::Nothing,
                        )
                    }
                },
            }
        },
        _ => (s, ActionView::Nothing),
    }
}

/// Why moving an object's bytes failed, with the cause: the get request,
/// reading its body, writing the local file, reading the local file to
/// upload, or the upload request.
pub enum TransferFailureView {
    Request(Seq<char>),
    Body(Seq<char>),
    Write(Seq<char>),
    ReadFile(Seq<char>),
    Send(Seq<char>),
}

/// The message shown for a failed fetch, download or upload.
pub open spec fn transfer_message(f: TransferFailureView) -> Seq<char> {
    match f {
        TransferFailureView::Request(e) => "Failed to get object: "@ + e,
        TransferFailureView::Body(e) => "Failed to read body: "@ + e,
        TransferFailureView::Write(e) => "Failed to write file: "@ + e,
        TransferFailureView::ReadFile(e) => "Failed to read file: "@ + e,
        TransferFailureView::Send(e) => "Failed to upload: "@ + e,
    }
}

/// The object to preview arrived (or fetching it failed).
pub open spec fn spec_on_fetched(s: AppView, r: Result<Seq<u8>, TransferFailureView>) -> Step {
    match s.task {
        TaskView::Previewing { name } => match r {
            Ok(bytes) => (
                finish(
                    AppView {
                        preview_content: utf8_lossy(bytes),
                        preview_name: name,
                        preview_scroll: 0,
                        view: View::FilePreview,
                        ..s
                    },
                ),
                ActionView::Nothing,
            ),
            Err(f) => (finish(AppView { error: Some(transfer_message(f)), ..s }), ActionView::Nothing),
        },
        _ => (s, ActionView::Nothing),
    }
}

/// `"Failed to upload object: "`.
pub open spec fn put_failure() -> Seq<char> {
    "Failed to upload object: "@
}

/// An object was written (the editor's text, or a new folder or file).
pub open spec fn spec_on_put(s: AppView, r: Result<(), Seq<char>>) -> Step {
    match s.task {
        TaskView::SavingEditor { content } => match r {
            Ok(()) => load_objects(
                AppView {
                    error: Some("Saved "@ + s.editor_name),
                    editor_modified: false,
                    preview_content: content,
                    preview_scroll: 0,
                    view: View::FilePreview,
                    task: TaskView::Idle,
                    ..s
                },
                false,
            ),
            Err(e) => (finish(AppView { error: Some(put_failure() + e), ..s }), ActionView::Nothing),
        },
        TaskView::Creating { folder, name } => match r {
            Ok(()) => if folder {
                load_objects(
                    AppView {
                        error: Some("Created folder "@ + name + seq!['/']),
                        new_folder_input: seq![],
                        task: TaskView::Idle,
                        ..s
                    },
                    false,
                )
            } else {
                load_objects(
                    AppView {
                        error: Some("Created file "@ + name),
                        new_file_input: seq![],
                        task: TaskView::Idle,
                        ..s
                    },
                    false,
                )
            },
            Err(e) => (finish(AppView { error: Some(put_failure() + e), ..s }), ActionView::Nothing),
        },
        _ => (s, ActionView::Nothing),
    }
}

/// The download finished at the given local path (or failed).
pub open spec fn spec_on_downloaded(s: AppView, r: Result<Seq<char>, TransferFailureView>) -> Step {
    if s.task is Downloading {
        match r {
            Ok(dest) => (
                finish(AppView { error: Some("Downloaded to "@ + dest), download_input: seq![], ..s }),
                ActionView::Nothing,
            ),
            Err(f) => (finish(AppView { error: Some(transfer_message(f)), ..s }), ActionView::Nothing),
        }
    } else {
        (s, ActionView::Nothing)
    }
}

/// `"Downloaded N files to <root>"`.
pub open spec fn folder_downloaded_message(n: u32, root: Seq<char>) -> Seq<char> {
    "Downloaded "@ + decimal(n as nat) + " files to "@ + root
}

/// What a folder download does with its next step: a listing or a file to
/// write is asked for; at the end the count is reported; a failure ends it
/// with its message.
pub open spec fn folder_step(
    s: AppView,
    bucket: Seq<char>,
    root: Seq<char>,
    d: PrefixDownloadView,
    st: Result<DownloadStepView, Seq<char>>,
) -> Step {
    let s1 = AppView { task: TaskView::DownloadingFolder { bucket, root, download: d }, ..s };
    match st {
        Err(m) => (finish(AppView { error: Some(m), ..s }), ActionView::Nothing),
        Ok(DownloadStepView::Done(n)) => (
            finish(AppView { error: Some(folder_downloaded_message(n, root)), download_input: seq![], ..s }),
            ActionView::Nothing,
        ),
        Ok(DownloadStepView::ListPage { prefix, token }) => (
            s1,
            ActionView::ListForDownload { bucket, prefix, token },
        ),
        Ok(DownloadStepView::Fetch { key, parts }) => (
            s1,
            ActionView::WriteFile { bucket, key, root, parts },
        ),
    }
}

/// The local directory of a folder download is known (`root`, shown in the
/// final message): the first page of keys under the folder is listed.
pub open spec fn spec_on_download_root(s: AppView, root: Seq<char>) -> Step {
    match s.task {
        TaskView::AwaitingDownloadRoot { bucket, prefix } => folder_step(
            s,
            bucket,
            root,
            PrefixDownloadView {
                prefix,
                files: seq![],
                next: 0,
                more: false,
                token: None,
                downloaded: 0,
            },
            Ok(DownloadStepView::ListPage { prefix, token: None }),
        ),
        _ => (s, ActionView::Nothing),
    }
}

/// A page of keys under the folder being downloaded arrived (or listing
/// failed).
pub open spec fn spec_on_download_page(s: AppView, r: Result<KeyPageView, Seq<char>>) -> Step {
    match s.task {
        TaskView::DownloadingFolder { bucket, root, download } => {
            let (d1, st) = spec_download_page(download, r);
            folder_step(s, bucket, root, d1, st)
        },
        _ => (s, ActionView::Nothing),
    }
}

/// The file being written by a folder download was written (or writing it
/// failed).
pub open spec fn spec_on_file_written(s: AppView, r: Result<(), FileFailureView>) -> Step {
    match s.task {
        TaskView::DownloadingFolder { bucket, root, download } => if download.next
            < download.files.len() {
            let (d1, st) = spec_file_written(download, r);
            folder_step(s, bucket, root, d1, st)
        } else {
            (s, ActionView::Nothing)
        },
        _ => (s, ActionView::Nothing),
    }
}

/// The upload finished (or failed).
pub open spec fn spec_on_uploaded(s: AppView, r: Result<(), TransferFailureView>) -> Step {
    match s.task {
        TaskView::Uploading { name } => match r {
            Ok(()) => load_objects(
                AppView { error: Some("Uploaded "@ + name), task: TaskView::Idle, ..s },
                false,
            ),
            Err(f) => (finish(AppView { error: Some(transfer_message(f)), ..s }), ActionView::Nothing),
        },
        _ => (s, ActionView::Nothing),
    }
}

/// The next step of deleting a folder: the next listed key, the next page,
/// or the summary when everything is deleted.
pub open spec fn delete_prefix_advance(s: AppView) -> Step {
    match s.task {
        TaskView::DeletingPrefix { name, bucket, prefix, deleted, keys, next, more, token } => {
            if next < keys.len() {
                (s, ActionView::DeleteObject { bucket, key: keys[next as int] })
            } else if more {
                (s, ActionView::ListPrefix { bucket, prefix, token })
            } else {
                load_objects(
                    AppView {
                        error: Some(
                            "Deleted "@ + name + "/ ("@ + decimal(deleted as nat) + " objects)"@,
                        ),
                        task: TaskView::Idle,
                        ..s
                    },
                    false,
                )
            }
        },
        _ => (s, ActionView::Nothing),
    }
}

/// One page of the keys under a folder, as plain values.
pub struct KeyPageView {
    pub keys: Seq<Option<Seq<char>>>,
    pub is_truncated: Option<bool>,
    pub next_token: Option<Seq<char>>,
}

/// `"Failed to list objects for deletion: "`.
pub open spec fn list_for_deletion_failure() -> Seq<char> {
    "Failed to list objects for deletion: "@
}

/// A page of keys under the folder being deleted arrived (or listing failed).
pub open spec fn spec_on_prefix_page(s: AppView, r: Result<KeyPageView, Seq<char>>) -> Step {
    match s.task {
        TaskView::DeletingPrefix { name, bucket, prefix, deleted, keys, next, more, token } => match r {
            Err(e) => (
                finish(AppView { error: Some(list_for_deletion_failure() + e), ..s }),
                ActionView::Nothing,
            ),
            Ok(page) => delete_prefix_advance(
                AppView {
                    task: TaskView::DeletingPrefix {
                        name,
                        bucket,
                        prefix,
                        deleted,
                        keys: named(page.keys),
                        next: 0,
                        more: page.is_truncated == Some(true),
                        token: page.next_token,
                    },
                    ..s
                },
            ),
        },
        _ => (s, ActionView::Nothing),
    }
}

/// `"Failed to delete object: "`.
pub open spec fn delete_failure() -> Seq<char> {
    "Failed to delete object: "@
}

/// An object was deleted (or deleting it failed).
pub open spec fn spec_on_deleted(s: AppView, r: Result<(), Seq<char>>) -> Step {
    match s.task {
        TaskView::DeletingObject { name } => match r {
            Ok(()) => load_objects(
                AppView { error: Some("Deleted "@ + name), task: TaskView::Idle, ..s },
                false,
            ),
            Err(e) => (finish(AppView { error: Some(delete_failure() + e), ..s }), ActionView::Nothing),
        },
        TaskView::DeletingPrefix { name, bucket, prefix, deleted, keys, next, more, token } => {
            if next < keys.len() {
                match r {
                    Ok(()) => delete_prefix_advance(
                        AppView {
                            task: TaskView::DeletingPrefix {
                                name,
                                bucket,
                                prefix,
                                deleted: if deleted == u32::MAX { 0 } else { (deleted + 1) as u32 },
                                keys,
                                next: next + 1,
                                more,
                                token,
                            },
                            ..s
                        },
                    ),
                    Err(e) => (
                        finish(
                            AppView {
                                error: Some("Failed to delete "@ + keys[next as int] + ": "@ + e),
                                ..s
                            },
                        ),
                        ActionView::Nothing,
                    ),
                }
            } else {
                (s, ActionView::Nothing)
            }
        },
        _ => (s, ActionView::Nothing),
    }
}

/// The saved list was written (or writing failed with the given message).
pub open spec fn spec_on_config_saved(s: AppView, r: Result<(), Seq<char>>) -> Step {
    match s.task {
        TaskView::SavingForm { profiles, name } => match r {
            Ok(()) => {
                let s1 = AppView {
                    configs: profiles,
                    error: Some("Saved config "@ + name),
                    config_form: empty_form(),
                    config_form_edit_index: None,
                    view: s.config_form_origin,
                    task: TaskView::Idle,
                    ..s
                };
                if s.config_form_origin == View::ConfigSelector && find_named(profiles, name) >= 0 {
                    (AppView { selected: Some(find_named(profiles, name) as usize), ..s1 }, ActionView::Nothing)
                } else {
                    (s1, ActionView::Nothing)
                }
            },
            Err(e) => (AppView { error: Some(e), task: TaskView::Idle, ..s }, ActionView::Nothing),
        },
        TaskView::DeletingConfig { index, name, profiles } => match r {
            Ok(()) => (
                AppView {
                    configs: profiles,
                    error: Some("Deleted config "@ + name),
                    selected: if profiles.len() == 0 {
                        None
                    } else if index < profiles.len() {
                        Some(index)
                    } else {
                        Some((profiles.len() - 1) as usize)
                    },
                    task: TaskView::Idle,
                    ..s
                },
                ActionView::Nothing,
            ),
            Err(e) => (AppView { error: Some(e), task: TaskView::Idle, ..s }, ActionView::Nothing),
        },
        _ => (s, ActionView::Nothing),
    }
}

} // verus!
