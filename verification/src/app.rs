//! The browser's state and the steps that drive it.
//!
//! `App` holds everything the screens show. Each key, and each outcome of
//! outside work (listing, fetching, writing, deleting, saving the
//! configuration, reading a local directory), is handed to one method,
//! which updates the state and returns the next outside work to do as an
//! `Action`. Every method is proved to follow the model in `model.rs`.
use vstd::prelude::*;
use vstd::view::View as _;
use crate::config::{duplicate_profiles, position_by_name, save, upsert_profile, Config, SaveFailure, SavedProfile};
use crate::form::ConfigForm;
use crate::config::SavedProfileView;
use crate::model::{
    apply_config, create_key, current_prefix, delete_confirm_key, delete_prefix_advance,
    delete_selected_config, download_key, edit_key, enter, esc_key, form_key, go_back, go_back_or_quit,
    download_prompt, download_selected, field_step_fits, folder_step, picker_enter, spec_on_download_page, spec_on_download_root,
    spec_on_file_written, item_count, list_key, load_buckets, load_objects, picker_key, preview_key, prompt_delete,
    save_config_form, select_first, select_last, select_next, select_previous, selector_key,
    set_bucket_from_arg, spec_begin, spec_on_buckets, spec_on_config_saved, spec_on_connected,
    spec_on_deleted, spec_on_downloaded, spec_on_editor_lines, spec_on_fetched, spec_on_key,
    spec_on_objects_page, spec_on_picker_listed, spec_on_prefix_page, spec_on_put,
    spec_on_uploaded, spec_start, named, any_hidden, transfer_message, ActionView, AppView, Key,
    KeyCode, KeyPageView, PageView, PickerTargetView, TaskView, TransferFailureView, View,
};
use crate::s3::ConnectionParamsView;
use crate::download::{DownloadStep, FileFailure, PrefixDownload};
use crate::picker::{arrange_picker, DirItem, LocalEntry};
use crate::s3::{
    has_connection_flags, spec_has_connection_flags, Args, is_text_file, push_page_entries, sort_entries, ConnectionParams, ObjectPage,
    S3Entry,
};
use crate::text::{
    cat, cat3, clone_opt, decimal_string, decode_utf8_lossy, is_empty_str, join_lines, lines_of,
    opt_view, pop_char, push_char, split_once_str, starts_with_char, trim_matches, trim_str,
};

verus! {

// ---------------------------------------------------------------------------
// Outside work.
/// Which directory the file picker reads next: the home directory, the
/// parent of the current one (nothing happens at the root), a child of the
/// current one, or the current one again.
pub enum PickerTarget {
    Home,
    Parent,
    Child(String),
    Current,
}

impl vstd::view::View for PickerTarget {
    type V = PickerTargetView;

    open spec fn view(&self) -> PickerTargetView {
        match self {
            PickerTarget::Home => PickerTargetView::Home,
            PickerTarget::Parent => PickerTargetView::Parent,
            PickerTarget::Child(n) => PickerTargetView::Child(n@),
            PickerTarget::Current => PickerTargetView::Current,
        }
    }
}

/// The outside work a step asks for, and the method that takes its outcome:
/// - `Connect`: build an S3 client for the settings, then `on_connected`.
/// - `ListBuckets`: list the buckets, then `on_buckets_listed`.
/// - `ListObjects`: list one page of the bucket, delimited by `/`, under
///   the prefix when there is one, from the token when there is one; then
///   `on_objects_page`.
/// - `GetObject`: fetch an object's bytes, then `on_object_fetched`.
/// - `PutObject`: write an object, then `on_object_put`.
/// - `DeleteObject`: delete an object, then `on_object_deleted`.
/// - `ListPrefix`: list one page of the keys under a prefix, then
///   `on_prefix_page`.
/// - `Download`: fetch an object and write it as `name` in `dir` (the
///   user's download directory when `dir` is absent), then `on_downloaded`.
/// - `DownloadFolder`: resolve the local directory `name` in `dir` (the
///   user's download directory when `dir` is absent), then
///   `on_download_root` with its path.
/// - `ListForDownload`: list one page of the keys under a prefix, then
///   `on_download_page`.
/// - `WriteFile`: fetch object `key` and write it below the directory
///   `root` at the path made of `parts`, creating the directories above it;
///   then `on_file_written`.
/// - `Upload`: upload the picker's file `name` as `key`, then `on_uploaded`.
/// - `SaveConfig`: write the configuration file, then `on_config_saved`.
/// - `ReadPicker`: read a directory for the picker, then `on_picker_listed`
///   (nothing when there is no parent directory).
/// - `EditorInput`: hand the key to the text editor.
/// - `OpenEditor`: open the text editor on these lines.
/// - `SubmitEditor`: hand the editor's lines to `on_editor_lines`.
pub enum Action {
    Nothing,
    Connect(ConnectionParams),
    ListBuckets,
    ListObjects { bucket: String, prefix: Option<String>, token: Option<String> },
    GetObject { bucket: String, key: String },
    PutObject { bucket: String, key: String, content: String },
    DeleteObject { bucket: String, key: String },
    ListPrefix { bucket: String, prefix: String, token: Option<String> },
    Download { bucket: String, key: String, dir: Option<String>, name: String },
    DownloadFolder { dir: Option<String>, name: String },
    ListForDownload { bucket: String, prefix: String, token: Option<String> },
    WriteFile { bucket: String, key: String, root: String, parts: Vec<String> },
    Upload { bucket: String, key: String, name: String },
    SaveConfig(Config),
    ReadPicker(PickerTarget),
    EditorInput,
    OpenEditor(Vec<String>),
    SubmitEditor,
}

impl vstd::view::View for Action {
    type V = ActionView;

    open spec fn view(&self) -> ActionView {
        match self {
            Action::Nothing => ActionView::Nothing,
            Action::Connect(c) => ActionView::Connect(c@),
            Action::ListBuckets => ActionView::ListBuckets,
            Action::ListObjects { bucket, prefix, token } => ActionView::ListObjects {
                bucket: bucket@,
                prefix: opt_view(*prefix),
                token: opt_view(*token),
            },
            Action::GetObject { bucket, key } => ActionView::GetObject { bucket: bucket@, key: key@ },
            Action::PutObject { bucket, key, content } => ActionView::PutObject {
                bucket: bucket@,
                key: key@,
                content: content@,
            },
            Action::DeleteObject { bucket, key } => ActionView::DeleteObject {
                bucket: bucket@,
                key: key@,
            },
            Action::ListPrefix { bucket, prefix, token } => ActionView::ListPrefix {
                bucket: bucket@,
                prefix: prefix@,
                token: opt_view(*token),
            },
            Action::Download { bucket, key, dir, name } => ActionView::Download {
                bucket: bucket@,
                key: key@,
                dir: opt_view(*dir),
                name: name@,
            },
            Action::DownloadFolder { dir, name } => ActionView::DownloadFolder {
                dir: opt_view(*dir),
                name: name@,
            },
            Action::ListForDownload { bucket, prefix, token } => ActionView::ListForDownload {
                bucket: bucket@,
                prefix: prefix@,
                token: opt_view(*token),
            },
            Action::WriteFile { bucket, key, root, parts } => ActionView::WriteFile {
                bucket: bucket@,
                key: key@,
                root: root@,
                parts: parts.deep_view(),
            },
            Action::Upload { bucket, key, name } => ActionView::Upload {
                bucket: bucket@,
                key: key@,
                name: name@,
            },
            Action::SaveConfig(c) => ActionView::SaveConfig(c@),
            Action::ReadPicker(t) => ActionView::ReadPicker(t@),
            Action::EditorInput => ActionView::EditorInput,
            Action::OpenEditor(ls) => ActionView::OpenEditor(ls.deep_view()),
            Action::SubmitEditor => ActionView::SubmitEditor,
        }
    }
}

/// Why moving an object's bytes failed, with the cause (see
/// `TransferFailureView`).
pub enum TransferFailure {
    Request(String),
    Body(String),
    Write(String),
    ReadFile(String),
    Send(String),
}

impl vstd::view::View for TransferFailure {
    type V = TransferFailureView;

    open spec fn view(&self) -> TransferFailureView {
        match self {
            TransferFailure::Request(e) => TransferFailureView::Request(e@),
            TransferFailure::Body(e) => TransferFailureView::Body(e@),
            TransferFailure::Write(e) => TransferFailureView::Write(e@),
            TransferFailure::ReadFile(e) => TransferFailureView::ReadFile(e@),
            TransferFailure::Send(e) => TransferFailureView::Send(e@),
        }
    }
}

/// The message shown for a failed transfer.
pub fn transfer_failure_message(f: &TransferFailure) -> (r: String)
    ensures
        r@ == transfer_message(f@),
{
    match f {
        TransferFailure::Request(e) => cat("Failed to get object: ", e.as_str()),
        TransferFailure::Body(e) => cat("Failed to read body: ", e.as_str()),
        TransferFailure::Write(e) => cat("Failed to write file: ", e.as_str()),
        TransferFailure::ReadFile(e) => cat("Failed to read file: ", e.as_str()),
        TransferFailure::Send(e) => cat("Failed to upload: ", e.as_str()),
    }
}

/// One page of the keys under a prefix.
pub struct KeyPage {
    pub keys: Vec<Option<String>>,
    pub is_truncated: Option<bool>,
    pub next_token: Option<String>,
}

impl vstd::view::View for KeyPage {
    type V = KeyPageView;

    open spec fn view(&self) -> KeyPageView {
        KeyPageView {
            keys: self.keys@.map_values(|o: Option<String>| opt_view(o)),
            is_truncated: self.is_truncated,
            next_token: opt_view(self.next_token),
        }
    }
}

impl vstd::view::View for ObjectPage {
    type V = PageView;

    open spec fn view(&self) -> PageView {
        PageView {
            common_prefixes: self.common_prefixes@.map_values(|o: Option<String>| opt_view(o)),
            objects: self.objects.deep_view(),
            is_truncated: self.is_truncated,
            next_token: opt_view(self.next_token),
        }
    }
}

/// The outside work in flight (see `TaskView`).
pub enum Task {
    Idle,
    Connecting { objects: bool },
    ListingBuckets,
    ListingObjects { bucket: String, listed: String, acc: Vec<S3Entry>, then_objects: bool },
    Previewing { name: String },
    AwaitingEditor,
    SavingEditor { content: String },
    Downloading,
    AwaitingDownloadRoot { bucket: String, prefix: String },
    DownloadingFolder { bucket: String, root: String, download: PrefixDownload },
    DeletingObject { name: String },
    DeletingPrefix {
        name: String,
        bucket: String,
        prefix: String,
        deleted: u32,
        keys: Vec<String>,
        next: usize,
        more: bool,
        token: Option<String>,
    },
    Creating { folder: bool, name: String },
    Uploading { name: String },
    SavingForm { profiles: Vec<SavedProfile>, name: String },
    DeletingConfig { index: usize, name: String, profiles: Vec<SavedProfile> },
    ReadingPicker { show_hidden: bool },
}

impl vstd::view::View for Task {
    type V = TaskView;

    open spec fn view(&self) -> TaskView {
        match self {
            Task::Idle => TaskView::Idle,
            Task::Connecting { objects } => TaskView::Connecting { objects: *objects },
            Task::ListingBuckets => TaskView::ListingBuckets,
            Task::ListingObjects { bucket, listed, acc, then_objects } => TaskView::ListingObjects {
                bucket: bucket@,
                listed: listed@,
                acc: acc.deep_view(),
                then_objects: *then_objects,
            },
            Task::Previewing { name } => TaskView::Previewing { name: name@ },
            Task::AwaitingEditor => TaskView::AwaitingEditor,
            Task::SavingEditor { content } => TaskView::SavingEditor { content: content@ },
            Task::Downloading => TaskView::Downloading,
            Task::AwaitingDownloadRoot { bucket, prefix } => TaskView::AwaitingDownloadRoot {
                bucket: bucket@,
                prefix: prefix@,
            },
            Task::DownloadingFolder { bucket, root, download } => TaskView::DownloadingFolder {
                bucket: bucket@,
                root: root@,
                download: download@,
            },
            Task::DeletingObject { name } => TaskView::DeletingObject { name: name@ },
            Task::DeletingPrefix { name, bucket, prefix, deleted, keys, next, more, token } =>
                TaskView::DeletingPrefix {
                name: name@,
                bucket: bucket@,
                prefix: prefix@,
                deleted: *deleted,
                keys: keys.deep_view(),
                next: *next as nat,
                more: *more,
                token: opt_view(*token),
            },
            Task::Creating { folder, name } => TaskView::Creating { folder: *folder, name: name@ },
            Task::Uploading { name } => TaskView::Uploading { name: name@ },
            Task::SavingForm { profiles, name } => TaskView::SavingForm {
                profiles: profiles.deep_view(),
                name: name@,
            },
            Task::DeletingConfig { index, name, profiles } => TaskView::DeletingConfig {
                index: *index,
                name: name@,
                profiles: profiles.deep_view(),
            },
            Task::ReadingPicker { show_hidden } => TaskView::ReadingPicker { show_hidden: *show_hidden },
        }
    }
}

// ---------------------------------------------------------------------------
// The state.
/// Everything the browser's screens show, and the outside work in flight.
pub struct App {
    pub should_exit: bool,
    /// Whether the lists wait for `y` to confirm quitting.
    pub quit_pending: bool,
    pub view: View,
    pub buckets: Vec<String>,
    pub entries: Vec<S3Entry>,
    pub current_bucket: String,
    pub prefix_stack: Vec<String>,
    /// The selected row of the bucket, object or configuration list.
    pub selected: Option<usize>,
    pub loading: bool,
    pub error: Option<String>,
    pub initial_bucket: Option<String>,
    pub preview_content: String,
    pub preview_name: String,
    pub preview_scroll: u16,
    pub editor_key: String,
    pub editor_name: String,
    pub editor_modified: bool,
    pub download_input: String,
    pub download_key: String,
    pub download_name: String,
    /// Whether the download prompt is for a whole folder.
    pub download_is_dir: bool,
    /// The screen the download prompt returns to.
    pub download_origin: View,
    pub delete_target_name: String,
    pub delete_target_key: String,
    pub delete_is_dir: bool,
    pub new_folder_input: String,
    pub new_file_input: String,
    pub picker_entries: Vec<LocalEntry>,
    /// The selected row of the file picker.
    pub picker_selected: Option<usize>,
    pub configs: Vec<SavedProfile>,
    pub connection: ConnectionParams,
    pub config_delete_pending: bool,
    pub config_form: ConfigForm,
    pub config_form_origin: View,
    /// When editing an existing configuration, its index in `configs`.
    pub config_form_edit_index: Option<usize>,
    task: Task,
}

impl vstd::view::View for App {
    type V = AppView;

    closed spec fn view(&self) -> AppView {
        AppView {
            should_exit: self.should_exit,
            quit_pending: self.quit_pending,
            view: self.view,
            buckets: self.buckets.deep_view(),
            entries: self.entries.deep_view(),
            current_bucket: self.current_bucket@,
            prefix_stack: self.prefix_stack.deep_view(),
            selected: self.selected,
            loading: self.loading,
            error: opt_view(self.error),
            initial_bucket: opt_view(self.initial_bucket),
            preview_content: self.preview_content@,
            preview_name: self.preview_name@,
            preview_scroll: self.preview_scroll,
            editor_key: self.editor_key@,
            editor_name: self.editor_name@,
            editor_modified: self.editor_modified,
            download_input: self.download_input@,
            download_key: self.download_key@,
            download_name: self.download_name@,
            download_is_dir: self.download_is_dir,
            download_origin: self.download_origin,
            delete_target_name: self.delete_target_name@,
            delete_target_key: self.delete_target_key@,
            delete_is_dir: self.delete_is_dir,
            new_folder_input: self.new_folder_input@,
            new_file_input: self.new_file_input@,
            picker_entries: self.picker_entries.deep_view(),
            picker_selected: self.picker_selected,
            configs: self.configs.deep_view(),
            connection: self.connection@,
            config_delete_pending: self.config_delete_pending,
            config_form: self.config_form@,
            config_form_origin: self.config_form_origin,
            config_form_edit_index: self.config_form_edit_index,
            task: self.task@,
        }
    }
}

/// The state of a new browser: the bucket list, nothing loaded, with the
/// given connection, starting bucket and saved configurations.
pub open spec fn initial_state(
    connection: ConnectionParamsView,
    initial_bucket: Option<Seq<char>>,
    configs: Seq<SavedProfileView>,
) -> AppView {
    AppView {
        should_exit: false,
        quit_pending: false,
        view: View::Buckets,
        buckets: seq![],
        entries: seq![],
        current_bucket: seq![],
        prefix_stack: seq![],
        selected: None,
        loading: false,
        error: None,
        initial_bucket,
        preview_content: seq![],
        preview_name: seq![],
        preview_scroll: 0,
        editor_key: seq![],
        editor_name: seq![],
        editor_modified: false,
        download_input: seq![],
        download_key: seq![],
        download_name: seq![],
        download_is_dir: false,
        download_origin: View::Objects,
        delete_target_name: seq![],
        delete_target_key: seq![],
        delete_is_dir: false,
        new_folder_input: seq![],
        new_file_input: seq![],
        picker_entries: seq![],
        picker_selected: None,
        configs,
        connection,
        config_delete_pending: false,
        config_form: crate::form::empty_form(),
        config_form_origin: View::ConfigSelector,
        config_form_edit_index: None,
        task: TaskView::Idle,
    }
}

/// The names of a listing that have one, in order.
fn named_strings(names: &Vec<Option<String>>) -> (r: Vec<String>)
    ensures
        r.deep_view() == named(names@.map_values(|o: Option<String>| opt_view(o))),
{
    let ghost nv = names@.map_values(|o: Option<String>| opt_view(o));
    let mut r: Vec<String> = Vec::new();
    let mut i: usize = 0;
    while i < names.len()
        invariant
            i <= names.len(),
            nv == names@.map_values(|o: Option<String>| opt_view(o)),
            r.deep_view() == named(nv.take(i as int)),
        decreases names.len() - i,
    {
        assert(nv.take(i + 1).drop_last() =~= nv.take(i as int));
        assert(nv.take(i + 1).last() == opt_view(names@[i as int]));
        let ghost before = r.deep_view();
        match &names[i] {
            Some(n) => {
                r.push(n.clone());
                assert(r.deep_view() =~= before.push(n@));
            },
            None => {},
        }
        i += 1;
    }
    assert(nv.take(names.len() as int) =~= nv);
    r
}

impl App {
    /// A new browser on the bucket list, with nothing loaded yet.
    pub fn new(connection: ConnectionParams, initial_bucket: Option<String>, configs: Vec<SavedProfile>) -> (r: App)
        ensures
            r@ == initial_state(connection@, opt_view(initial_bucket), configs.deep_view()),
    {
        let r = App {
            should_exit: false,
            quit_pending: false,
            view: View::Buckets,
            buckets: Vec::new(),
            entries: Vec::new(),
            current_bucket: String::new(),
            prefix_stack: Vec::new(),
            selected: None,
            loading: false,
            error: None,
            initial_bucket,
            preview_content: String::new(),
            preview_name: String::new(),
            preview_scroll: 0,
            editor_key: String::new(),
            editor_name: String::new(),
            editor_modified: false,
            download_input: String::new(),
            download_key: String::new(),
            download_name: String::new(),
            download_is_dir: false,
            download_origin: View::Objects,
            delete_target_name: String::new(),
            delete_target_key: String::new(),
            delete_is_dir: false,
            new_folder_input: String::new(),
            new_file_input: String::new(),
            picker_entries: Vec::new(),
            picker_selected: None,
            configs,
            connection,
            config_delete_pending: false,
            config_form: ConfigForm::default(),
            config_form_origin: View::ConfigSelector,
            config_form_edit_index: None,
            task: Task::Idle,
        };
        assert(r@.buckets =~= Seq::<Seq<char>>::empty());
        assert(r@.entries =~= Seq::<crate::s3::S3EntryView>::empty());
        assert(r@.prefix_stack =~= Seq::<Seq<char>>::empty());
        assert(r@.picker_entries =~= Seq::<crate::picker::LocalEntryView>::empty());
        r
    }

    /// The prefix being browsed: the top of the prefix stack, or empty.
    pub fn current_prefix(&self) -> (r: String)
        ensures
            r@ == current_prefix(self@),
    {
        let n = self.prefix_stack.len();
        if n > 0 {
            assert(self.prefix_stack.deep_view()[n - 1] == self.prefix_stack@[n - 1]@);
            self.prefix_stack[n - 1].clone()
        } else {
            String::new()
        }
    }

    /// The title of the header line.
    pub fn header_title(&self) -> (r: String)
        ensures
            r@ == crate::display::header_title(self@),
    {
        match self.view {
            View::Buckets => String::from_str(" S3 Buckets"),
            View::Objects | View::DownloadPrompt | View::DeleteConfirm | View::CreateFolder
            | View::CreateFile => {
                let prefix = self.current_prefix();
                if is_empty_str(prefix.as_str()) {
                    cat(" s3://", self.current_bucket.as_str())
                } else {
                    let mut r = cat3(" s3://", self.current_bucket.as_str(), "/");
                    r.append(prefix.as_str());
                    r
                }
            },
            View::FilePreview => cat(" ", self.preview_name.as_str()),
            View::FileEdit => {
                if self.editor_modified {
                    cat3(" EDITING: ", self.editor_name.as_str(), " [modified]")
                } else {
                    cat(" EDITING: ", self.editor_name.as_str())
                }
            },
            View::FilePicker => String::from_str(" Upload: choose a file"),
            View::ConfigSelector => String::from_str(" Select configuration"),
            View::ConfigForm => String::from_str(" New configuration"),
        }
    }

    /// The full `s3://` path of an entry of the listing being browsed.
    pub fn entry_path(&self, e: &S3Entry) -> (r: String)
        ensures
            r@ == crate::display::entry_path(self@, e@),
    {
        let prefix = self.current_prefix();
        let mut r = cat3("s3://", self.current_bucket.as_str(), "/");
        r.append(prefix.as_str());
        r.append(e.name.as_str());
        if e.is_dir {
            r.append("/");
        }
        r
    }

    /// Number of rows of the list shown on the current screen.
    pub fn item_count(&self) -> (r: usize)
        ensures
            r == item_count(self@),
    {
        match self.view {
            View::Buckets => self.buckets.len(),
            View::Objects => self.entries.len(),
            View::FilePicker => self.picker_entries.len(),
            View::ConfigSelector => self.configs.len(),
            _ => 0,
        }
    }

    fn load_buckets(&mut self) -> (r: Action)
        ensures
            (final(self)@, r@) == load_buckets(old(self)@),
    {
        self.loading = true;
        self.task = Task::ListingBuckets;
        Action::ListBuckets
    }

    fn load_objects(&mut self, then_objects: bool) -> (r: Action)
        ensures
            (final(self)@, r@) == load_objects(old(self)@, then_objects),
    {
        let prefix = self.current_prefix();
        let arg = if is_empty_str(prefix.as_str()) {
            None
        } else {
            Some(prefix.clone())
        };
        self.loading = true;
        let acc: Vec<S3Entry> = Vec::new();
        assert(acc.deep_view() =~= Seq::<crate::s3::S3EntryView>::empty());
        self.task = Task::ListingObjects {
            bucket: self.current_bucket.clone(),
            listed: prefix,
            acc,
            then_objects,
        };
        Action::ListObjects { bucket: self.current_bucket.clone(), prefix: arg, token: None }
    }

    fn set_bucket_from_arg(&mut self, arg: String)
        ensures
            final(self)@ == set_bucket_from_arg(old(self)@, arg@),
    {
        let (bucket, prefix) = match split_once_str(arg.as_str(), '/') {
            Some((b, p)) => (b, trim_matches(p.as_str(), '/')),
            None => (arg, String::new()),
        };
        let mut stack: Vec<String> = Vec::new();
        stack.push(String::new());
        if !is_empty_str(prefix.as_str()) {
            proof {
                crate::text::lemma_slash();
            }
            stack.push(cat(prefix.as_str(), "/"));
        }
        assert(stack.deep_view() =~= crate::model::stack_for(prefix@));
        self.current_bucket = bucket;
        self.prefix_stack = stack;
    }

    /// Marks the browser busy before its first screen is drawn.
    pub fn begin(&mut self)
        ensures
            final(self)@ == spec_begin(old(self)@),
    {
        self.loading = true;
    }

    /// The first step after `begin`: the configuration selector needs no
    /// loading; a starting bucket argument opens that bucket (and prefix);
    /// otherwise the buckets are listed.
    pub fn start(&mut self) -> (r: Action)
        ensures
            (final(self)@, r@) == spec_start(old(self)@),
    {
        if self.view == View::ConfigSelector {
            self.loading = false;
            if self.configs.len() > 0 {
                self.selected = Some(0);
            }
            Action::Nothing
        } else {
            match self.initial_bucket.take() {
                Some(b) => {
                    self.set_bucket_from_arg(b);
                    self.view = View::Objects;
                    self.load_objects(false)
                },
                None => self.load_buckets(),
            }
        }
    }

    fn select_next(&mut self)
        ensures
            final(self)@ == select_next(old(self)@),
    {
        if self.item_count() == 0 {
            return ;
        }
        self.selected = Some(
            match self.selected {
                None => 0,
                Some(i) => i.saturating_add(1),
            },
        );
    }

    fn select_previous(&mut self)
        ensures
            final(self)@ == select_previous(old(self)@),
    {
        if self.item_count() == 0 {
            return ;
        }
        self.selected = Some(
            match self.selected {
                None => usize::MAX,
                Some(i) => i.saturating_sub(1),
            },
        );
    }

    fn select_first(&mut self)
        ensures
            final(self)@ == select_first(old(self)@),
    {
        if self.item_count() > 0 {
            self.selected = Some(0);
        }
    }

    fn select_last(&mut self)
        ensures
            final(self)@ == select_last(old(self)@),
    {
        if self.item_count() > 0 {
            self.selected = Some(usize::MAX);
        }
    }

    fn go_back_or_quit(&mut self)
        ensures
            final(self)@ == go_back_or_quit(old(self)@),
    {
        if self.view == View::Buckets {
            self.should_exit = true;
        }
        if self.view == View::Objects {
            self.should_exit = true;
        }
    }

    fn enter(&mut self) -> (r: Action)
        ensures
            (final(self)@, r@) == enter(old(self)@),
    {
        let i = match self.selected {
            Some(i) => i,
            None => return Action::Nothing,
        };
        if self.view == View::Buckets {
            if i < self.buckets.len() {
                assert(self.buckets.deep_view()[i as int] == self.buckets@[i as int]@);
                self.current_bucket = self.buckets[i].clone();
                let mut stack: Vec<String> = Vec::new();
                stack.push(String::new());
                assert(stack.deep_view() =~= seq![Seq::<char>::empty()]);
                self.prefix_stack = stack;
                return self.load_objects(true);
            }
            Action::Nothing
        } else if self.view == View::Objects {
            if i >= self.entries.len() {
                return Action::Nothing;
            }
            assert(self.entries.deep_view()[i as int] == self.entries@[i as int]@);
            let e = self.entries[i].duplicate();
            let prefix = self.current_prefix();
            if e.is_dir {
                proof {
                    crate::text::lemma_slash();
                }
                let np = cat3(prefix.as_str(), e.name.as_str(), "/");
                let ghost before = self.prefix_stack.deep_view();
                self.prefix_stack.push(np);
                assert(self.prefix_stack.deep_view() =~= before.push(np@));
                self.load_objects(false)
            } else {
                let key = cat(prefix.as_str(), e.name.as_str());
                if is_text_file(e.name.as_str()) {
                    self.loading = true;
                    self.task = Task::Previewing { name: e.name };
                    Action::GetObject { bucket: self.current_bucket.clone(), key }
                } else {
                    self.open_download_prompt(key, e.name, false, View::Objects);
                    Action::Nothing
                }
            }
        } else {
            Action::Nothing
        }
    }

    fn open_download_prompt(&mut self, key: String, name: String, is_dir: bool, origin: View)
        ensures
            final(self)@ == download_prompt(old(self)@, key@, name@, is_dir, origin),
    {
        self.download_key = key;
        self.download_name = name;
        self.download_is_dir = is_dir;
        self.download_origin = origin;
        self.download_input = String::new();
        self.view = View::DownloadPrompt;
    }

    fn download_selected(&mut self)
        ensures
            final(self)@ == download_selected(old(self)@),
    {
        if self.view != View::Objects {
            return ;
        }
        let i = match self.selected {
            Some(i) => i,
            None => return ,
        };
        if i >= self.entries.len() {
            return ;
        }
        assert(self.entries.deep_view()[i as int] == self.entries@[i as int]@);
        let name = self.entries[i].name.clone();
        let is_dir = self.entries[i].is_dir;
        let prefix = self.current_prefix();
        proof {
            crate::text::lemma_slash();
        }
        let key = if is_dir {
            cat3(prefix.as_str(), name.as_str(), "/")
        } else {
            cat(prefix.as_str(), name.as_str())
        };
        self.open_download_prompt(key, name, is_dir, View::Objects);
    }

    fn go_back(&mut self) -> (r: Action)
        ensures
            (final(self)@, r@) == go_back(old(self)@),
    {
        if self.view == View::Objects {
            if self.prefix_stack.len() > 1 {
                let ghost before = self.prefix_stack.deep_view();
                self.prefix_stack.pop();
                assert(self.prefix_stack.deep_view() =~= before.drop_last());
                self.load_objects(false)
            } else {
                self.view = View::Buckets;
                self.entries = Vec::new();
                assert(self.entries.deep_view() =~= Seq::<crate::s3::S3EntryView>::empty());
                if self.buckets.len() == 0 {
                    self.load_buckets()
                } else {
                    self.selected = Some(0);
                    Action::Nothing
                }
            }
        } else {
            Action::Nothing
        }
    }

    fn prompt_delete(&mut self)
        ensures
            final(self)@ == prompt_delete(old(self)@),
    {
        if self.view != View::Objects {
            return ;
        }
        let i = match self.selected {
            Some(i) => i,
            None => return ,
        };
        if i >= self.entries.len() {
            return ;
        }
        assert(self.entries.deep_view()[i as int] == self.entries@[i as int]@);
        let name = self.entries[i].name.clone();
        let is_dir = self.entries[i].is_dir;
        let prefix = self.current_prefix();
        proof {
            crate::text::lemma_slash();
        }
        let key = if is_dir {
            cat3(prefix.as_str(), name.as_str(), "/")
        } else {
            cat(prefix.as_str(), name.as_str())
        };
        self.delete_target_name = name;
        self.delete_is_dir = is_dir;
        self.delete_target_key = key;
        self.view = View::DeleteConfirm;
    }

    fn esc_key(&mut self) -> (r: Action)
        ensures
            (final(self)@, r@) == esc_key(old(self)@),
    {
        if self.view == View::Objects && self.prefix_stack.len() > 1 {
            self.go_back()
        } else {
            if self.view == View::Objects {
                self.quit_pending = true;
            } else if self.view == View::Buckets {
                self.should_exit = true;
            }
            Action::Nothing
        }
    }

    fn list_key(&mut self, code: KeyCode) -> (r: Action)
        ensures
            (final(self)@, r@) == list_key(old(self)@, code),
    {
        if self.quit_pending {
            if code == KeyCode::Char('y') || code == KeyCode::Char('Y') {
                self.should_exit = true;
            }
            self.quit_pending = false;
            return Action::Nothing;
        }
        match code {
            KeyCode::Char('q') => {
                self.go_back_or_quit();
                Action::Nothing
            },
            KeyCode::Esc => self.esc_key(),
            KeyCode::Down | KeyCode::Char('j') => {
                self.select_next();
                Action::Nothing
            },
            KeyCode::Up | KeyCode::Char('k') => {
                self.select_previous();
                Action::Nothing
            },
            KeyCode::Home | KeyCode::Char('g') => {
                self.select_first();
                Action::Nothing
            },
            KeyCode::End | KeyCode::Char('G') => {
                self.select_last();
                Action::Nothing
            },
            KeyCode::Enter | KeyCode::Right | KeyCode::Char('l') => self.enter(),
            KeyCode::Backspace | KeyCode::Left | KeyCode::Char('h') => self.go_back(),
            KeyCode::Char('d') | KeyCode::Delete => {
                self.prompt_delete();
                Action::Nothing
            },
            KeyCode::Char('D') => {
                self.download_selected();
                Action::Nothing
            },
            KeyCode::Char('n') => {
                if self.view == View::Objects {
                    self.new_folder_input = String::new();
                    self.view = View::CreateFolder;
                }
                Action::Nothing
            },
            KeyCode::Char('c') => {
                if self.view == View::Objects {
                    self.new_file_input = String::new();
                    self.view = View::CreateFile;
                }
                Action::Nothing
            },
            KeyCode::Char('s') => {
                if self.view == View::Buckets {
                    let prefix = self.current_prefix();
                    self.config_form = ConfigForm::from_session(
                        &self.connection,
                        self.current_bucket.as_str(),
                        prefix.as_str(),
                    );
                    self.error = None;
                    self.config_form_origin = View::Buckets;
                    self.config_form_edit_index = None;
                    self.view = View::ConfigForm;
                }
                Action::Nothing
            },
            KeyCode::Char('u') => {
                if self.view == View::Objects {
                    self.view = View::FilePicker;
                    self.task = Task::ReadingPicker { show_hidden: false };
                    Action::ReadPicker(PickerTarget::Home)
                } else {
                    Action::Nothing
                }
            },
            KeyCode::Char('r') => {
                if self.view == View::Objects {
                    self.load_objects(false)
                } else if self.view == View::Buckets {
                    self.load_buckets()
                } else {
                    Action::Nothing
                }
            },
            _ => Action::Nothing,
        }
    }
}

/// Whether any of the entries is hidden.
fn any_hidden_entry(es: &Vec<LocalEntry>) -> (r: bool)
    ensures
        r == any_hidden(es.deep_view()),
{
    let mut i: usize = 0;
    while i < es.len()
        invariant
            i <= es.len(),
            forall|k: int| 0 <= k < i ==> !crate::picker::starts_with_dot(#[trigger] es.deep_view()[k].name),
        decreases es.len() - i,
    {
        assert(es.deep_view()[i as int] == es@[i as int]@);
        if starts_with_char(es[i].name.as_str(), '.') {
            assert(crate::picker::starts_with_dot(es.deep_view()[i as int].name));
            return true;
        }
        i += 1;
    }
    false
}

impl App {
    #[verifier::spinoff_prover]
    #[verifier::rlimit(60)]
    fn preview_key(&mut self, code: KeyCode) -> (r: Action)
        ensures
            (final(self)@, r@) == preview_key(old(self)@, code),
    {
        match code {
            KeyCode::Char('e') => {
                let ls = lines_of(self.preview_content.as_str());
                let ls = if ls.len() == 0 {
                    let mut one: Vec<String> = Vec::new();
                    one.push(String::new());
                    assert(one.deep_view() =~= seq![Seq::<char>::empty()]);
                    one
                } else {
                    ls
                };
                let prefix = self.current_prefix();
                self.editor_key = cat(prefix.as_str(), self.preview_name.as_str());
                self.editor_name = self.preview_name.clone();
                self.editor_modified = false;
                self.view = View::FileEdit;
                Action::OpenEditor(ls)
            },
            KeyCode::Char('D') => {
                let prefix = self.current_prefix();
                let key = cat(prefix.as_str(), self.preview_name.as_str());
                let name = self.preview_name.clone();
                self.open_download_prompt(key, name, false, View::FilePreview);
                Action::Nothing
            },
            KeyCode::Char('q') | KeyCode::Esc | KeyCode::Backspace | KeyCode::Left | KeyCode::Char(
                'h',
            ) => {
                self.view = View::Objects;
                self.preview_content = String::new();
                self.preview_scroll = 0;
                Action::Nothing
            },
            KeyCode::Down | KeyCode::Char('j') => {
                self.preview_scroll = self.preview_scroll.saturating_add(1);
                Action::Nothing
            },
            KeyCode::Up | KeyCode::Char('k') => {
                self.preview_scroll = self.preview_scroll.saturating_sub(1);
                Action::Nothing
            },
            KeyCode::PageDown | KeyCode::Char('d') => {
                self.preview_scroll = self.preview_scroll.saturating_add(20);
                Action::Nothing
            },
            KeyCode::PageUp | KeyCode::Char('u') => {
                self.preview_scroll = self.preview_scroll.saturating_sub(20);
                Action::Nothing
            },
            KeyCode::Home | KeyCode::Char('g') => {
                self.preview_scroll = 0;
                Action::Nothing
            },
            _ => Action::Nothing,
        }
    }

    fn edit_key(&mut self, key: Key) -> (r: Action)
        ensures
            (final(self)@, r@) == edit_key(old(self)@, key),
    {
        if key.ctrl && key.code == KeyCode::Char('s') {
            self.task = Task::AwaitingEditor;
            Action::SubmitEditor
        } else if key.code == KeyCode::Esc {
            self.preview_scroll = 0;
            self.view = View::FilePreview;
            Action::Nothing
        } else {
            self.editor_modified = true;
            Action::EditorInput
        }
    }

    fn download_key(&mut self, code: KeyCode) -> (r: Action)
        ensures
            (final(self)@, r@) == download_key(old(self)@, code),
    {
        match code {
            KeyCode::Esc => {
                self.view = self.download_origin;
                self.download_input = String::new();
                Action::Nothing
            },
            KeyCode::Enter => {
                let dir = if is_empty_str(self.download_input.as_str()) {
                    None
                } else {
                    Some(self.download_input.clone())
                };
                self.loading = true;
                self.view = self.download_origin;
                if self.download_is_dir {
                    self.task = Task::AwaitingDownloadRoot {
                        bucket: self.current_bucket.clone(),
                        prefix: self.download_key.clone(),
                    };
                    Action::DownloadFolder { dir, name: self.download_name.clone() }
                } else {
                    self.task = Task::Downloading;
                    Action::Download {
                        bucket: self.current_bucket.clone(),
                        key: self.download_key.clone(),
                        dir,
                        name: self.download_name.clone(),
                    }
                }
            },
            KeyCode::Backspace => {
                pop_char(&mut self.download_input);
                Action::Nothing
            },
            KeyCode::Char(c) => {
                push_char(&mut self.download_input, c);
                Action::Nothing
            },
            _ => Action::Nothing,
        }
    }

    fn delete_confirm_key(&mut self, code: KeyCode) -> (r: Action)
        ensures
            (final(self)@, r@) == delete_confirm_key(old(self)@, code),
    {
        match code {
            KeyCode::Char('y') | KeyCode::Char('Y') => {
                self.loading = true;
                self.view = View::Objects;
                if self.delete_is_dir {
                    let keys: Vec<String> = Vec::new();
                    assert(keys.deep_view() =~= Seq::<Seq<char>>::empty());
                    self.task = Task::DeletingPrefix {
                        name: self.delete_target_name.clone(),
                        bucket: self.current_bucket.clone(),
                        prefix: self.delete_target_key.clone(),
                        deleted: 0,
                        keys,
                        next: 0,
                        more: false,
                        token: None,
                    };
                    Action::ListPrefix {
                        bucket: self.current_bucket.clone(),
                        prefix: self.delete_target_key.clone(),
                        token: None,
                    }
                } else {
                    self.task = Task::DeletingObject { name: self.delete_target_name.clone() };
                    Action::DeleteObject {
                        bucket: self.current_bucket.clone(),
                        key: self.delete_target_key.clone(),
                    }
                }
            },
            _ => {
                self.view = View::Objects;
                Action::Nothing
            },
        }
    }

    #[verifier::spinoff_prover]
    #[verifier::rlimit(60)]
    fn create_key(&mut self, code: KeyCode, folder: bool) -> (r: Action)
        ensures
            (final(self)@, r@) == create_key(old(self)@, code, folder),
    {
        match code {
            KeyCode::Esc => {
                self.view = View::Objects;
                if folder {
                    self.new_folder_input = String::new();
                } else {
                    self.new_file_input = String::new();
                }
                Action::Nothing
            },
            KeyCode::Enter => {
                let name = if folder {
                    trim_str(self.new_folder_input.as_str())
                } else {
                    trim_str(self.new_file_input.as_str())
                };
                if is_empty_str(name.as_str()) {
                    self.view = View::Objects;
                    return Action::Nothing;
                }
                let prefix = self.current_prefix();
                proof {
                    crate::text::lemma_slash();
                }
                let key = if folder {
                    cat3(prefix.as_str(), name.as_str(), "/")
                } else {
                    cat(prefix.as_str(), name.as_str())
                };
                self.loading = true;
                self.view = View::Objects;
                self.task = Task::Creating { folder, name };
                Action::PutObject { bucket: self.current_bucket.clone(), key, content: String::new() }
            },
            KeyCode::Backspace => {
                if folder {
                    pop_char(&mut self.new_folder_input);
                } else {
                    pop_char(&mut self.new_file_input);
                }
                Action::Nothing
            },
            KeyCode::Char(c) => {
                if folder {
                    push_char(&mut self.new_folder_input, c);
                } else {
                    push_char(&mut self.new_file_input, c);
                }
                Action::Nothing
            },
            _ => Action::Nothing,
        }
    }

    fn picker_enter(&mut self) -> (r: Action)
        ensures
            (final(self)@, r@) == picker_enter(old(self)@),
    {
        match self.picker_selected {
            Some(idx) => {
                if idx < self.picker_entries.len() {
                    assert(self.picker_entries.deep_view()[idx as int]
                        == self.picker_entries@[idx as int]@);
                    let e = self.picker_entries[idx].duplicate();
                    if e.is_dir {
                        self.task = Task::ReadingPicker { show_hidden: false };
                        Action::ReadPicker(PickerTarget::Child(e.name))
                    } else {
                        let prefix = self.current_prefix();
                        let key = cat(prefix.as_str(), e.name.as_str());
                        self.loading = true;
                        self.view = View::Objects;
                        self.task = Task::Uploading { name: e.name.clone() };
                        Action::Upload { bucket: self.current_bucket.clone(), key, name: e.name }
                    }
                } else {
                    Action::Nothing
                }
            },
            None => Action::Nothing,
        }
    }

    #[verifier::spinoff_prover]
    #[verifier::rlimit(60)]
    fn picker_key(&mut self, code: KeyCode) -> (r: Action)
        ensures
            (final(self)@, r@) == picker_key(old(self)@, code),
    {
        match code {
            KeyCode::Esc | KeyCode::Char('q') => {
                self.view = View::Objects;
                Action::Nothing
            },
            KeyCode::Down | KeyCode::Char('j') => {
                if self.picker_entries.len() > 0 {
                    self.picker_selected = Some(
                        match self.picker_selected {
                            None => 0,
                            Some(i) => i.saturating_add(1),
                        },
                    );
                }
                Action::Nothing
            },
            KeyCode::Up | KeyCode::Char('k') => {
                if self.picker_entries.len() > 0 {
                    self.picker_selected = Some(
                        match self.picker_selected {
                            None => usize::MAX,
                            Some(i) => i.saturating_sub(1),
                        },
                    );
                }
                Action::Nothing
            },
            KeyCode::Home | KeyCode::Char('g') => {
                if self.picker_entries.len() > 0 {
                    self.picker_selected = Some(0);
                }
                Action::Nothing
            },
            KeyCode::End | KeyCode::Char('G') => {
                if self.picker_entries.len() > 0 {
                    self.picker_selected = Some(usize::MAX);
                }
                Action::Nothing
            },
            KeyCode::Char('.') => {
                let show_hidden = !any_hidden_entry(&self.picker_entries);
                self.task = Task::ReadingPicker { show_hidden };
                Action::ReadPicker(PickerTarget::Current)
            },
            KeyCode::Backspace | KeyCode::Left | KeyCode::Char('h') => {
                self.task = Task::ReadingPicker { show_hidden: false };
                Action::ReadPicker(PickerTarget::Parent)
            },
            KeyCode::Enter | KeyCode::Right | KeyCode::Char('l') => self.picker_enter(),
            _ => Action::Nothing,
        }
    }

    fn apply_config(&mut self, p: SavedProfile) -> (r: Action)
        ensures
            (final(self)@, r@) == apply_config(old(self)@, p@),
    {
        let conn = ConnectionParams::from_profile(&p);
        self.connection = conn.duplicate();
        self.buckets = Vec::new();
        self.entries = Vec::new();
        self.prefix_stack = Vec::new();
        self.selected = None;
        assert(self.buckets.deep_view() =~= Seq::<Seq<char>>::empty());
        assert(self.entries.deep_view() =~= Seq::<crate::s3::S3EntryView>::empty());
        assert(self.prefix_stack.deep_view() =~= Seq::<Seq<char>>::empty());
        let bucket = match p.bucket {
            Some(b) => if is_empty_str(b.as_str()) {
                None
            } else {
                Some(b)
            },
            None => None,
        };
        match bucket {
            Some(b) => {
                self.set_bucket_from_arg(b);
                self.view = View::Objects;
                self.task = Task::Connecting { objects: true };
            },
            None => {
                self.view = View::Buckets;
                self.task = Task::Connecting { objects: false };
            },
        }
        Action::Connect(conn)
    }

    fn delete_selected_config(&mut self) -> (r: Action)
        ensures
            (final(self)@, r@) == delete_selected_config(old(self)@),
    {
        self.config_delete_pending = false;
        let i = match self.selected {
            Some(i) => i,
            None => return Action::Nothing,
        };
        if i >= self.configs.len() {
            return Action::Nothing;
        }
        let mut rest = duplicate_profiles(&self.configs);
        let ghost before = rest.deep_view();
        let removed = rest.remove(i);
        assert(rest.deep_view() =~= before.remove(i as int));
        assert(removed@ == before[i as int]);
        let copy = duplicate_profiles(&rest);
        self.task = Task::DeletingConfig { index: i, name: removed.name, profiles: rest };
        Action::SaveConfig(Config { profiles: copy })
    }

    #[verifier::spinoff_prover]
    #[verifier::rlimit(60)]
    fn selector_key(&mut self, code: KeyCode) -> (r: Action)
        ensures
            (final(self)@, r@) == selector_key(old(self)@, code),
    {
        if self.config_delete_pending {
            return match code {
                KeyCode::Char('y') | KeyCode::Char('Y') => self.delete_selected_config(),
                _ => {
                    self.config_delete_pending = false;
                    Action::Nothing
                },
            };
        }
        match code {
            KeyCode::Char('q') | KeyCode::Esc => {
                self.should_exit = true;
                Action::Nothing
            },
            KeyCode::Down | KeyCode::Char('j') => {
                self.select_next();
                Action::Nothing
            },
            KeyCode::Up | KeyCode::Char('k') => {
                self.select_previous();
                Action::Nothing
            },
            KeyCode::Home | KeyCode::Char('g') => {
                self.select_first();
                Action::Nothing
            },
            KeyCode::End | KeyCode::Char('G') => {
                self.select_last();
                Action::Nothing
            },
            KeyCode::Enter | KeyCode::Right | KeyCode::Char('l') => {
                match self.selected {
                    Some(i) => {
                        if i < self.configs.len() {
                            assert(self.configs.deep_view()[i as int] == self.configs@[i as int]@);
                            let p = self.configs[i].duplicate();
                            self.error = None;
                            self.apply_config(p)
                        } else {
                            Action::Nothing
                        }
                    },
                    None => Action::Nothing,
                }
            },
            KeyCode::Char('n') => {
                self.config_form = ConfigForm::default();
                self.error = None;
                self.config_form_origin = View::ConfigSelector;
                self.config_form_edit_index = None;
                self.view = View::ConfigForm;
                Action::Nothing
            },
            KeyCode::Char('e') => {
                match self.selected {
                    Some(i) => {
                        if i < self.configs.len() {
                            assert(self.configs.deep_view()[i as int] == self.configs@[i as int]@);
                            self.config_form = ConfigForm::from_profile(&self.configs[i]);
                            self.error = None;
                            self.config_form_origin = View::ConfigSelector;
                            self.config_form_edit_index = Some(i);
                            self.view = View::ConfigForm;
                        }
                        Action::Nothing
                    },
                    None => Action::Nothing,
                }
            },
            KeyCode::Char('d') | KeyCode::Delete => {
                if self.configs.len() > 0 {
                    self.config_delete_pending = true;
                }
                Action::Nothing
            },
            _ => Action::Nothing,
        }
    }

    fn save_config_form(&mut self) -> (r: Action)
        ensures
            (final(self)@, r@) == save_config_form(old(self)@),
    {
        let p = self.config_form.to_profile();
        if is_empty_str(p.name.as_str()) {
            self.error = Some(String::from_str("Config name is required"));
            return Action::Nothing;
        }
        let profiles = upsert_profile(&self.configs, self.config_form_edit_index, &p);
        let copy = duplicate_profiles(&profiles);
        self.task = Task::SavingForm { profiles, name: p.name };
        Action::SaveConfig(Config { profiles: copy })
    }

    fn form_key(&mut self, key: Key) -> (r: Action)
        requires
            field_step_fits(old(self).config_form.field, key.code),
        ensures
            (final(self)@, r@) == form_key(old(self)@, key),
    {
        if key.ctrl && key.code == KeyCode::Char('s') {
            return self.save_config_form();
        }
        match key.code {
            KeyCode::Esc => {
                self.config_form.clear();
                self.error = None;
                self.config_form_edit_index = None;
                self.view = self.config_form_origin;
                Action::Nothing
            },
            KeyCode::Tab | KeyCode::Down => {
                self.config_form.next_field();
                Action::Nothing
            },
            KeyCode::BackTab | KeyCode::Up => {
                self.config_form.prev_field();
                Action::Nothing
            },
            KeyCode::Enter => self.save_config_form(),
            KeyCode::Left => {
                self.config_form.move_left();
                Action::Nothing
            },
            KeyCode::Right => {
                self.config_form.move_right();
                Action::Nothing
            },
            KeyCode::Home => {
                self.config_form.move_home();
                Action::Nothing
            },
            KeyCode::End => {
                self.config_form.move_end();
                Action::Nothing
            },
            KeyCode::Backspace => {
                self.config_form.delete_before();
                Action::Nothing
            },
            KeyCode::Delete => {
                self.config_form.delete_at();
                Action::Nothing
            },
            KeyCode::Char(c) => {
                if !(key.ctrl || key.alt) {
                    self.config_form.insert_char(c);
                }
                Action::Nothing
            },
            _ => Action::Nothing,
        }
    }

    /// Handles a key on the current screen (clearing the error line first on
    /// the bucket and object lists) and returns the outside work it asks for.
    pub fn on_key(&mut self, key: Key) -> (r: Action)
        requires
            old(self)@.view == View::ConfigForm ==> field_step_fits(old(self)@.config_form.field, key.code),
        ensures
            (final(self)@, r@) == spec_on_key(old(self)@, key),
    {
        match self.view {
            View::FilePreview => self.preview_key(key.code),
            View::FileEdit => self.edit_key(key),
            View::DownloadPrompt => self.download_key(key.code),
            View::DeleteConfirm => self.delete_confirm_key(key.code),
            View::CreateFolder => self.create_key(key.code, true),
            View::CreateFile => self.create_key(key.code, false),
            View::FilePicker => self.picker_key(key.code),
            View::ConfigSelector => self.selector_key(key.code),
            View::ConfigForm => self.form_key(key),
            _ => {
                self.error = None;
                self.list_key(key.code)
            },
        }
    }
}

/// The message outcome of writing the configuration file.
pub open spec fn save_outcome(r: Result<(), SaveFailure>) -> Result<(), Seq<char>> {
    match r {
        Ok(()) => Ok(()),
        Err(f) => Err(crate::config::save_failure_message(f)),
    }
}

impl App {
    /// The client for a new connection is ready.
    pub fn on_connected(&mut self) -> (r: Action)
        ensures
            (final(self)@, r@) == spec_on_connected(old(self)@),
    {
        let objects = match self.task {
            Task::Connecting { objects } => objects,
            _ => return Action::Nothing,
        };
        self.task = Task::Idle;
        if objects {
            self.load_objects(false)
        } else {
            self.load_buckets()
        }
    }

    /// The bucket listing finished: the names of the buckets (some may lack
    /// one), or the cause of the failure.
    pub fn on_buckets_listed(&mut self, r: Result<Vec<Option<String>>, String>) -> (a: Action)
        ensures
            (final(self)@, a@) == spec_on_buckets(
                old(self)@,
                match r {
                    Ok(v) => Ok(v@.map_values(|o: Option<String>| opt_view(o))),
                    Err(e) => Err(e@),
                },
            ),
    {
        match self.task {
            Task::ListingBuckets => {},
            _ => return Action::Nothing,
        }
        match r {
            Ok(names) => {
                let b = named_strings(&names);
                self.selected = if b.len() > 0 {
                    Some(0)
                } else {
                    None
                };
                self.buckets = b;
            },
            Err(e) => {
                self.error = Some(cat("Failed to list buckets: ", e.as_str()));
            },
        }
        self.loading = false;
        self.task = Task::Idle;
        Action::Nothing
    }

    /// A page of the object listing arrived, or the listing failed.
    #[verifier::spinoff_prover]
    #[verifier::rlimit(60)]
    pub fn on_objects_page(&mut self, r: Result<ObjectPage, String>) -> (a: Action)
        ensures
            (final(self)@, a@) == spec_on_objects_page(
                old(self)@,
                match r {
                    Ok(p) => Ok(p@),
                    Err(e) => Err(e@),
                },
            ),
    {
        let mut t = Task::Idle;
        core::mem::swap(&mut t, &mut self.task);
        match t {
            Task::ListingObjects { bucket, listed, mut acc, then_objects } => {
                match r {
                    Err(e) => {
                        self.error = Some(cat("Failed to list objects: ", e.as_str()));
                        self.entries = Vec::new();
                        assert(self.entries.deep_view() =~= Seq::<crate::s3::S3EntryView>::empty());
                        self.selected = None;
                        if then_objects {
                            self.view = View::Objects;
                        }
                        self.loading = false;
                        Action::Nothing
                    },
                    Ok(page) => {
                        push_page_entries(&mut acc, listed.as_str(), &page);
                        let truncated = match page.is_truncated {
                            Some(b) => b,
                            None => false,
                        };
                        if truncated {
                            let prefix = if is_empty_str(listed.as_str()) {
                                None
                            } else {
                                Some(listed.clone())
                            };
                            let token = clone_opt(&page.next_token);
                            let b = bucket.clone();
                            self.task = Task::ListingObjects { bucket, listed, acc, then_objects };
                            Action::ListObjects { bucket: b, prefix, token }
                        } else {
                            let es = sort_entries(&acc);
                            self.selected = if es.len() > 0 {
                                Some(0)
                            } else {
                                None
                            };
                            self.entries = es;
                            if then_objects {
                                self.view = View::Objects;
                            }
                            self.loading = false;
                            Action::Nothing
                        }
                    },
                }
            },
            other => {
                self.task = other;
                Action::Nothing
            },
        }
    }

    /// The object to preview arrived (its bytes), or fetching it failed.
    pub fn on_object_fetched(&mut self, r: Result<Vec<u8>, TransferFailure>) -> (a: Action)
        ensures
            (final(self)@, a@) == spec_on_fetched(
                old(self)@,
                match r {
                    Ok(b) => Ok(b@),
                    Err(f) => Err(f@),
                },
            ),
    {
        let mut t = Task::Idle;
        core::mem::swap(&mut t, &mut self.task);
        match t {
            Task::Previewing { name } => {
                match r {
                    Ok(bytes) => {
                        self.preview_content = decode_utf8_lossy(bytes.as_slice());
                        self.preview_name = name;
                        self.preview_scroll = 0;
                        self.view = View::FilePreview;
                    },
                    Err(f) => {
                        self.error = Some(transfer_failure_message(&f));
                    },
                }
                self.loading = false;
                Action::Nothing
            },
            other => {
                self.task = other;
                Action::Nothing
            },
        }
    }

    /// An object was written (the editor's text, or a new folder or file),
    /// or writing it failed.
    #[verifier::spinoff_prover]
    #[verifier::rlimit(60)]
    pub fn on_object_put(&mut self, r: Result<(), String>) -> (a: Action)
        ensures
            (final(self)@, a@) == spec_on_put(
                old(self)@,
                match r {
                    Ok(()) => Ok(()),
                    Err(e) => Err(e@),
                },
            ),
    {
        let mut t = Task::Idle;
        core::mem::swap(&mut t, &mut self.task);
        match t {
            Task::SavingEditor { content } => match r {
                Ok(()) => {
                    self.error = Some(cat("Saved ", self.editor_name.as_str()));
                    self.editor_modified = false;
                    self.preview_content = content;
                    self.preview_scroll = 0;
                    self.view = View::FilePreview;
                    self.load_objects(false)
                },
                Err(e) => {
                    self.error = Some(cat("Failed to upload object: ", e.as_str()));
                    self.loading = false;
                    Action::Nothing
                },
            },
            Task::Creating { folder, name } => match r {
                Ok(()) => {
                    if folder {
                        proof {
                            crate::text::lemma_slash();
                        }
                        self.error = Some(cat3("Created folder ", name.as_str(), "/"));
                        self.new_folder_input = String::new();
                    } else {
                        self.error = Some(cat("Created file ", name.as_str()));
                        self.new_file_input = String::new();
                    }
                    self.load_objects(false)
                },
                Err(e) => {
                    self.error = Some(cat("Failed to upload object: ", e.as_str()));
                    self.loading = false;
                    Action::Nothing
                },
            },
            other => {
                self.task = other;
                Action::Nothing
            },
        }
    }

    /// The download finished (with the local path it wrote, as shown to the
    /// user), or failed.
    pub fn on_downloaded(&mut self, r: Result<String, TransferFailure>) -> (a: Action)
        ensures
            (final(self)@, a@) == spec_on_downloaded(
                old(self)@,
                match r {
                    Ok(d) => Ok(d@),
                    Err(f) => Err(f@),
                },
            ),
    {
        match self.task {
            Task::Downloading => {},
            _ => return Action::Nothing,
        }
        match r {
            Ok(dest) => {
                self.error = Some(cat("Downloaded to ", dest.as_str()));
                self.download_input = String::new();
            },
            Err(f) => {
                self.error = Some(transfer_failure_message(&f));
            },
        }
        self.loading = false;
        self.task = Task::Idle;
        Action::Nothing
    }

    /// Carries out the next step of a folder download.
    fn folder_step(
        &mut self,
        bucket: String,
        root: String,
        d: PrefixDownload,
        st: Result<DownloadStep, String>,
    ) -> (a: Action)
        ensures
            (final(self)@, a@) == folder_step(
                old(self)@,
                bucket@,
                root@,
                d@,
                match st {
                    Ok(x) => Ok(x@),
                    Err(m) => Err(m@),
                },
            ),
    {
        match st {
            Err(m) => {
                self.error = Some(m);
                self.loading = false;
                self.task = Task::Idle;
                Action::Nothing
            },
            Ok(DownloadStep::Done(n)) => {
                let mut m = cat3("Downloaded ", decimal_string(n as u64).as_str(), " files to ");
                m.append(root.as_str());
                self.error = Some(m);
                self.download_input = String::new();
                self.loading = false;
                self.task = Task::Idle;
                Action::Nothing
            },
            Ok(DownloadStep::ListPage { prefix, token }) => {
                let b = bucket.clone();
                self.task = Task::DownloadingFolder { bucket, root, download: d };
                Action::ListForDownload { bucket: b, prefix, token }
            },
            Ok(DownloadStep::Fetch { key, parts }) => {
                let b = bucket.clone();
                let r = root.clone();
                self.task = Task::DownloadingFolder { bucket, root, download: d };
                Action::WriteFile { bucket: b, key, root: r, parts }
            },
        }
    }

    /// The local directory of a folder download is known: `root`, as shown
    /// to the user.
    pub fn on_download_root(&mut self, root: String) -> (a: Action)
        ensures
            (final(self)@, a@) == spec_on_download_root(old(self)@, root@),
    {
        let mut t = Task::Idle;
        core::mem::swap(&mut t, &mut self.task);
        match t {
            Task::AwaitingDownloadRoot { bucket, prefix } => {
                let (d, st) = PrefixDownload::new(prefix.as_str());
                self.folder_step(bucket, root, d, Ok(st))
            },
            other => {
                self.task = other;
                Action::Nothing
            },
        }
    }

    /// A page of the keys under the folder being downloaded arrived, or
    /// listing failed.
    pub fn on_download_page(&mut self, r: Result<KeyPage, String>) -> (a: Action)
        ensures
            (final(self)@, a@) == spec_on_download_page(
                old(self)@,
                match r {
                    Ok(p) => Ok(p@),
                    Err(e) => Err(e@),
                },
            ),
    {
        let mut t = Task::Idle;
        core::mem::swap(&mut t, &mut self.task);
        match t {
            Task::DownloadingFolder { bucket, root, mut download } => {
                let st = download.on_page(r);
                self.folder_step(bucket, root, download, st)
            },
            other => {
                self.task = other;
                Action::Nothing
            },
        }
    }

    /// The file being written by a folder download was written, or writing
    /// it failed.
    pub fn on_file_written(&mut self, r: Result<(), FileFailure>) -> (a: Action)
        ensures
            (final(self)@, a@) == spec_on_file_written(
                old(self)@,
                match r {
                    Ok(()) => Ok(()),
                    Err(f) => Err(f@),
                },
            ),
    {
        let mut t = Task::Idle;
        core::mem::swap(&mut t, &mut self.task);
        match t {
            Task::DownloadingFolder { bucket, root, mut download } => {
                if download.has_current_file() {
                    let st = download.on_file_written(r);
                    self.folder_step(bucket, root, download, st)
                } else {
                    self.task = Task::DownloadingFolder { bucket, root, download };
                    Action::Nothing
                }
            },
            other => {
                self.task = other;
                Action::Nothing
            },
        }
    }

    /// The upload finished, or failed.
    pub fn on_uploaded(&mut self, r: Result<(), TransferFailure>) -> (a: Action)
        ensures
            (final(self)@, a@) == spec_on_uploaded(
                old(self)@,
                match r {
                    Ok(()) => Ok(()),
                    Err(f) => Err(f@),
                },
            ),
    {
        let mut t = Task::Idle;
        core::mem::swap(&mut t, &mut self.task);
        match t {
            Task::Uploading { name } => match r {
                Ok(()) => {
                    self.error = Some(cat("Uploaded ", name.as_str()));
                    self.load_objects(false)
                },
                Err(f) => {
                    self.error = Some(transfer_failure_message(&f));
                    self.loading = false;
                    Action::Nothing
                },
            },
            other => {
                self.task = other;
                Action::Nothing
            },
        }
    }

    fn delete_prefix_advance(&mut self) -> (a: Action)
        ensures
            (final(self)@, a@) == delete_prefix_advance(old(self)@),
    {
        let mut t = Task::Idle;
        core::mem::swap(&mut t, &mut self.task);
        match t {
            Task::DeletingPrefix { name, bucket, prefix, deleted, keys, next, more, token } => {
                if next < keys.len() {
                    assert(keys.deep_view()[next as int] == keys@[next as int]@);
                    let key = keys[next].clone();
                    let b = bucket.clone();
                    self.task = Task::DeletingPrefix {
                        name,
                        bucket,
                        prefix,
                        deleted,
                        keys,
                        next,
                        more,
                        token,
                    };
                    Action::DeleteObject { bucket: b, key }
                } else if more {
                    let b = bucket.clone();
                    let p = prefix.clone();
                    let tok = clone_opt(&token);
                    self.task = Task::DeletingPrefix {
                        name,
                        bucket,
                        prefix,
                        deleted,
                        keys,
                        next,
                        more,
                        token,
                    };
                    Action::ListPrefix { bucket: b, prefix: p, token: tok }
                } else {
                    let count = decimal_string(deleted as u64);
                    let mut msg = cat3("Deleted ", name.as_str(), "/ (");
                    msg.append(count.as_str());
                    msg.append(" objects)");
                    self.error = Some(msg);
                    self.load_objects(false)
                }
            },
            other => {
                self.task = other;
                Action::Nothing
            },
        }
    }

    /// A page of the keys under the folder being deleted arrived, or
    /// listing them failed.
    pub fn on_prefix_page(&mut self, r: Result<KeyPage, String>) -> (a: Action)
        ensures
            (final(self)@, a@) == spec_on_prefix_page(
                old(self)@,
                match r {
                    Ok(p) => Ok(p@),
                    Err(e) => Err(e@),
                },
            ),
    {
        let mut t = Task::Idle;
        core::mem::swap(&mut t, &mut self.task);
        match t {
            Task::DeletingPrefix { name, bucket, prefix, deleted, keys, next, more, token } => match r {
                Err(e) => {
                    self.error = Some(cat("Failed to list objects for deletion: ", e.as_str()));
                    self.loading = false;
                    Action::Nothing
                },
                Ok(page) => {
                    let ks = named_strings(&page.keys);
                    let m = match page.is_truncated {
                        Some(b) => b,
                        None => false,
                    };
                    self.task = Task::DeletingPrefix {
                        name,
                        bucket,
                        prefix,
                        deleted,
                        keys: ks,
                        next: 0,
                        more: m,
                        token: page.next_token,
                    };
                    self.delete_prefix_advance()
                },
            },
            other => {
                self.task = other;
                Action::Nothing
            },
        }
    }

    /// An object was deleted, or deleting it failed.
    #[verifier::spinoff_prover]
    #[verifier::rlimit(60)]
    pub fn on_object_deleted(&mut self, r: Result<(), String>) -> (a: Action)
        ensures
            (final(self)@, a@) == spec_on_deleted(
                old(self)@,
                match r {
                    Ok(()) => Ok(()),
                    Err(e) => Err(e@),
                },
            ),
    {
        let mut t = Task::Idle;
        core::mem::swap(&mut t, &mut self.task);
        match t {
            Task::DeletingObject { name } => match r {
                Ok(()) => {
                    self.error = Some(cat("Deleted ", name.as_str()));
                    self.load_objects(false)
                },
                Err(e) => {
                    self.error = Some(cat("Failed to delete object: ", e.as_str()));
                    self.loading = false;
                    Action::Nothing
                },
            },
            Task::DeletingPrefix { name, bucket, prefix, deleted, keys, next, more, token } => {
                if next < keys.len() {
                    match r {
                        Ok(()) => {
                            self.task = Task::DeletingPrefix {
                                name,
                                bucket,
                                prefix,
                                deleted: deleted.wrapping_add(1),
                                keys,
                                next: next + 1,
                                more,
                                token,
                            };
                            self.delete_prefix_advance()
                        },
                        Err(e) => {
                            assert(keys.deep_view()[next as int] == keys@[next as int]@);
                            let mut msg = cat3("Failed to delete ", keys[next].as_str(), ": ");
                            msg.append(e.as_str());
                            self.error = Some(msg);
                            self.loading = false;
                            Action::Nothing
                        },
                    }
                } else {
                    self.task = Task::DeletingPrefix {
                        name,
                        bucket,
                        prefix,
                        deleted,
                        keys,
                        next,
                        more,
                        token,
                    };
                    Action::Nothing
                }
            },
            other => {
                self.task = other;
                Action::Nothing
            },
        }
    }

    /// Writing the configuration file finished, or failed at some step.
    pub fn on_config_saved(&mut self, r: Result<(), SaveFailure>) -> (a: Action)
        ensures
            (final(self)@, a@) == spec_on_config_saved(old(self)@, save_outcome(r)),
    {
        let ghost rv = save_outcome(r);
        let outcome = save(r);
        let mut t = Task::Idle;
        core::mem::swap(&mut t, &mut self.task);
        match t {
            Task::SavingForm { profiles, name } => match outcome {
                Ok(()) => {
                    let pos = position_by_name(&profiles, name.as_str());
                    self.configs = profiles;
                    self.error = Some(cat("Saved config ", name.as_str()));
                    self.config_form.clear();
                    self.config_form_edit_index = None;
                    self.view = self.config_form_origin;
                    if self.config_form_origin == View::ConfigSelector {
                        match pos {
                            Some(i) => {
                                self.selected = Some(i);
                            },
                            None => {},
                        }
                    }
                    Action::Nothing
                },
                Err(e) => {
                    self.error = Some(e);
                    Action::Nothing
                },
            },
            Task::DeletingConfig { index, name, profiles } => match outcome {
                Ok(()) => {
                    let n = profiles.len();
                    self.configs = profiles;
                    self.error = Some(cat("Deleted config ", name.as_str()));
                    self.selected = if n == 0 {
                        None
                    } else if index < n {
                        Some(index)
                    } else {
                        Some(n - 1)
                    };
                    Action::Nothing
                },
                Err(e) => {
                    self.error = Some(e);
                    Action::Nothing
                },
            },
            other => {
                self.task = other;
                Action::Nothing
            },
        }
    }

    /// A directory was read for the file picker: its items.
    pub fn on_picker_listed(&mut self, items: Vec<DirItem>)
        ensures
            final(self)@ == spec_on_picker_listed(old(self)@, items.deep_view()),
    {
        let show_hidden = match self.task {
            Task::ReadingPicker { show_hidden } => show_hidden,
            _ => return ,
        };
        let es = arrange_picker(&items, show_hidden);
        self.picker_selected = if es.len() > 0 {
            Some(0)
        } else {
            None
        };
        self.picker_entries = es;
        self.task = Task::Idle;
    }

    /// The editor's lines, asked for by `SubmitEditor`.
    pub fn on_editor_lines(&mut self, lines: Vec<String>) -> (a: Action)
        ensures
            (final(self)@, a@) == spec_on_editor_lines(old(self)@, lines.deep_view()),
    {
        match self.task {
            Task::AwaitingEditor => {},
            _ => return Action::Nothing,
        }
        let content = join_lines(&lines);
        self.loading = true;
        self.task = Task::SavingEditor { content: content.clone() };
        Action::PutObject {
            bucket: self.current_bucket.clone(),
            key: self.editor_key.clone(),
            content,
        }
    }
}

/// Whether the browser opens on the configuration selector: no connection
/// flag was given and at least one configuration is saved.
pub fn starts_in_selector(args: &Args, configs: &Vec<SavedProfile>) -> (r: bool)
    ensures
        r == (!spec_has_connection_flags(*args) && configs.len() > 0),
{
    !has_connection_flags(args) && configs.len() > 0
}

} // verus!
