//! Properties of the browser that span several steps.
use vstd::prelude::*;
use vstd::view::View as _;
use crate::text::{find_char, join, lines, strip_cr};
use crate::model::{
    any_hidden, current_prefix, editor_lines, named, spec_on_editor_lines, prefix_arg,
    save_config_form, spec_on_config_saved, spec_on_deleted, spec_on_key, spec_on_objects_page,
    spec_on_picker_listed, spec_on_prefix_page, spec_start, load_objects, ActionView, AppView, Key, KeyCode,
    KeyPageView, PageView, PickerTargetView, TaskView, View,
};
use crate::text::decimal;
use crate::model::is_text;
use crate::download::{files_of, PrefixDownloadView};
use crate::model::{
    folder_downloaded_message, spec_on_download_page, spec_on_download_root, spec_on_file_written,
};
use crate::picker::{
    lemma_listed_len, lemma_listed_visible, lemma_listed_without_hidden,
    lemma_sorted_picker_elements, listed_entries, lower_names, picker_listing, starts_with_dot,
    DirItemView,
};

verus! {

/// Opening a folder and going back: the folder's listing is asked for, and
/// once it is shown, going back restores the prefix stack and lists the
/// folder that was open before, whatever the listing returned.
pub proof fn law_open_folder_then_back(s: AppView, i: usize, r: Result<PageView, Seq<char>>)
    requires
        s.view == View::Objects,
        !s.quit_pending,
        s.prefix_stack.len() >= 1,
        s.selected == Some(i),
        i < s.entries.len(),
        s.entries[i as int].is_dir,
        r matches Ok(p) ==> p.is_truncated != Some(true),
    ensures
        ({
            let open = Key { code: KeyCode::Enter, ctrl: false, alt: false };
            let back = Key { code: KeyCode::Backspace, ctrl: false, alt: false };
            let (s1, a1) = spec_on_key(s, open);
            let (s2, a2) = spec_on_objects_page(s1, r);
            let (s3, a3) = spec_on_key(s2, back);
            &&& a1 == ActionView::ListObjects {
                bucket: s.current_bucket,
                prefix: Some(current_prefix(s) + s.entries[i as int].name + seq!['/']),
                token: None,
            }
            &&& s1.prefix_stack == s.prefix_stack.push(
                current_prefix(s) + s.entries[i as int].name + seq!['/'],
            )
            &&& a2 == ActionView::Nothing
            &&& s2.view == View::Objects
            &&& s3.prefix_stack == s.prefix_stack
            &&& a3 == ActionView::ListObjects {
                bucket: s.current_bucket,
                prefix: prefix_arg(current_prefix(s)),
                token: None,
            }
        }),
{
    let open = Key { code: KeyCode::Enter, ctrl: false, alt: false };
    let (s1, a1) = spec_on_key(s, open);
    let np = current_prefix(s) + s.entries[i as int].name + seq!['/'];
    assert(np.len() > 0);
    assert(s1.prefix_stack == s.prefix_stack.push(np));
    assert(s1.prefix_stack.drop_last() =~= s.prefix_stack);
}

/// `Esc` inside a folder goes up one level, exactly as `Backspace` does.
pub proof fn law_esc_goes_up_one_level(s: AppView, ctrl: bool, alt: bool)
    requires
        s.view == View::Objects,
        !s.quit_pending,
        s.prefix_stack.len() > 1,
    ensures
        spec_on_key(s, Key { code: KeyCode::Esc, ctrl, alt }) == spec_on_key(
            s,
            Key { code: KeyCode::Backspace, ctrl, alt },
        ),
{
}

/// `Esc` on the bucket list quits.
pub proof fn law_esc_on_bucket_list_quits(s: AppView, ctrl: bool, alt: bool)
    requires
        s.view == View::Buckets,
        !s.quit_pending,
    ensures
        spec_on_key(s, Key { code: KeyCode::Esc, ctrl, alt }).0.should_exit,
        spec_on_key(s, Key { code: KeyCode::Esc, ctrl, alt }).1 == ActionView::Nothing,
{
}

/// `Esc` at a bucket root asks to confirm quitting and quits nothing yet;
/// then `y` quits, and any other key cancels, leaving the browser as it was
/// before `Esc` (with the error line cleared).
pub proof fn law_esc_at_root_asks_to_quit(s: AppView, k: Key)
    requires
        s.view == View::Objects,
        s.prefix_stack.len() <= 1,
        !s.quit_pending,
        k.code != KeyCode::Char('y'),
        k.code != KeyCode::Char('Y'),
    ensures
        ({
            let esc = Key { code: KeyCode::Esc, ctrl: false, alt: false };
            let yes = Key { code: KeyCode::Char('y'), ctrl: false, alt: false };
            let (s1, a1) = spec_on_key(s, esc);
            let (s2, a2) = spec_on_key(s1, yes);
            &&& a1 == ActionView::Nothing
            &&& s1.quit_pending
            &&& s1.should_exit == s.should_exit
            &&& s2.should_exit
            &&& a2 == ActionView::Nothing
            &&& spec_on_key(s1, k) == (AppView { error: None, ..s }, ActionView::Nothing)
        }),
{
}

/// `Enter` on a file of the object list acts on that file inside the folder
/// being browsed: a text file is fetched by its full key, the prefix
/// followed by its name; any other file gets the download prompt for that
/// same key. The prefix is the top of the prefix stack.
pub proof fn law_enter_file_uses_full_key(s: AppView, i: usize)
    requires
        s.view == View::Objects,
        !s.quit_pending,
        s.selected == Some(i),
        i < s.entries.len(),
        !s.entries[i as int].is_dir,
    ensures
        ({
            let e = s.entries[i as int];
            let key = current_prefix(s) + e.name;
            let (s1, a1) = spec_on_key(s, Key { code: KeyCode::Enter, ctrl: false, alt: false });
            &&& is_text(e.name) ==> a1 == ActionView::GetObject { bucket: s.current_bucket, key }
            &&& !is_text(e.name) ==> a1 == ActionView::Nothing && s1.view == View::DownloadPrompt
                && s1.download_key == key && s1.download_name == e.name && !s1.download_is_dir
        }),
        s.prefix_stack.len() > 0 ==> current_prefix(s) == s.prefix_stack.last(),
{
}

/// `Enter` in the new-folder or new-file prompt creates the object inside
/// the folder being browsed: an empty object whose key is the prefix, the
/// trimmed name, and for a folder a final `/`; a blank name creates nothing.
pub proof fn law_create_in_current_folder(s: AppView, folder: bool)
    requires
        s.view == (if folder { View::CreateFolder } else { View::CreateFile }),
    ensures
        ({
            let input = if folder { s.new_folder_input } else { s.new_file_input };
            let name = crate::text::trim(input);
            let (s1, a1) = spec_on_key(s, Key { code: KeyCode::Enter, ctrl: false, alt: false });
            &&& name.len() > 0 ==> a1 == ActionView::PutObject {
                bucket: s.current_bucket,
                key: if folder {
                    current_prefix(s) + name + seq!['/']
                } else {
                    current_prefix(s) + name
                },
                content: seq![],
            }
            &&& name.len() == 0 ==> a1 == ActionView::Nothing && s1.view == View::Objects
        }),
{
}

/// `d` then `y` on the object list deletes exactly the selected entry inside
/// the folder being browsed: a file by its full key (prefix and name), a
/// folder by its full key with a final `/`, page by page.
pub proof fn law_delete_selected_entry(s: AppView, i: usize)
    requires
        s.view == View::Objects,
        !s.quit_pending,
        s.selected == Some(i),
        i < s.entries.len(),
    ensures
        ({
            let e = s.entries[i as int];
            let d = Key { code: KeyCode::Char('d'), ctrl: false, alt: false };
            let y = Key { code: KeyCode::Char('y'), ctrl: false, alt: false };
            let (s1, a1) = spec_on_key(s, d);
            let (s2, a2) = spec_on_key(s1, y);
            &&& a1 == ActionView::Nothing
            &&& s1.view == View::DeleteConfirm
            &&& s1.delete_target_name == e.name
            &&& !e.is_dir ==> s1.delete_target_key == current_prefix(s) + e.name
                && a2 == ActionView::DeleteObject { bucket: s.current_bucket, key: current_prefix(s) + e.name }
            &&& e.is_dir ==> s1.delete_target_key == current_prefix(s) + e.name + seq!['/']
                && a2 == ActionView::ListPrefix {
                bucket: s.current_bucket,
                prefix: current_prefix(s) + e.name + seq!['/'],
                token: None,
            }
        }),
{
}

/// `Enter` on a file in the picker uploads it into the folder being
/// browsed: its key is the prefix followed by the file's name.
pub proof fn law_upload_into_current_folder(s: AppView, i: usize)
    requires
        s.view == View::FilePicker,
        s.picker_selected == Some(i),
        i < s.picker_entries.len(),
        !s.picker_entries[i as int].is_dir,
    ensures
        ({
            let e = s.picker_entries[i as int];
            let (s1, a1) = spec_on_key(s, Key { code: KeyCode::Enter, ctrl: false, alt: false });
            &&& a1 == ActionView::Upload {
                bucket: s.current_bucket,
                key: current_prefix(s) + e.name,
                name: e.name,
            }
            &&& s1.view == View::Objects
            &&& s1.loading
        }),
{
}

/// Whether hidden entries are shown in the picker listing of `items`: with
/// them shown, an entry is hidden exactly when some listed entry is.
proof fn lemma_listing_hidden(items: Seq<DirItemView>)
    requires
        items.len() <= usize::MAX,
    ensures
        !any_hidden(picker_listing(items, false)),
        !any_hidden(picker_listing(items, true)) ==> picker_listing(items, true) == picker_listing(
            items,
            false,
        ),
{
    let e0 = listed_entries(items, false);
    let e1 = listed_entries(items, true);
    lemma_listed_len(items, false);
    lemma_listed_len(items, true);
    lemma_listed_visible(items);
    lemma_sorted_picker_elements(e0, lower_names(e0));
    lemma_sorted_picker_elements(e1, lower_names(e1));
    let l0 = picker_listing(items, false);
    let l1 = picker_listing(items, true);
    assert forall|i: int| 0 <= i < l0.len() implies !starts_with_dot(#[trigger] l0[i].name) by {
        assert(e0.contains(l0[i]));
        let k = choose|k: int| 0 <= k < e0.len() && e0[k] == l0[i];
        assert(!starts_with_dot(e0[k].name));
    }
    if !any_hidden(l1) {
        assert forall|k: int| 0 <= k < e1.len() implies !starts_with_dot(#[trigger] e1[k].name) by {
            assert(l1.contains(e1[k]));
            let i = choose|i: int| 0 <= i < l1.len() && l1[i] == e1[k];
            assert(!starts_with_dot(l1[i].name));
        }
        lemma_listed_without_hidden(items);
    }
}

/// `.` in the file picker shows hidden files when none is shown, and a
/// second `.` in the same directory hides them again: the listing is then
/// the one the picker showed before.
pub proof fn law_toggle_hidden_twice(s: AppView, items: Seq<DirItemView>)
    requires
        s.view == View::FilePicker,
        s.picker_entries == picker_listing(items, false),
        items.len() <= usize::MAX,
    ensures
        ({
            let dot = Key { code: KeyCode::Char('.'), ctrl: false, alt: false };
            let (s1, a1) = spec_on_key(s, dot);
            let s2 = spec_on_picker_listed(s1, items);
            let (s3, a3) = spec_on_key(s2, dot);
            let s4 = spec_on_picker_listed(s3, items);
            &&& a1 == ActionView::ReadPicker(PickerTargetView::Current)
            &&& s2.picker_entries == picker_listing(items, true)
            &&& a3 == ActionView::ReadPicker(PickerTargetView::Current)
            &&& s4.picker_entries == s.picker_entries
        }),
{
    lemma_listing_hidden(items);
}

/// Scrolling the preview down by a line or a page and back up by the same
/// amount returns to the same position, unless the bottom limit was hit.
pub proof fn law_preview_scroll_round_trip(s: AppView, page: bool)
    requires
        s.view == View::FilePreview,
        s.preview_scroll as int + 20 <= u16::MAX,
    ensures
        ({
            let down = Key {
                code: if page { KeyCode::PageDown } else { KeyCode::Down },
                ctrl: false,
                alt: false,
            };
            let up = Key { code: if page { KeyCode::PageUp } else { KeyCode::Up }, ctrl: false, alt: false };
            let (s1, _) = spec_on_key(s, down);
            let (s2, _) = spec_on_key(s1, up);
            s2 == s
        }),
{
}

/// Startup: with a connection flag the browser does not open the
/// configuration selector; opened on the selector it asks for no listing and
/// selects the first configuration; otherwise it opens the starting bucket
/// when one was given, or lists the buckets.
pub proof fn law_startup(s: AppView)
    requires
        s.loading,
    ensures
        s.view == View::ConfigSelector ==> spec_start(s).1 == ActionView::Nothing && !spec_start(
            s,
        ).0.loading && (s.configs.len() > 0 ==> spec_start(s).0.selected == Some(0usize)),
        s.view != View::ConfigSelector && s.initial_bucket is None ==> spec_start(s).1
            == ActionView::ListBuckets,
        s.view != View::ConfigSelector && s.initial_bucket is Some ==> spec_start(s).0.view
            == View::Objects && spec_start(s).1 is ListObjects && spec_start(s).0.initial_bucket is None,
{
}

/// Saving a form whose name is blank saves nothing: no configuration is
/// written, the saved list is unchanged and the form stays open with the
/// message that a name is required.
pub proof fn law_blank_name_saves_nothing(s: AppView)
    requires
        crate::text::trim(s.config_form.name).len() == 0,
    ensures
        save_config_form(s).1 == ActionView::Nothing,
        save_config_form(s).0.configs == s.configs,
        save_config_form(s).0.view == s.view,
        save_config_form(s).0.error == Some(crate::model::name_required_message()),
{
}

/// Cancelling the form (Esc) writes nothing, leaves the saved list as it is
/// and returns to the screen the form was opened from.
pub proof fn law_form_cancel(s: AppView)
    requires
        s.view == View::ConfigForm,
    ensures
        ({
            let (s1, a1) = spec_on_key(s, Key { code: KeyCode::Esc, ctrl: false, alt: false });
            &&& a1 == ActionView::Nothing
            &&& s1.configs == s.configs
            &&& s1.view == s.config_form_origin
            &&& s1.config_form == crate::form::empty_form()
        }),
{
}

/// A saved configuration list is written only by saving the form or by
/// confirming the deletion of a configuration: no other key writes it.
pub proof fn law_only_form_and_delete_write_configs(s: AppView, key: Key)
    requires
        spec_on_key(s, key).1 is SaveConfig,
    ensures
        s.view == View::ConfigForm || (s.view == View::ConfigSelector && s.config_delete_pending),
{
}

/// Saving a new configuration on the selector, with names unique: once the
/// list is written the saved list holds the form's profile and the
/// selection is on it; if writing fails, the saved list is unchanged and the
/// failure is shown.
pub proof fn law_saved_profile_is_selected(s: AppView, r: Result<(), Seq<char>>)
    requires
        s.config_form_origin == View::ConfigSelector,
        s.config_form_edit_index is None,
        crate::config::names_unique(s.configs),
        s.configs.len() < usize::MAX,
        crate::text::trim(s.config_form.name).len() > 0,
    ensures
        ({
            let (s1, _) = save_config_form(s);
            let (s2, _) = spec_on_config_saved(s1, r);
            let p = crate::form::form_profile(s.config_form);
            &&& r is Ok ==> (s2.selected matches Some(k) && k < s2.configs.len() && s2.configs[k as int]
                == p && s2.view == View::ConfigSelector)
            &&& r matches Err(e) ==> s2.configs == s.configs && s2.error == Some(e)
        }),
{
    let p = crate::form::form_profile(s.config_form);
    crate::config::law_upsert_stores_profile(s.configs, s.config_form_edit_index, p);
    let profiles = crate::config::upsert(s.configs, s.config_form_edit_index, p);
    crate::config::lemma_find_named(profiles, p.name);
    let f = crate::config::find_named(profiles, p.name);
    assert(f >= 0 && profiles[f] == p);
    let (s1, _) = save_config_form(s);
    assert(s1.task == TaskView::SavingForm { profiles, name: p.name });
    if r is Ok {
        let (s2, _) = spec_on_config_saved(s1, r);
        assert(s2.selected == Some(f as usize));
        assert(s2.configs == profiles);
    }
}

/// Deleting the selected configuration (`y` after `d`): once the list is
/// written, exactly that entry is gone and the selection stays on a row of
/// the list (none when it is empty); if writing fails, the saved list is
/// unchanged and the failure is shown.
pub proof fn law_delete_config(s: AppView, i: usize, r: Result<(), Seq<char>>)
    requires
        s.view == View::ConfigSelector,
        s.config_delete_pending,
        s.selected == Some(i),
        i < s.configs.len(),
        s.configs.len() <= usize::MAX,
    ensures
        ({
            let (s1, a1) = spec_on_key(s, Key { code: KeyCode::Char('y'), ctrl: false, alt: false });
            let (s2, _) = spec_on_config_saved(s1, r);
            &&& a1 == ActionView::SaveConfig(s.configs.remove(i as int))
            &&& r is Ok ==> s2.configs == s.configs.remove(i as int) && (s2.configs.len() == 0
                ==> s2.selected is None) && (s2.configs.len() > 0 ==> (s2.selected matches Some(k)
                && k < s2.configs.len()))
            &&& r matches Err(e) ==> s2.configs == s.configs && s2.error == Some(e)
            &&& !s2.config_delete_pending
        }),
{
}

/// The state and request after `j` more deletions succeed, from `(s, a)`.
pub open spec fn after_deletions(s: AppView, a: ActionView, j: nat) -> (AppView, ActionView)
    decreases j,
{
    if j == 0 {
        (s, a)
    } else {
        spec_on_deleted(after_deletions(s, a, (j - 1) as nat).0, Ok(()))
    }
}

proof fn lemma_named_all(keys: Seq<Seq<char>>)
    ensures
        named(keys.map_values(|k: Seq<char>| Some(k))) == keys,
    decreases keys.len(),
{
    let opts = keys.map_values(|k: Seq<char>| Some(k));
    if keys.len() > 0 {
        lemma_named_all(keys.drop_last());
        assert(opts.drop_last() =~= keys.drop_last().map_values(|k: Seq<char>| Some(k)));
        assert(keys.drop_last().push(keys.last()) =~= keys);
    } else {
        assert(named(opts) =~= keys);
    }
}

/// A folder deletion whose first page of keys just arrived: nothing deleted
/// yet, no page after it, and fewer keys than the counter can hold.
pub open spec fn deletion_starts(s: AppView) -> bool {
    &&& s.task matches TaskView::DeletingPrefix { deleted, keys, next, more, .. }
    &&& s.task->DeletingPrefix_deleted == 0
    &&& s.task->DeletingPrefix_next == 0
    &&& !s.task->DeletingPrefix_more
    &&& s.task->DeletingPrefix_keys.len() < u32::MAX
}

/// The folder deletion of `s` with `j` keys deleted.
pub open spec fn deletion_at(s: AppView, j: nat) -> AppView {
    AppView {
        task: TaskView::DeletingPrefix {
            name: s.task->DeletingPrefix_name,
            bucket: s.task->DeletingPrefix_bucket,
            prefix: s.task->DeletingPrefix_prefix,
            deleted: j as u32,
            keys: s.task->DeletingPrefix_keys,
            next: j,
            more: false,
            token: s.task->DeletingPrefix_token,
        },
        ..s
    }
}

/// The request to delete the `j`-th listed key of the deletion of `s`.
pub open spec fn delete_request(s: AppView, j: nat) -> ActionView {
    ActionView::DeleteObject {
        bucket: s.task->DeletingPrefix_bucket,
        key: s.task->DeletingPrefix_keys[j as int],
    }
}

/// The message once the `n` keys of a folder are deleted.
pub open spec fn folder_deleted_message(name: Seq<char>, n: nat) -> Seq<char> {
    "Deleted "@ + name + "/ ("@ + decimal(n) + " objects)"@
}

proof fn lemma_deletions(s: AppView, a: ActionView, j: nat)
    requires
        deletion_starts(s),
        j <= s.task->DeletingPrefix_keys.len(),
        s.task->DeletingPrefix_keys.len() > 0 ==> a == delete_request(s, 0),
    ensures
        j < s.task->DeletingPrefix_keys.len() ==> after_deletions(s, a, j) == (
        deletion_at(s, j),
        delete_request(s, j),
        ),
        j == s.task->DeletingPrefix_keys.len() && j > 0 ==> after_deletions(s, a, j).0.error == Some(
            folder_deleted_message(s.task->DeletingPrefix_name, j),
        ),
        j == s.task->DeletingPrefix_keys.len() && j > 0 ==> after_deletions(s, a, j).1
            == load_objects(s, false).1,
    decreases j,
{
    if j > 0 {
        lemma_deletions(s, a, (j - 1) as nat);
    }
}

/// Deleting a folder (`y` on its confirmation): the keys under it are
/// listed, each listed key is deleted in turn with one request, and once all
/// are deleted the message counts them and the folder's listing is asked
/// for again.
pub proof fn law_delete_folder(s: AppView, keys: Seq<Seq<char>>, j: nat)
    requires
        s.view == View::DeleteConfirm,
        s.delete_is_dir,
        0 < keys.len() < u32::MAX,
        j <= keys.len(),
    ensures
        ({
            let (s1, a1) = spec_on_key(s, Key { code: KeyCode::Char('y'), ctrl: false, alt: false });
            let page = KeyPageView {
                keys: keys.map_values(|k: Seq<char>| Some(k)),
                is_truncated: None,
                next_token: None,
            };
            let (s2, a2) = spec_on_prefix_page(s1, Ok(page));
            let (t, a) = after_deletions(s2, a2, j);
            &&& a1 == ActionView::ListPrefix {
                bucket: s.current_bucket,
                prefix: s.delete_target_key,
                token: None,
            }
            &&& j < keys.len() ==> a == ActionView::DeleteObject {
                bucket: s.current_bucket,
                key: keys[j as int],
            }
            &&& j == keys.len() ==> t.error == Some(folder_deleted_message(s.delete_target_name, j))
                && a == ActionView::ListObjects {
                bucket: s.current_bucket,
                prefix: prefix_arg(current_prefix(s)),
                token: None,
            }
        }),
{
    lemma_named_all(keys);
    let (s1, a1) = spec_on_key(s, Key { code: KeyCode::Char('y'), ctrl: false, alt: false });
    let page = KeyPageView {
        keys: keys.map_values(|k: Seq<char>| Some(k)),
        is_truncated: None,
        next_token: None,
    };
    let (s2, a2) = spec_on_prefix_page(s1, Ok(page));
    lemma_deletions(s2, a2, j);
}

/// `D` on the object list opens the download prompt for the selected entry,
/// file or folder (a folder's key ends with `/`, so that everything under
/// it is fetched); `Esc` then returns to the list.
pub proof fn law_download_key(s: AppView, i: usize)
    requires
        s.view == View::Objects,
        !s.quit_pending,
        s.selected == Some(i),
        i < s.entries.len(),
    ensures
        ({
            let e = s.entries[i as int];
            let (s1, a1) = spec_on_key(s, Key { code: KeyCode::Char('D'), ctrl: false, alt: false });
            let (s2, a2) = spec_on_key(s1, Key { code: KeyCode::Esc, ctrl: false, alt: false });
            &&& a1 == ActionView::Nothing
            &&& s1.view == View::DownloadPrompt
            &&& s1.download_name == e.name
            &&& s1.download_is_dir == e.is_dir
            &&& s1.download_key == (if e.is_dir {
                current_prefix(s) + e.name + seq!['/']
            } else {
                current_prefix(s) + e.name
            })
            &&& s1.download_input.len() == 0
            &&& s2.view == View::Objects
            &&& a2 == ActionView::Nothing
        }),
{
}

/// The state and request after `j` more files of a folder download are
/// written, from `(s, a)`.
pub open spec fn after_writes(s: AppView, a: ActionView, j: nat) -> (AppView, ActionView)
    decreases j,
{
    if j == 0 {
        (s, a)
    } else {
        spec_on_file_written(after_writes(s, a, (j - 1) as nat).0, Ok(()))
    }
}

/// A folder download whose only page of keys just arrived: nothing written
/// yet, no page after it, and fewer files than the counter can hold.
pub open spec fn writing_starts(s: AppView) -> bool {
    &&& s.task matches TaskView::DownloadingFolder { download, .. }
    &&& s.task->DownloadingFolder_download.downloaded == 0
    &&& s.task->DownloadingFolder_download.next == 0
    &&& !s.task->DownloadingFolder_download.more
    &&& s.task->DownloadingFolder_download.files.len() < u32::MAX
}

/// The folder download of `s` with `j` files written.
pub open spec fn writing_at(s: AppView, j: nat) -> AppView {
    AppView {
        task: TaskView::DownloadingFolder {
            bucket: s.task->DownloadingFolder_bucket,
            root: s.task->DownloadingFolder_root,
            download: PrefixDownloadView {
                next: j,
                downloaded: j as u32,
                ..s.task->DownloadingFolder_download
            },
        },
        ..s
    }
}

/// The request to write the `j`-th file of the folder download of `s`.
pub open spec fn write_request(s: AppView, j: nat) -> ActionView {
    ActionView::WriteFile {
        bucket: s.task->DownloadingFolder_bucket,
        key: s.task->DownloadingFolder_download.files[j as int].0,
        root: s.task->DownloadingFolder_root,
        parts: s.task->DownloadingFolder_download.files[j as int].1,
    }
}

proof fn lemma_writes(s: AppView, a: ActionView, j: nat)
    requires
        writing_starts(s),
        j <= s.task->DownloadingFolder_download.files.len(),
        s.task->DownloadingFolder_download.files.len() > 0 ==> a == write_request(s, 0),
    ensures
        j < s.task->DownloadingFolder_download.files.len() ==> after_writes(s, a, j) == (
        writing_at(s, j),
        write_request(s, j),
        ),
        j == s.task->DownloadingFolder_download.files.len() && j > 0 ==> after_writes(s, a, j).0.error
            == Some(folder_downloaded_message(j as u32, s.task->DownloadingFolder_root)),
        j == s.task->DownloadingFolder_download.files.len() && j > 0 ==> after_writes(s, a, j).1
            == ActionView::Nothing,
        j == s.task->DownloadingFolder_download.files.len() && j > 0 ==> !after_writes(s, a, j).0.loading,
    decreases j,
{
    if j > 0 {
        lemma_writes(s, a, (j - 1) as nat);
    }
}

/// Downloading a folder (`Enter` on its download prompt): once its local
/// directory `root` is known, the keys under the folder are listed; every
/// listed key that is not a folder marker is written, one request each, in
/// order, below `root` at its path relative to the folder; then the message
/// counts the files and names `root`.
pub proof fn law_download_folder(s: AppView, root: Seq<char>, keys: Seq<Seq<char>>, j: nat)
    requires
        s.view == View::DownloadPrompt,
        s.download_is_dir,
        files_of(s.download_key, keys).len() < u32::MAX,
        j <= files_of(s.download_key, keys).len(),
    ensures
        ({
            let (s1, a1) = spec_on_key(s, Key { code: KeyCode::Enter, ctrl: false, alt: false });
            let (s2, a2) = spec_on_download_root(s1, root);
            let page = KeyPageView {
                keys: keys.map_values(|k: Seq<char>| Some(k)),
                is_truncated: None,
                next_token: None,
            };
            let (s3, a3) = spec_on_download_page(s2, Ok(page));
            let files = files_of(s.download_key, keys);
            let (t, a) = after_writes(s3, a3, j);
            &&& a1 == ActionView::DownloadFolder {
                dir: if s.download_input.len() == 0 { None } else { Some(s.download_input) },
                name: s.download_name,
            }
            &&& a2 == ActionView::ListForDownload {
                bucket: s.current_bucket,
                prefix: s.download_key,
                token: None,
            }
            &&& j < files.len() ==> a == ActionView::WriteFile {
                bucket: s.current_bucket,
                key: files[j as int].0,
                root,
                parts: files[j as int].1,
            }
            &&& j == files.len() ==> t.error == Some(folder_downloaded_message(j as u32, root))
                && a == ActionView::Nothing && !t.loading
        }),
{
    lemma_named_all(keys);
    let (s1, a1) = spec_on_key(s, Key { code: KeyCode::Enter, ctrl: false, alt: false });
    let (s2, a2) = spec_on_download_root(s1, root);
    let page = KeyPageView {
        keys: keys.map_values(|k: Seq<char>| Some(k)),
        is_truncated: None,
        next_token: None,
    };
    let (s3, a3) = spec_on_download_page(s2, Ok(page));
    if files_of(s.download_key, keys).len() > 0 {
        lemma_writes(s3, a3, j);
    }
}

/// Every entry a listing page contributes has a name; folder names carry no
/// trailing slash, and file names do not end with one.
pub proof fn law_page_entries_named(
    listed: Seq<char>,
    cps: Seq<Option<Seq<char>>>,
    objs: Seq<crate::s3::RawObjectView>,
)
    ensures
        forall|k: int|
            0 <= k < crate::s3::page_entries(listed, cps, objs).len() ==> {
                let e = #[trigger] crate::s3::page_entries(listed, cps, objs)[k];
                &&& e.name.len() > 0
                &&& !crate::text::ends_with(e.name, '/')
            },
{
    lemma_dir_entries_named(listed, cps);
    lemma_file_entries_named(listed, objs);
    let d = crate::s3::dir_entries(listed, cps);
    let f = crate::s3::file_entries(listed, objs);
    assert forall|k: int| 0 <= k < (d + f).len() implies ({
        let e = #[trigger] (d + f)[k];
        e.name.len() > 0 && !crate::text::ends_with(e.name, '/')
    }) by {
        if k < d.len() {
            assert((d + f)[k] == d[k]);
        } else {
            assert((d + f)[k] == f[k - d.len()]);
        }
    }
}

proof fn lemma_dir_entries_named(listed: Seq<char>, cps: Seq<Option<Seq<char>>>)
    ensures
        forall|k: int|
            0 <= k < crate::s3::dir_entries(listed, cps).len() ==> {
                let e = #[trigger] crate::s3::dir_entries(listed, cps)[k];
                e.name.len() > 0 && !crate::text::ends_with(e.name, '/') && e.is_dir
            },
    decreases cps.len(),
{
    if cps.len() > 0 {
        lemma_dir_entries_named(listed, cps.drop_last());
        if let Some(p) = cps.last() {
            crate::text::lemma_trim_end_idempotent(
                crate::text::after_prefix(p, listed),
                crate::text::Pattern::Char('/'),
            );
        }
    }
}

proof fn lemma_file_entries_named(listed: Seq<char>, objs: Seq<crate::s3::RawObjectView>)
    ensures
        forall|k: int|
            0 <= k < crate::s3::file_entries(listed, objs).len() ==> {
                let e = #[trigger] crate::s3::file_entries(listed, objs)[k];
                e.name.len() > 0 && !crate::text::ends_with(e.name, '/') && !e.is_dir
            },
    decreases objs.len(),
{
    if objs.len() > 0 {
        lemma_file_entries_named(listed, objs.drop_last());
    }
}

proof fn lemma_join_front(x: Seq<char>, l: Seq<Seq<char>>, sep: Seq<char>)
    requires
        l.len() > 0,
    ensures
        join(seq![x] + l, sep) == x + sep + join(l, sep),
    decreases l.len(),
{
    let whole = seq![x] + l;
    assert(whole.drop_last() =~= seq![x] + l.drop_last());
    assert(whole.last() == l.last());
    if l.len() == 1 {
        assert(seq![x].len() == 1);
        assert(join(seq![x], sep) == x);
    } else {
        lemma_join_front(x, l.drop_last(), sep);
        assert(x + sep + join(l.drop_last(), sep) + sep + l.last() =~= x + sep + (join(
            l.drop_last(),
            sep,
        ) + sep + l.last()));
    }
}

proof fn lemma_join_lines(s: Seq<char>)
    requires
        s.len() > 0,
        !s.contains('\r'),
        !crate::text::ends_with(s, '\n'),
    ensures
        join(lines(s), seq!['\n']) == s,
    decreases s.len(),
{
    crate::text::lemma_find_char(s, '\n');
    let i = find_char(s, '\n');
    if i >= 0 {
        let head = s.take(i);
        let rest = s.skip(i + 1);
        assert(rest.len() > 0) by {
            if rest.len() == 0 {
                assert(i == s.len() - 1);
            }
        }
        assert(!rest.contains('\r')) by {
            if rest.contains('\r') {
                let k = choose|k: int| 0 <= k < rest.len() && rest[k] == '\r';
                assert(s[i + 1 + k] == '\r');
            }
        }
        assert(rest.last() == s.last());
        lemma_join_lines(rest);
        assert(strip_cr(head) == head) by {
            if head.len() > 0 {
                assert(head.last() == s[i - 1]);
                if head.last() == '\r' {
                    assert(s.contains('\r'));
                }
            }
        }
        assert(lines(rest).len() > 0);
        lemma_join_front(head, lines(rest), seq!['\n']);
        assert(head + seq!['\n'] + rest =~= s);
    }
}

/// Opening the previewed text in the editor and saving it unedited writes
/// back the same text, for text with line-feed line ends (no carriage
/// returns) and no final line feed: the editor's lines, joined again, are the
/// preview's content.
pub proof fn law_editor_round_trip(s: AppView)
    requires
        s.view == View::FilePreview,
        !s.preview_content.contains('\r'),
        !crate::text::ends_with(s.preview_content, '\n'),
    ensures
        ({
            let (s1, a1) = spec_on_key(s, Key { code: KeyCode::Char('e'), ctrl: false, alt: false });
            let (s2, a2) = spec_on_key(s1, Key { code: KeyCode::Char('s'), ctrl: true, alt: false });
            let ls = editor_lines(s.preview_content);
            let (s3, a3) = spec_on_editor_lines(s2, ls);
            &&& a1 == ActionView::OpenEditor(ls)
            &&& a2 == ActionView::SubmitEditor
            &&& a3 == ActionView::PutObject {
                bucket: s.current_bucket,
                key: current_prefix(s) + s.preview_name,
                content: s.preview_content,
            }
        }),
{
    if s.preview_content.len() > 0 {
        lemma_join_lines(s.preview_content);
        assert(lines(s.preview_content).len() > 0);
    } else {
        let e: Seq<char> = seq![];
        assert(lines(e).len() == 0);
        assert(join(seq![e], seq!['\n']) == e);
        assert(s.preview_content =~= e);
    }
}

} // verus!
