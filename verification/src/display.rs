//! The text the screens show for the browser's state: the header's title,
//! an entry's full path and timestamp, line numbers of the preview, and
//! whether a message on the status line reports a success.
use vstd::prelude::*;
use vstd::view::View as _;
use crate::model::{current_prefix, AppView, View};
use crate::s3::S3EntryView;
use crate::text::{
    chars_of, decimal, decimal_string, push_char, strip_prefix, strip_prefix_str, trim_end_by,
    trim_end_matches, Pattern,
};

verus! {

/// Whether a screen shows a bucket's object list (possibly under a prompt).
pub open spec fn shows_objects(v: View) -> bool {
    v == View::Objects || v == View::DownloadPrompt || v == View::DeleteConfirm || v
        == View::CreateFolder || v == View::CreateFile
}

/// The title of the header line: the bucket list, the bucket and prefix
/// being browsed, the previewed file, the edited file (marked when
/// modified), or the name of the screen.
pub open spec fn header_title(s: AppView) -> Seq<char> {
    if s.view == View::Buckets {
        " S3 Buckets"@
    } else if shows_objects(s.view) {
        if current_prefix(s).len() == 0 {
            " s3://"@ + s.current_bucket
        } else {
            " s3://"@ + s.current_bucket + "/"@ + current_prefix(s)
        }
    } else if s.view == View::FilePreview {
        " "@ + s.preview_name
    } else if s.view == View::FileEdit {
        if s.editor_modified {
            " EDITING: "@ + s.editor_name + " [modified]"@
        } else {
            " EDITING: "@ + s.editor_name
        }
    } else if s.view == View::FilePicker {
        " Upload: choose a file"@
    } else if s.view == View::ConfigSelector {
        " Select configuration"@
    } else {
        " New configuration"@
    }
}

/// The full `s3://` path of an entry of the listing being browsed; a
/// folder's path ends with `/`.
pub open spec fn entry_path(s: AppView, e: S3EntryView) -> Seq<char> {
    if e.is_dir {
        "s3://"@ + s.current_bucket + "/"@ + current_prefix(s) + e.name + "/"@
    } else {
        "s3://"@ + s.current_bucket + "/"@ + current_prefix(s) + e.name
    }
}

/// Whether a status message reports a success rather than an error.
pub open spec fn is_success(msg: Seq<char>) -> bool {
    ||| strip_prefix(msg, "Downloaded to"@) is Some
    ||| strip_prefix(msg, "Saved "@) is Some
    ||| strip_prefix(msg, "Deleted "@) is Some
    ||| strip_prefix(msg, "Created "@) is Some
    ||| strip_prefix(msg, "Uploaded "@) is Some
}

/// Whether a status message reports a success rather than an error.
pub fn is_success_message(msg: &str) -> (r: bool)
    ensures
        r == is_success(msg@),
{
    strip_prefix_str(msg, "Downloaded to").is_some() || strip_prefix_str(msg, "Saved ").is_some()
        || strip_prefix_str(msg, "Deleted ").is_some() || strip_prefix_str(msg, "Created ").is_some()
        || strip_prefix_str(msg, "Uploaded ").is_some()
}

/// A timestamp as the detail panel shows it: every `T` becomes a space and
/// trailing `Z`s are dropped (`2024-01-15T10:30:00Z` shows as
/// `2024-01-15 10:30:00`).
pub open spec fn shown_timestamp(t: Seq<char>) -> Seq<char> {
    trim_end_by(t.map_values(|c: char| if c == 'T' { ' ' } else { c }), Pattern::Char('Z'))
}

/// A timestamp as the detail panel shows it.
pub fn display_timestamp(t: &str) -> (r: String)
    ensures
        r@ == shown_timestamp(t@),
{
    let v = chars_of(t);
    let ghost spaced = t@.map_values(|c: char| if c == 'T' { ' ' } else { c });
    let mut s = String::new();
    let mut i: usize = 0;
    while i < v.len()
        invariant
            v@ == t@,
            i <= v.len(),
            spaced == t@.map_values(|c: char| if c == 'T' { ' ' } else { c }),
            s@ == spaced.take(i as int),
        decreases v.len() - i,
    {
        let c = if v[i] == 'T' {
            ' '
        } else {
            v[i]
        };
        push_char(&mut s, c);
        assert(spaced.take(i + 1) =~= spaced.take(i as int).push(c));
        i += 1;
    }
    assert(spaced.take(v.len() as int) =~= spaced);
    trim_end_matches(s.as_str(), 'Z')
}

/// The label of the `n`-th line of the preview: the number right-aligned in
/// four columns, then a space.
pub open spec fn line_label(n: nat) -> Seq<char> {
    let d = decimal(n);
    if d.len() < 4 {
        Seq::new((4 - d.len()) as nat, |i: int| ' ') + d + seq![' ']
    } else {
        d + seq![' ']
    }
}

/// The label of the `n`-th line of the preview.
pub fn line_number_label(n: u64) -> (r: String)
    ensures
        r@ == line_label(n as nat),
{
    let d = decimal_string(n);
    let len = chars_of(d.as_str()).len();
    let mut r = String::new();
    let mut k: usize = len;
    while k < 4
        invariant
            len == d@.len(),
            len <= k <= 4 || (len > 4 && k == len),
            r@ == Seq::new((k - len) as nat, |i: int| ' '),
        decreases 4 - k,
    {
        push_char(&mut r, ' ');
        assert(r@ =~= Seq::new((k + 1 - len) as nat, |i: int| ' '));
        k += 1;
    }
    r.append(d.as_str());
    push_char(&mut r, ' ');
    proof {
        if len >= 4 {
            assert(r@ =~= d@ + seq![' ']);
        } else {
            assert(r@ =~= Seq::new((4 - len) as nat, |i: int| ' ') + d@ + seq![' ']);
        }
    }
    r
}

} // verus!
