//! Recursive download of a folder: which keys are written, where, and what
//! the download reports.
//!
//! The listing, the transfers and the local writes happen at the program's
//! edge; `PrefixDownload` decides the next one from the outcome of the last.
use vstd::prelude::*;
use vstd::view::View as _;
use crate::app::{KeyPage, TransferFailure};
use crate::model::{named, transfer_message, KeyPageView, TransferFailureView};
use crate::s3::{relative_key, spec_relative_key};
use crate::text::{cat, cat3, clone_opt, opt_view, split_all, split_str};

verus! {

/// The local files of a page of keys under `prefix`: each key that is not a
/// folder marker, with the path components of its relative path, in order.
pub open spec fn files_of(prefix: Seq<char>, keys: Seq<Seq<char>>) -> Seq<(Seq<char>, Seq<Seq<char>>)>
    decreases keys.len(),
{
    if keys.len() == 0 {
        seq![]
    } else {
        let before = files_of(prefix, keys.drop_last());
        match spec_relative_key(prefix, keys.last()) {
            Some(rel) => before.push((keys.last(), split_all(rel, '/'))),
            None => before,
        }
    }
}

/// The next piece of work of a folder download.
pub enum DownloadStepView {
    /// List a page of the keys under the prefix (from the token, if any).
    ListPage { prefix: Seq<char>, token: Option<Seq<char>> },
    /// Write object `key` below the destination root at the path made of
    /// `parts`, creating the directories above it.
    Fetch { key: Seq<char>, parts: Seq<Seq<char>> },
    /// Finished: the number of files written.
    Done(u32),
}

/// The state of a folder download.
pub struct PrefixDownloadView {
    pub prefix: Seq<char>,
    pub files: Seq<(Seq<char>, Seq<Seq<char>>)>,
    pub next: nat,
    pub more: bool,
    pub token: Option<Seq<char>>,
    pub downloaded: u32,
}

/// Why writing one file of a folder download failed.
pub enum FileFailureView {
    CreateDir { path: Seq<char>, cause: Seq<char> },
    Fetch(TransferFailureView),
    Write { path: Seq<char>, cause: Seq<char> },
}

/// The message a folder download reports for a failed file.
pub open spec fn file_failure_message(f: FileFailureView) -> Seq<char> {
    match f {
        FileFailureView::CreateDir { path, cause } => "Failed to create "@ + path + ": "@ + cause,
        FileFailureView::Fetch(t) => transfer_message(t),
        FileFailureView::Write { path, cause } => "Failed to write "@ + path + ": "@ + cause,
    }
}

/// `"Failed to list objects for download: "`.
pub open spec fn list_for_download_failure() -> Seq<char> {
    "Failed to list objects for download: "@
}

/// The next step: the next file of the page, the next page, or the end.
pub open spec fn advance(d: PrefixDownloadView) -> DownloadStepView {
    if d.next < d.files.len() {
        DownloadStepView::Fetch { key: d.files[d.next as int].0, parts: d.files[d.next as int].1 }
    } else if d.more {
        DownloadStepView::ListPage { prefix: d.prefix, token: d.token }
    } else {
        DownloadStepView::Done(d.downloaded)
    }
}

/// A page of keys arrived (or listing failed, which ends the download).
pub open spec fn spec_download_page(d: PrefixDownloadView, r: Result<KeyPageView, Seq<char>>) -> (
    PrefixDownloadView,
    Result<DownloadStepView, Seq<char>>,
) {
    match r {
        Err(e) => (d, Err(list_for_download_failure() + e)),
        Ok(page) => {
            let d1 = PrefixDownloadView {
                files: files_of(d.prefix, named(page.keys)),
                next: 0,
                more: page.is_truncated == Some(true),
                token: page.next_token,
                ..d
            };
            (d1, Ok(advance(d1)))
        },
    }
}

/// A file was written (or writing it failed, which ends the download).
pub open spec fn spec_file_written(d: PrefixDownloadView, r: Result<(), FileFailureView>) -> (
    PrefixDownloadView,
    Result<DownloadStepView, Seq<char>>,
) {
    match r {
        Err(f) => (d, Err(file_failure_message(f))),
        Ok(()) => {
            let d1 = PrefixDownloadView {
                next: d.next + 1,
                downloaded: if d.downloaded == u32::MAX { 0 } else { (d.downloaded + 1) as u32 },
                ..d
            };
            (d1, Ok(advance(d1)))
        },
    }
}

/// The next piece of work of a folder download.
pub enum DownloadStep {
    ListPage { prefix: String, token: Option<String> },
    Fetch { key: String, parts: Vec<String> },
    Done(u32),
}

impl vstd::view::View for DownloadStep {
    type V = DownloadStepView;

    open spec fn view(&self) -> DownloadStepView {
        match self {
            DownloadStep::ListPage { prefix, token } => DownloadStepView::ListPage {
                prefix: prefix@,
                token: opt_view(*token),
            },
            DownloadStep::Fetch { key, parts } => DownloadStepView::Fetch {
                key: key@,
                parts: parts.deep_view(),
            },
            DownloadStep::Done(n) => DownloadStepView::Done(*n),
        }
    }
}

/// Why writing one file of a folder download failed.
pub enum FileFailure {
    CreateDir { path: String, cause: String },
    Fetch(TransferFailure),
    Write { path: String, cause: String },
}

impl vstd::view::View for FileFailure {
    type V = FileFailureView;

    open spec fn view(&self) -> FileFailureView {
        match self {
            FileFailure::CreateDir { path, cause } => FileFailureView::CreateDir {
                path: path@,
                cause: cause@,
            },
            FileFailure::Fetch(t) => FileFailureView::Fetch(t@),
            FileFailure::Write { path, cause } => FileFailureView::Write { path: path@, cause: cause@ },
        }
    }
}

/// The view of a list of (key, path components) pairs.
pub open spec fn files_view(v: Seq<(String, Vec<String>)>) -> Seq<(Seq<char>, Seq<Seq<char>>)> {
    v.map_values(|f: (String, Vec<String>)| (f.0@, f.1.deep_view()))
}

/// A download of every object under a prefix into a local directory,
/// recreating the folder structure below it.
pub struct PrefixDownload {
    prefix: String,
    files: Vec<(String, Vec<String>)>,
    next: usize,
    more: bool,
    token: Option<String>,
    downloaded: u32,
}

impl vstd::view::View for PrefixDownload {
    type V = PrefixDownloadView;

    closed spec fn view(&self) -> PrefixDownloadView {
        PrefixDownloadView {
            prefix: self.prefix@,
            files: files_view(self.files@),
            next: self.next as nat,
            more: self.more,
            token: opt_view(self.token),
            downloaded: self.downloaded,
        }
    }
}

fn copy_parts(v: &Vec<String>) -> (r: Vec<String>)
    ensures
        r.deep_view() == v.deep_view(),
{
    let mut r: Vec<String> = Vec::new();
    let mut i: usize = 0;
    while i < v.len()
        invariant
            i <= v.len(),
            r.deep_view() == v.deep_view().take(i as int),
        decreases v.len() - i,
    {
        r.push(v[i].clone());
        assert(v.deep_view().take(i + 1) =~= v.deep_view().take(i as int).push(v@[i as int]@));
        assert(r.deep_view() =~= v.deep_view().take(i + 1));
        i += 1;
    }
    assert(v.deep_view().take(v.len() as int) =~= v.deep_view());
    r
}

impl PrefixDownload {
    /// Starts downloading everything under `prefix`: the first step lists
    /// its first page.
    pub fn new(prefix: &str) -> (r: (PrefixDownload, DownloadStep))
        ensures
            r.0@ == (PrefixDownloadView {
                prefix: prefix@,
                files: seq![],
                next: 0,
                more: false,
                token: None,
                downloaded: 0,
            }),
            r.1@ == (DownloadStepView::ListPage { prefix: prefix@, token: None }),
    {
        let d = PrefixDownload {
            prefix: String::from_str(prefix),
            files: Vec::new(),
            next: 0,
            more: false,
            token: None,
            downloaded: 0,
        };
        assert(files_view(d.files@) =~= Seq::<(Seq<char>, Seq<Seq<char>>)>::empty());
        (d, DownloadStep::ListPage { prefix: String::from_str(prefix), token: None })
    }

    fn advance(&self) -> (r: DownloadStep)
        ensures
            r@ == advance(self@),
    {
        if self.next < self.files.len() {
            let f = &self.files[self.next];
            DownloadStep::Fetch { key: f.0.clone(), parts: copy_parts(&f.1) }
        } else if self.more {
            DownloadStep::ListPage { prefix: self.prefix.clone(), token: clone_opt(&self.token) }
        } else {
            DownloadStep::Done(self.downloaded)
        }
    }

    /// A page of keys arrived, or listing failed (the download ends with
    /// the message).
    pub fn on_page(&mut self, r: Result<KeyPage, String>) -> (s: Result<DownloadStep, String>)
        ensures
            ({
                let (d1, expected) = spec_download_page(
                    old(self)@,
                    match r {
                        Ok(p) => Ok(p@),
                        Err(e) => Err(e@),
                    },
                );
                &&& final(self)@ == d1
                &&& match s {
                    Ok(st) => expected == Ok::<DownloadStepView, Seq<char>>(st@),
                    Err(m) => expected == Err::<DownloadStepView, Seq<char>>(m@),
                }
            }),
    {
        match r {
            Err(e) => Err(cat("Failed to list objects for download: ", e.as_str())),
            Ok(page) => {
                let ghost kv = page@.keys;
                let mut files: Vec<(String, Vec<String>)> = Vec::new();
                let mut i: usize = 0;
                while i < page.keys.len()
                    invariant
                        i <= page.keys.len(),
                        kv == page@.keys,
                        files_view(files@) == files_of(self@.prefix, named(kv.take(i as int))),
                    decreases page.keys.len() - i,
                {
                    assert(kv.take(i + 1).drop_last() =~= kv.take(i as int));
                    assert(kv.take(i + 1).last() == opt_view(page.keys@[i as int]));
                    match &page.keys[i] {
                        Some(k) => {
                            let ghost names = named(kv.take(i as int));
                            assert(named(kv.take(i + 1)) == names.push(k@));
                            assert(names.push(k@).drop_last() =~= names);
                            match relative_key(self.prefix.as_str(), k.as_str()) {
                                Some(rel) => {
                                    let parts = split_str(rel.as_str(), '/');
                                    let ghost before = files_view(files@);
                                    files.push((k.clone(), parts));
                                    assert(files_view(files@) =~= before.push(
                                        (k@, split_all(rel@, '/')),
                                    ));
                                },
                                None => {},
                            }
                        },
                        None => {},
                    }
                    i += 1;
                }
                assert(kv.take(page.keys.len() as int) =~= kv);
                self.files = files;
                self.next = 0;
                self.more = match page.is_truncated {
                    Some(b) => b,
                    None => false,
                };
                self.token = page.next_token;
                Ok(self.advance())
            },
        }
    }

    /// The current file was written, or writing it failed (the download
    /// ends with the message).
    pub fn on_file_written(&mut self, r: Result<(), FileFailure>) -> (s: Result<DownloadStep, String>)
        requires
            old(self)@.next < old(self)@.files.len(),
        ensures
            ({
                let (d1, expected) = spec_file_written(
                    old(self)@,
                    match r {
                        Ok(()) => Ok(()),
                        Err(f) => Err(f@),
                    },
                );
                &&& final(self)@ == d1
                &&& match s {
                    Ok(st) => expected == Ok::<DownloadStepView, Seq<char>>(st@),
                    Err(m) => expected == Err::<DownloadStepView, Seq<char>>(m@),
                }
            }),
    {
        match r {
            Err(FileFailure::CreateDir { path, cause }) => {
                let mut m = cat3("Failed to create ", path.as_str(), ": ");
                m.append(cause.as_str());
                Err(m)
            },
            Err(FileFailure::Fetch(t)) => Err(crate::app::transfer_failure_message(&t)),
            Err(FileFailure::Write { path, cause }) => {
                let mut m = cat3("Failed to write ", path.as_str(), ": ");
                m.append(cause.as_str());
                Err(m)
            },
            Ok(()) => {
                assert(files_view(self.files@).len() == self.files.len());
                self.next = self.next + 1;
                self.downloaded = self.downloaded.wrapping_add(1);
                Ok(self.advance())
            },
        }
    }

    /// Whether the download has a file in progress (a `Fetch` step whose
    /// outcome `on_file_written` takes).
    pub fn has_current_file(&self) -> (r: bool)
        ensures
            r == (self@.next < self@.files.len()),
    {
        self.next < self.files.len()
    }
}

} // verus!
