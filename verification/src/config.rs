//! Saved connection configurations: the profile record, the file's contents,
//! what loading and saving the file report, and how a profile is merged into
//! the saved list.
//!
//! Reading, writing and TOML (de)serialisation of the file happen at the
//! program's edge; this module decides what their outcomes mean.
use vstd::prelude::*;
use crate::text::{cat, clone_opt, opt_view, str_eq};

verus! {

/// A named connection: an AWS profile name, region, endpoint and initial
/// bucket (optionally `bucket/prefix`). It holds no credentials.
#[derive(Clone, Debug, Default, PartialEq, Eq)]
pub struct SavedProfile {
    pub name: String,
    pub profile: Option<String>,
    pub region: Option<String>,
    pub endpoint_url: Option<String>,
    pub bucket: Option<String>,
}

/// The contents of a `SavedProfile`.
pub struct SavedProfileView {
    pub name: Seq<char>,
    pub profile: Option<Seq<char>>,
    pub region: Option<Seq<char>>,
    pub endpoint_url: Option<Seq<char>>,
    pub bucket: Option<Seq<char>>,
}

impl View for SavedProfile {
    type V = SavedProfileView;

    open spec fn view(&self) -> SavedProfileView {
        SavedProfileView {
            name: self.name@,
            profile: opt_view(self.profile),
            region: opt_view(self.region),
            endpoint_url: opt_view(self.endpoint_url),
            bucket: opt_view(self.bucket),
        }
    }
}

impl DeepView for SavedProfile {
    type V = SavedProfileView;

    open spec fn deep_view(&self) -> SavedProfileView {
        self@
    }
}

impl SavedProfile {
    /// A copy with the same contents.
    pub fn duplicate(&self) -> (r: SavedProfile)
        ensures
            r@ == self@,
    {
        SavedProfile {
            name: self.name.clone(),
            profile: clone_opt(&self.profile),
            region: clone_opt(&self.region),
            endpoint_url: clone_opt(&self.endpoint_url),
            bucket: clone_opt(&self.bucket),
        }
    }
}

/// The configuration file: the list of saved profiles.
#[derive(Clone, Debug, Default, PartialEq, Eq)]
pub struct Config {
    pub profiles: Vec<SavedProfile>,
}

impl View for Config {
    type V = Seq<SavedProfileView>;

    open spec fn view(&self) -> Seq<SavedProfileView> {
        self.profiles.deep_view()
    }
}

/// A copy of a list of profiles.
pub fn duplicate_profiles(v: &Vec<SavedProfile>) -> (r: Vec<SavedProfile>)
    ensures
        r.deep_view() == v.deep_view(),
{
    let mut r: Vec<SavedProfile> = Vec::new();
    let mut i: usize = 0;
    while i < v.len()
        invariant
            i <= v.len(),
            r.deep_view() == v.deep_view().take(i as int),
        decreases v.len() - i,
    {
        let ghost before = r.deep_view();
        r.push(v[i].duplicate());
        assert(r.deep_view() =~= before.push(v@[i as int]@));
        assert(v.deep_view().take(i + 1) =~= v.deep_view().take(i as int).push(v@[i as int]@));
        i += 1;
    }
    assert(v.deep_view().take(v.len() as int) =~= v.deep_view());
    r
}

/// What reading the configuration file gave: no file, a read failure, or the
/// file's text parsed into a configuration (or the parser's complaint).
pub enum ConfigFile {
    Missing,
    ReadFailed(String),
    Parsed(Result<Config, String>),
}

/// `"Failed to read config: "`.
pub open spec fn read_failure_prefix() -> Seq<char> {
    "Failed to read config: "@
}

/// `"Failed to parse config: "`.
pub open spec fn parse_failure_prefix() -> Seq<char> {
    "Failed to parse config: "@
}

/// What `load` reports for each outcome of reading the file.
pub open spec fn load_result(file: ConfigFile) -> Result<Seq<SavedProfileView>, Seq<char>> {
    match file {
        ConfigFile::Missing => Ok(seq![]),
        ConfigFile::ReadFailed(e) => Err(read_failure_prefix() + e@),
        ConfigFile::Parsed(Ok(c)) => Ok(c@),
        ConfigFile::Parsed(Err(e)) => Err(parse_failure_prefix() + e@),
    }
}

/// Loads the configuration: a missing file is an empty configuration; a
/// file that cannot be read or parsed is an error naming the failure.
pub fn load(file: ConfigFile) -> (r: Result<Config, String>)
    ensures
        match r {
            Ok(c) => load_result(file) == Ok::<Seq<SavedProfileView>, Seq<char>>(c@),
            Err(e) => load_result(file) == Err::<Seq<SavedProfileView>, Seq<char>>(e@),
        },
{
    match file {
        ConfigFile::Missing => {
            let c = Config { profiles: Vec::new() };
            assert(c@ =~= Seq::<SavedProfileView>::empty());
            Ok(c)
        },
        ConfigFile::ReadFailed(e) => Err(cat("Failed to read config: ", e.as_str())),
        ConfigFile::Parsed(Ok(c)) => Ok(c),
        ConfigFile::Parsed(Err(e)) => Err(cat("Failed to parse config: ", e.as_str())),
    }
}

/// The step at which saving the configuration failed, with the cause.
pub enum SaveFailure {
    CreateDir(String),
    Serialize(String),
    Write(String),
}

/// The message that `save` reports for a failed step.
pub open spec fn save_failure_message(f: SaveFailure) -> Seq<char> {
    match f {
        SaveFailure::CreateDir(e) => "Failed to create config dir: "@ + e@,
        SaveFailure::Serialize(e) => "Failed to serialize config: "@ + e@,
        SaveFailure::Write(e) => "Failed to write config: "@ + e@,
    }
}

/// Reports the outcome of saving the configuration (creating its directory,
/// serialising it, writing it): success, or a message naming the failed step.
pub fn save(outcome: Result<(), SaveFailure>) -> (r: Result<(), String>)
    ensures
        outcome is Ok <==> r is Ok,
        outcome matches Err(f) ==> r matches Err(m) && m@ == save_failure_message(f),
{
    match outcome {
        Ok(()) => Ok(()),
        Err(SaveFailure::CreateDir(e)) => Err(cat("Failed to create config dir: ", e.as_str())),
        Err(SaveFailure::Serialize(e)) => Err(cat("Failed to serialize config: ", e.as_str())),
        Err(SaveFailure::Write(e)) => Err(cat("Failed to write config: ", e.as_str())),
    }
}

// ---------------------------------------------------------------------------
// Merging a profile into the saved list.
/// Index of the first profile called `name`, or `-1`.
pub open spec fn find_named(profiles: Seq<SavedProfileView>, name: Seq<char>) -> int
    decreases profiles.len(),
{
    if profiles.len() == 0 {
        -1
    } else if profiles[0].name == name {
        0
    } else {
        let r = find_named(profiles.drop_first(), name);
        if r < 0 {
            -1
        } else {
            r + 1
        }
    }
}

/// `find_named` is the first position holding that name.
pub proof fn lemma_find_named(profiles: Seq<SavedProfileView>, name: Seq<char>)
    ensures
        -1 <= find_named(profiles, name) < profiles.len(),
        find_named(profiles, name) >= 0 ==> profiles[find_named(profiles, name)].name == name,
        forall|k: int| 0 <= k < find_named(profiles, name) ==> profiles[k].name != name,
        find_named(profiles, name) < 0 ==> forall|k: int|
            0 <= k < profiles.len() ==> profiles[k].name != name,
    decreases profiles.len(),
{
    if profiles.len() > 0 && profiles[0].name != name {
        let rest = profiles.drop_first();
        lemma_find_named(rest, name);
        assert forall|k: int| 0 < k < profiles.len() implies profiles[k].name == rest[k - 1].name by {}
    }
}

/// Position of the first profile called `name`
/// (`profiles.iter().position(|p| p.name == name)`).
pub fn position_by_name(profiles: &Vec<SavedProfile>, name: &str) -> (r: Option<usize>)
    ensures
        match r {
            Some(i) => i as int == find_named(profiles.deep_view(), name@),
            None => find_named(profiles.deep_view(), name@) == -1,
        },
{
    let ghost dv = profiles.deep_view();
    proof {
        lemma_find_named(dv, name@);
    }
    let mut i: usize = 0;
    while i < profiles.len()
        invariant
            dv == profiles.deep_view(),
            i <= profiles.len(),
            forall|k: int| 0 <= k < i ==> dv[k].name != name@,
            -1 <= find_named(dv, name@) < dv.len(),
            find_named(dv, name@) >= 0 ==> dv[find_named(dv, name@)].name == name@,
            forall|k: int| 0 <= k < find_named(dv, name@) ==> dv[k].name != name@,
            find_named(dv, name@) < 0 ==> forall|k: int| 0 <= k < dv.len() ==> dv[k].name != name@,
        decreases profiles.len() - i,
    {
        if str_eq(profiles[i].name.as_str(), name) {
            assert(dv[i as int].name == name@);
            return Some(i);
        }
        i += 1;
    }
    None
}

/// The saved list after storing `p`: when editing entry `edit` (an index in
/// range), that entry is replaced in place; otherwise the first entry with
/// the same name is replaced, or `p` is appended.
pub open spec fn upsert(
    profiles: Seq<SavedProfileView>,
    edit: Option<usize>,
    p: SavedProfileView,
) -> Seq<SavedProfileView> {
    if edit is Some && edit->0 < profiles.len() {
        profiles.update(edit->0 as int, p)
    } else {
        let k = find_named(profiles, p.name);
        if k >= 0 {
            profiles.update(k, p)
        } else {
            profiles.push(p)
        }
    }
}

/// Stores `p` in a copy of `profiles` as `upsert` describes.
pub fn upsert_profile(profiles: &Vec<SavedProfile>, edit: Option<usize>, p: &SavedProfile) -> (r:
    Vec<SavedProfile>)
    ensures
        r.deep_view() == upsert(profiles.deep_view(), edit, p@),
{
    let mut r = duplicate_profiles(profiles);
    proof {
        lemma_find_named(profiles.deep_view(), p@.name);
    }
    match edit {
        Some(i) if i < r.len() => {
            r.set(i, p.duplicate());
            assert(r.deep_view() =~= profiles.deep_view().update(i as int, p@));
        },
        _ => {
            match position_by_name(&r, p.name.as_str()) {
                Some(k) => {
                    r.set(k, p.duplicate());
                    assert(r.deep_view() =~= profiles.deep_view().update(k as int, p@));
                },
                None => {
                    let ghost before = r.deep_view();
                    r.push(p.duplicate());
                    assert(r.deep_view() =~= before.push(p@));
                },
            }
        },
    }
    r
}

/// No two profiles share a name.
pub open spec fn names_unique(profiles: Seq<SavedProfileView>) -> bool {
    forall|i: int, j: int|
        0 <= i < profiles.len() && 0 <= j < profiles.len() && i != j ==> profiles[i].name
            != profiles[j].name
}

/// Storing a profile keeps it findable by its name, and keeps names unique
/// unless an edit renames an entry to the name of another entry: a new
/// profile with a taken name replaces the entry of that name instead of
/// adding a second one, and the list grows by at most one entry.
pub proof fn law_upsert_stores_profile(
    profiles: Seq<SavedProfileView>,
    edit: Option<usize>,
    p: SavedProfileView,
)
    ensures
        upsert(profiles, edit, p).contains(p),
        profiles.len() <= upsert(profiles, edit, p).len() <= profiles.len() + 1,
        names_unique(profiles) && !(edit is Some && edit->0 < profiles.len()) ==> names_unique(
            upsert(profiles, edit, p),
        ) && find_named(upsert(profiles, edit, p), p.name) >= 0 && upsert(
            profiles,
            edit,
            p,
        )[find_named(upsert(profiles, edit, p), p.name)] == p,
{
    lemma_find_named(profiles, p.name);
    let r = upsert(profiles, edit, p);
    if edit is Some && edit->0 < profiles.len() {
        assert(r[edit->0 as int] == p);
    } else {
        let k = find_named(profiles, p.name);
        if k >= 0 {
            assert(r[k] == p);
        } else {
            assert(r[profiles.len() as int] == p);
        }
        if names_unique(profiles) {
            lemma_find_named(r, p.name);
            assert(names_unique(r));
            let f = find_named(r, p.name);
            if k >= 0 {
                assert(r[k].name == p.name);
                if f != k {
                    assert(r[f].name == p.name);
                }
            } else {
                if f != profiles.len() as int {
                    assert(r[f].name == p.name);
                }
            }
        }
    }
}

/// Editing an entry that is in range replaces exactly that entry: the list
/// keeps its length and every other entry, so a rename adds no entry.
pub proof fn law_upsert_edit_in_place(
    profiles: Seq<SavedProfileView>,
    i: usize,
    p: SavedProfileView,
)
    requires
        i < profiles.len(),
    ensures
        upsert(profiles, Some(i), p).len() == profiles.len(),
        upsert(profiles, Some(i), p)[i as int] == p,
        forall|k: int|
            0 <= k < profiles.len() && k != i ==> upsert(profiles, Some(i), p)[k] == profiles[k],
{
}

} // verus!
