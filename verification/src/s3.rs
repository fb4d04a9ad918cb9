//! The S3 side of the browser: connection settings, listing entries, which
//! object keys are text, and the keys a recursive folder download writes.
//!
//! The network calls happen at the program's edge; this module turns what
//! they return into entries and messages.
use vstd::prelude::*;
use crate::config::SavedProfile;
use crate::order::{
    comes_before, is_stable_order, lemma_lex_order, lex_lt, stable_order, stable_sort_positions,
    SortKey,
};
use crate::text::{
    after_prefix, after_prefix_str, clone_opt, ends_with, ends_with_char, is_empty_str,
    lowercase, opt_view, or_default, owned, str_eq, string_of_range, to_lowercase, trim_by,
    trim_end_by, trim_end_matches, trim_matches, chars_of, Pattern,
};

verus! {

/// Command-line arguments: connection flags and an optional starting
/// `bucket` or `bucket/prefix`.
#[derive(Clone, Debug, Default, PartialEq, Eq)]
pub struct Args {
    pub region: Option<String>,
    pub profile: Option<String>,
    pub endpoint_url: Option<String>,
    pub bucket: Option<String>,
}

/// Whether any connection flag was given (`--profile`, `--region`,
/// `--endpoint-url`, `--bucket`).
pub open spec fn spec_has_connection_flags(args: Args) -> bool {
    args.profile is Some || args.region is Some || args.endpoint_url is Some || args.bucket is Some
}

/// Whether any connection flag was given.
pub fn has_connection_flags(args: &Args) -> (r: bool)
    ensures
        r == spec_has_connection_flags(*args),
{
    args.profile.is_some() || args.region.is_some() || args.endpoint_url.is_some()
        || args.bucket.is_some()
}

/// Connection settings for building an S3 client, from the command line or
/// from a saved profile.
#[derive(Clone, Debug, Default, PartialEq, Eq)]
pub struct ConnectionParams {
    pub profile: Option<String>,
    pub region: Option<String>,
    pub endpoint_url: Option<String>,
}

/// The contents of `ConnectionParams`.
pub struct ConnectionParamsView {
    pub profile: Option<Seq<char>>,
    pub region: Option<Seq<char>>,
    pub endpoint_url: Option<Seq<char>>,
}

impl View for ConnectionParams {
    type V = ConnectionParamsView;

    open spec fn view(&self) -> ConnectionParamsView {
        ConnectionParamsView {
            profile: opt_view(self.profile),
            region: opt_view(self.region),
            endpoint_url: opt_view(self.endpoint_url),
        }
    }
}

/// `" · "`, the separator of the connection summary.
pub open spec fn summary_separator() -> Seq<char> {
    " · "@
}

/// The one-line summary: endpoint (or `AWS`), region (or `default`) and
/// profile (or `default`), separated by `" · "`.
pub open spec fn summary_of(c: ConnectionParamsView) -> Seq<char> {
    or_default(c.endpoint_url, "AWS"@) + summary_separator() + or_default(c.region, "default"@)
        + summary_separator() + or_default(c.profile, "default"@)
}

fn value_or(o: &Option<String>, d: &str) -> (r: String)
    ensures
        r@ == or_default(opt_view(*o), d@),
{
    match o {
        Some(s) => s.clone(),
        None => owned(d),
    }
}

impl ConnectionParams {
    /// The connection flags of the command line.
    pub fn from_args(args: &Args) -> (r: ConnectionParams)
        ensures
            r@ == (ConnectionParamsView {
                profile: opt_view(args.profile),
                region: opt_view(args.region),
                endpoint_url: opt_view(args.endpoint_url),
            }),
    {
        ConnectionParams {
            profile: clone_opt(&args.profile),
            region: clone_opt(&args.region),
            endpoint_url: clone_opt(&args.endpoint_url),
        }
    }

    /// The connection settings of a saved profile.
    pub fn from_profile(p: &SavedProfile) -> (r: ConnectionParams)
        ensures
            r@ == (ConnectionParamsView {
                profile: p@.profile,
                region: p@.region,
                endpoint_url: p@.endpoint_url,
            }),
    {
        ConnectionParams {
            profile: clone_opt(&p.profile),
            region: clone_opt(&p.region),
            endpoint_url: clone_opt(&p.endpoint_url),
        }
    }

    /// One-line summary of the connection for the header; missing values
    /// fall back to `AWS` (endpoint) or `default` (region and profile).
    pub fn summary(&self) -> (r: String)
        ensures
            r@ == summary_of(self@),
    {
        let endpoint = value_or(&self.endpoint_url, "AWS");
        let region = value_or(&self.region, "default");
        let profile = value_or(&self.profile, "default");
        let mut r = endpoint;
        r.append(" · ");
        r.append(region.as_str());
        r.append(" · ");
        r.append(profile.as_str());
        r
    }

    /// A copy with the same contents.
    pub fn duplicate(&self) -> (r: ConnectionParams)
        ensures
            r@ == self@,
    {
        ConnectionParams {
            profile: clone_opt(&self.profile),
            region: clone_opt(&self.region),
            endpoint_url: clone_opt(&self.endpoint_url),
        }
    }
}

// ---------------------------------------------------------------------------
// Listing entries.
/// One row of a bucket listing: a folder (common prefix) or an object.
#[derive(Clone, Debug, PartialEq, Eq)]
pub struct S3Entry {
    pub name: String,
    pub is_dir: bool,
    pub size: i64,
    pub last_modified: Option<String>,
    pub storage_class: Option<String>,
    pub e_tag: Option<String>,
}

/// The contents of an `S3Entry`.
pub struct S3EntryView {
    pub name: Seq<char>,
    pub is_dir: bool,
    pub size: i64,
    pub last_modified: Option<Seq<char>>,
    pub storage_class: Option<Seq<char>>,
    pub e_tag: Option<Seq<char>>,
}

impl View for S3Entry {
    type V = S3EntryView;

    open spec fn view(&self) -> S3EntryView {
        S3EntryView {
            name: self.name@,
            is_dir: self.is_dir,
            size: self.size,
            last_modified: opt_view(self.last_modified),
            storage_class: opt_view(self.storage_class),
            e_tag: opt_view(self.e_tag),
        }
    }
}

impl DeepView for S3Entry {
    type V = S3EntryView;

    open spec fn deep_view(&self) -> S3EntryView {
        self@
    }
}

impl S3Entry {
    /// A copy with the same contents.
    pub fn duplicate(&self) -> (r: S3Entry)
        ensures
            r@ == self@,
    {
        S3Entry {
            name: self.name.clone(),
            is_dir: self.is_dir,
            size: self.size,
            last_modified: clone_opt(&self.last_modified),
            storage_class: clone_opt(&self.storage_class),
            e_tag: clone_opt(&self.e_tag),
        }
    }
}

/// An object as a listing reports it, its timestamp already rendered as text.
pub struct RawObject {
    pub key: Option<String>,
    pub size: Option<i64>,
    pub last_modified: Option<String>,
    pub storage_class: Option<String>,
    pub e_tag: Option<String>,
}

/// The contents of a `RawObject`.
pub struct RawObjectView {
    pub key: Option<Seq<char>>,
    pub size: Option<i64>,
    pub last_modified: Option<Seq<char>>,
    pub storage_class: Option<Seq<char>>,
    pub e_tag: Option<Seq<char>>,
}

impl View for RawObject {
    type V = RawObjectView;

    open spec fn view(&self) -> RawObjectView {
        RawObjectView {
            key: opt_view(self.key),
            size: self.size,
            last_modified: opt_view(self.last_modified),
            storage_class: opt_view(self.storage_class),
            e_tag: opt_view(self.e_tag),
        }
    }
}

impl DeepView for RawObject {
    type V = RawObjectView;

    open spec fn deep_view(&self) -> RawObjectView {
        self@
    }
}

/// One page of a delimited listing: its folders, its objects, and whether
/// more pages follow (with the token for the next one).
pub struct ObjectPage {
    pub common_prefixes: Vec<Option<String>>,
    pub objects: Vec<RawObject>,
    pub is_truncated: Option<bool>,
    pub next_token: Option<String>,
}

/// The views of a list of optional strings.
pub open spec fn opt_views(v: Seq<Option<String>>) -> Seq<Option<Seq<char>>> {
    v.map_values(|o: Option<String>| opt_view(o))
}

/// The folder entry named `name`.
pub open spec fn dir_entry(name: Seq<char>) -> S3EntryView {
    S3EntryView {
        name,
        is_dir: true,
        size: 0,
        last_modified: None,
        storage_class: None,
        e_tag: None,
    }
}

/// The folder name of a common prefix: the prefix relative to the listed
/// prefix, without trailing slashes.
pub open spec fn folder_name(listed: Seq<char>, common: Seq<char>) -> Seq<char> {
    trim_end_by(after_prefix(common, listed), Pattern::Char('/'))
}

/// The folder entries of a page: one per common prefix whose folder name is
/// not empty, in order.
pub open spec fn dir_entries(listed: Seq<char>, cps: Seq<Option<Seq<char>>>) -> Seq<S3EntryView>
    decreases cps.len(),
{
    if cps.len() == 0 {
        seq![]
    } else {
        let before = dir_entries(listed, cps.drop_last());
        match cps.last() {
            Some(p) => {
                let name = folder_name(listed, p);
                if name.len() > 0 {
                    before.push(dir_entry(name))
                } else {
                    before
                }
            },
            None => before,
        }
    }
}

/// Whether a name relative to the listed prefix is shown as a file: not
/// empty and not a folder marker ending in `/`.
pub open spec fn is_file_name(name: Seq<char>) -> bool {
    name.len() > 0 && !ends_with(name, '/')
}

/// The file entry for an object whose relative name is `name`: its size (0
/// when unknown) and metadata, with quotes stripped from the ETag.
pub open spec fn file_entry(name: Seq<char>, o: RawObjectView) -> S3EntryView {
    S3EntryView {
        name,
        is_dir: false,
        size: match o.size {
            Some(s) => s,
            None => 0,
        },
        last_modified: o.last_modified,
        storage_class: o.storage_class,
        e_tag: match o.e_tag {
            Some(t) => Some(trim_by(t, Pattern::Char('"'))),
            None => None,
        },
    }
}

/// The file entries of a page: one per object with a key whose relative
/// name `is_file_name`, in order.
pub open spec fn file_entries(listed: Seq<char>, objs: Seq<RawObjectView>) -> Seq<S3EntryView>
    decreases objs.len(),
{
    if objs.len() == 0 {
        seq![]
    } else {
        let before = file_entries(listed, objs.drop_last());
        let o = objs.last();
        match o.key {
            Some(k) => {
                let name = after_prefix(k, listed);
                if is_file_name(name) {
                    before.push(file_entry(name, o))
                } else {
                    before
                }
            },
            None => before,
        }
    }
}

/// The entries a page contributes: its folders, then its files.
pub open spec fn page_entries(
    listed: Seq<char>,
    cps: Seq<Option<Seq<char>>>,
    objs: Seq<RawObjectView>,
) -> Seq<S3EntryView> {
    dir_entries(listed, cps) + file_entries(listed, objs)
}

/// Appends the entries of one listing page to `out`.
pub fn push_page_entries(out: &mut Vec<S3Entry>, listed: &str, page: &ObjectPage)
    ensures
        final(out).deep_view() == old(out).deep_view() + page_entries(
            listed@,
            opt_views(page.common_prefixes@),
            page.objects.deep_view(),
        ),
{
    let ghost start = out.deep_view();
    let ghost cps = opt_views(page.common_prefixes@);
    let mut i: usize = 0;
    while i < page.common_prefixes.len()
        invariant
            i <= page.common_prefixes.len(),
            cps == opt_views(page.common_prefixes@),
            out.deep_view() == start + dir_entries(listed@, cps.take(i as int)),
        decreases page.common_prefixes.len() - i,
    {
        assert(cps.take(i + 1).drop_last() =~= cps.take(i as int));
        let ghost before = out.deep_view();
        match &page.common_prefixes[i] {
            Some(p) => {
                let rel = after_prefix_str(p.as_str(), listed);
                let name = trim_end_matches(rel.as_str(), '/');
                if !is_empty_str(name.as_str()) {
                    out.push(S3Entry {
                        name,
                        is_dir: true,
                        size: 0,
                        last_modified: None,
                        storage_class: None,
                        e_tag: None,
                    });
                    assert(out.deep_view() =~= before.push(dir_entry(folder_name(listed@, p@))));
                }
            },
            None => {},
        }
        i += 1;
    }
    assert(cps.take(page.common_prefixes.len() as int) =~= cps);
    let ghost mid = out.deep_view();
    let ghost objs = page.objects.deep_view();
    assert(file_entries(listed@, objs.take(0)) =~= Seq::<S3EntryView>::empty());
    assert(mid + file_entries(listed@, objs.take(0)) =~= mid);
    let mut j: usize = 0;
    while j < page.objects.len()
        invariant
            j <= page.objects.len(),
            objs == page.objects.deep_view(),
            out.deep_view() == mid + file_entries(listed@, objs.take(j as int)),
        decreases page.objects.len() - j,
    {
        assert(objs.take(j + 1).drop_last() =~= objs.take(j as int));
        let o = &page.objects[j];
        assert(objs.take(j + 1).last() == o@);
        let ghost before = out.deep_view();
        match &o.key {
            Some(k) => {
                let name = after_prefix_str(k.as_str(), listed);
                if !is_empty_str(name.as_str()) && !ends_with_char(name.as_str(), '/') {
                    let e_tag = match &o.e_tag {
                        Some(t) => Some(trim_matches(t.as_str(), '"')),
                        None => None,
                    };
                    let size = match o.size {
                        Some(s) => s,
                        None => 0,
                    };
                    out.push(S3Entry {
                        name,
                        is_dir: false,
                        size,
                        last_modified: clone_opt(&o.last_modified),
                        storage_class: clone_opt(&o.storage_class),
                        e_tag,
                    });
                    assert(out.deep_view() =~= before.push(
                        file_entry(after_prefix(k@, listed@), o@),
                    ));
                }
            },
            None => {},
        }
        j += 1;
    }
    assert(objs.take(page.objects.len() as int) =~= objs);
    assert(out.deep_view() =~= start + page_entries(listed@, cps, objs));
}

// ---------------------------------------------------------------------------
// Text files.
/// Index of the last `c` in `s`, or `-1`.
pub open spec fn rfind_char(s: Seq<char>, c: char) -> int
    decreases s.len(),
{
    if s.len() == 0 {
        -1
    } else if s.last() == c {
        s.len() - 1
    } else {
        rfind_char(s.drop_last(), c)
    }
}

/// The part of `s` after its last `c` (all of `s` when it has none): the
/// first item of `s.rsplit(c)`.
pub open spec fn last_piece(s: Seq<char>, c: char) -> Seq<char> {
    s.skip(rfind_char(s, c) + 1)
}

/// The first item of `s.rsplit(c)`.
pub fn last_piece_str(s: &str, c: char) -> (r: String)
    ensures
        r@ == last_piece(s@, c),
{
    let v = chars_of(s);
    let mut j = v.len();
    assert(s@.take(j as int) =~= s@);
    while j > 0 && v[j - 1] != c
        invariant
            v@ == s@,
            j <= v.len(),
            rfind_char(s@, c) == rfind_char(s@.take(j as int), c),
        decreases j,
    {
        assert(s@.take(j as int).drop_last() =~= s@.take(j - 1));
        j -= 1;
    }
    proof {
        if j == 0 {
            assert(s@.take(0) =~= Seq::<char>::empty());
        }
    }
    string_of_range(&v, j, v.len())
}

/// The extensions of files shown as text.
pub open spec fn text_extensions() -> Seq<Seq<char>> {
    seq![
        "txt"@, "json"@, "yaml"@, "yml"@, "xml"@, "csv"@, "tsv"@, "md"@, "markdown"@, "html"@,
        "htm"@, "css"@, "js"@, "ts"@, "jsx"@, "tsx"@, "py"@, "rb"@, "rs"@, "go"@, "java"@, "c"@,
        "h"@, "cpp"@, "hpp"@, "cs"@, "sh"@, "bash"@, "zsh"@, "fish"@, "toml"@, "ini"@, "cfg"@,
        "conf"@, "properties"@, "env"@, "log"@, "sql"@, "graphql"@, "gql"@, "proto"@, "tf"@,
        "hcl"@, "lua"@, "pl"@, "pm"@, "r"@, "scala"@, "kt"@, "kts"@, "swift"@, "m"@, "mm"@,
        "zig"@, "nim"@, "ex"@, "exs"@, "erl"@, "hrl"@, "hs"@, "ml"@, "mli"@, "lisp"@, "cl"@,
        "el"@, "clj"@, "cljs"@, "cljc"@, "edn"@, "svelte"@, "vue"@, "php"@, "twig"@, "erb"@,
        "haml"@, "slim"@, "pug"@, "jade"@, "sass"@, "scss"@, "less"@, "styl"@, "dockerfile"@,
        "makefile"@, "cmake"@, "gitignore"@, "gitattributes"@, "editorconfig"@, "prettierrc"@,
        "eslintrc"@, "babelrc"@,
    ]
}

/// File names without an extension that are shown as text.
pub open spec fn text_basenames() -> Seq<Seq<char>> {
    seq![
        "dockerfile"@, "makefile"@, "rakefile"@, "gemfile"@, "procfile"@, "license"@, "readme"@,
    ]
}

fn text_extension_list() -> (v: Vec<&'static str>)
    ensures
        v@.map_values(|x: &str| x@) == text_extensions(),
{
    let v = vec![
        "txt", "json", "yaml", "yml", "xml", "csv", "tsv", "md", "markdown", "html", "htm", "css",
        "js", "ts", "jsx", "tsx", "py", "rb", "rs", "go", "java", "c", "h", "cpp", "hpp", "cs",
        "sh", "bash", "zsh", "fish", "toml", "ini", "cfg", "conf", "properties", "env", "log",
        "sql", "graphql", "gql", "proto", "tf", "hcl", "lua", "pl", "pm", "r", "scala", "kt",
        "kts", "swift", "m", "mm", "zig", "nim", "ex", "exs", "erl", "hrl", "hs", "ml", "mli",
        "lisp", "cl", "el", "clj", "cljs", "cljc", "edn", "svelte", "vue", "php", "twig", "erb",
        "haml", "slim", "pug", "jade", "sass", "scss", "less", "styl", "dockerfile", "makefile",
        "cmake", "gitignore", "gitattributes", "editorconfig", "prettierrc", "eslintrc", "babelrc",
    ];
    assert(v@.map_values(|x: &str| x@) =~= text_extensions());
    v
}

fn text_basename_list() -> (v: Vec<&'static str>)
    ensures
        v@.map_values(|x: &str| x@) == text_basenames(),
{
    let v = vec!["dockerfile", "makefile", "rakefile", "gemfile", "procfile", "license", "readme"];
    assert(v@.map_values(|x: &str| x@) =~= text_basenames());
    v
}

fn list_contains(list: &Vec<&'static str>, s: &str) -> (r: bool)
    ensures
        r == list@.map_values(|x: &str| x@).contains(s@),
{
    let ghost views = list@.map_values(|x: &str| x@);
    let mut i: usize = 0;
    while i < list.len()
        invariant
            i <= list.len(),
            views == list@.map_values(|x: &str| x@),
            forall|k: int| 0 <= k < i ==> views[k] != s@,
        decreases list.len() - i,
    {
        if str_eq(list[i], s) {
            assert(views[i as int] == s@);
            return true;
        }
        i += 1;
    }
    false
}

/// Whether a lowercased file name is shown as text: its last path component
/// is a known extensionless text file, or the part after its last dot is a
/// text extension.
pub open spec fn is_text_lowercase(lower: Seq<char>) -> bool {
    text_basenames().contains(last_piece(lower, '/')) || text_extensions().contains(
        last_piece(lower, '.'),
    )
}

/// The part after the last `c` of `stem`, `c` and a tail without `c` is that
/// tail.
proof fn lemma_last_piece_after(stem: Seq<char>, c: char, tail: Seq<char>)
    requires
        !tail.contains(c),
    ensures
        rfind_char(stem.push(c) + tail, c) == stem.len(),
        last_piece(stem.push(c) + tail, c) == tail,
    decreases tail.len(),
{
    let s = stem.push(c) + tail;
    if tail.len() == 0 {
        assert(s =~= stem.push(c));
    } else {
        assert(tail[tail.len() - 1] == tail.last());
        assert(s.last() == tail.last());
        assert(s.drop_last() =~= stem.push(c) + tail.drop_last());
        assert(!tail.drop_last().contains(c)) by {
            if tail.drop_last().contains(c) {
                let k = choose|k: int| 0 <= k < tail.drop_last().len() && tail.drop_last()[k] == c;
                assert(tail[k] == c);
            }
        }
        lemma_last_piece_after(stem, c, tail.drop_last());
    }
    assert(s.skip(stem.len() as int + 1) =~= tail);
}

/// No text extension holds a dot.
proof fn lemma_extensions_dotless()
    ensures
        forall|i: int| 0 <= i < text_extensions().len() ==> !(#[trigger] text_extensions()[i]).contains('.'),
{
    reveal_strlit("txt");
    reveal_strlit("json");
    reveal_strlit("yaml");
    reveal_strlit("yml");
    reveal_strlit("xml");
    reveal_strlit("csv");
    reveal_strlit("tsv");
    reveal_strlit("md");
    reveal_strlit("markdown");
    reveal_strlit("html");
    reveal_strlit("htm");
    reveal_strlit("css");
    reveal_strlit("js");
    reveal_strlit("ts");
    reveal_strlit("jsx");
    reveal_strlit("tsx");
    reveal_strlit("py");
    reveal_strlit("rb");
    reveal_strlit("rs");
    reveal_strlit("go");
    reveal_strlit("java");
    reveal_strlit("c");
    reveal_strlit("h");
    reveal_strlit("cpp");
    reveal_strlit("hpp");
    reveal_strlit("cs");
    reveal_strlit("sh");
    reveal_strlit("bash");
    reveal_strlit("zsh");
    reveal_strlit("fish");
    reveal_strlit("toml");
    reveal_strlit("ini");
    reveal_strlit("cfg");
    reveal_strlit("conf");
    reveal_strlit("properties");
    reveal_strlit("env");
    reveal_strlit("log");
    reveal_strlit("sql");
    reveal_strlit("graphql");
    reveal_strlit("gql");
    reveal_strlit("proto");
    reveal_strlit("tf");
    reveal_strlit("hcl");
    reveal_strlit("lua");
    reveal_strlit("pl");
    reveal_strlit("pm");
    reveal_strlit("r");
    reveal_strlit("scala");
    reveal_strlit("kt");
    reveal_strlit("kts");
    reveal_strlit("swift");
    reveal_strlit("m");
    reveal_strlit("mm");
    reveal_strlit("zig");
    reveal_strlit("nim");
    reveal_strlit("ex");
    reveal_strlit("exs");
    reveal_strlit("erl");
    reveal_strlit("hrl");
    reveal_strlit("hs");
    reveal_strlit("ml");
    reveal_strlit("mli");
    reveal_strlit("lisp");
    reveal_strlit("cl");
    reveal_strlit("el");
    reveal_strlit("clj");
    reveal_strlit("cljs");
    reveal_strlit("cljc");
    reveal_strlit("edn");
    reveal_strlit("svelte");
    reveal_strlit("vue");
    reveal_strlit("php");
    reveal_strlit("twig");
    reveal_strlit("erb");
    reveal_strlit("haml");
    reveal_strlit("slim");
    reveal_strlit("pug");
    reveal_strlit("jade");
    reveal_strlit("sass");
    reveal_strlit("scss");
    reveal_strlit("less");
    reveal_strlit("styl");
    reveal_strlit("dockerfile");
    reveal_strlit("makefile");
    reveal_strlit("cmake");
    reveal_strlit("gitignore");
    reveal_strlit("gitattributes");
    reveal_strlit("editorconfig");
    reveal_strlit("prettierrc");
    reveal_strlit("eslintrc");
    reveal_strlit("babelrc");
    assert forall|i: int| 0 <= i < text_extensions().len() implies !(#[trigger] text_extensions()[i]).contains('.') by {
        let e = text_extensions()[i];
        if e.contains('.') {
            let k = choose|k: int| 0 <= k < e.len() && e[k] == '.';
        }
    }
}

/// A name is previewed as text whenever the part after its last dot is a
/// text extension, however many dots come before: `jquery.min.js`,
/// `app.config.json` and `notes.v2.md` are text.
pub proof fn law_text_by_last_extension(name: Seq<char>, stem: Seq<char>, ext: Seq<char>)
    requires
        text_extensions().contains(ext),
        lowercase(name) == stem.push('.') + ext,
    ensures
        is_text_lowercase(lowercase(name)),
{
    lemma_extensions_dotless();
    let i = choose|i: int| 0 <= i < text_extensions().len() && text_extensions()[i] == ext;
    assert(!text_extensions()[i].contains('.'));
    lemma_last_piece_after(stem, '.', ext);
}

/// Whether an already lowercased name is shown as text.
pub fn is_text_name(lower: &str) -> (r: bool)
    ensures
        r == is_text_lowercase(lower@),
{
    let basename = last_piece_str(lower, '/');
    if list_contains(&text_basename_list(), basename.as_str()) {
        return true;
    }
    let ext = last_piece_str(lower, '.');
    list_contains(&text_extension_list(), ext.as_str())
}

/// Whether a file is previewed as text rather than downloaded, decided on
/// its lowercased name.
pub fn is_text_file(name: &str) -> (r: bool)
    ensures
        r == is_text_lowercase(lowercase(name@)),
{
    let lower = to_lowercase(name);
    is_text_name(lower.as_str())
}

// ---------------------------------------------------------------------------
// Recursive downloads.
/// The path of `key` relative to `prefix`, or nothing when `key` is a folder
/// marker (the prefix itself, or any key ending in `/`).
pub open spec fn spec_relative_key(prefix: Seq<char>, key: Seq<char>) -> Option<Seq<char>> {
    let rel = after_prefix(key, prefix);
    if is_file_name(rel) {
        Some(rel)
    } else {
        None
    }
}

/// Path of `key` relative to `prefix`, or `None` when `key` is a folder
/// placeholder with no local file to write.
pub fn relative_key(prefix: &str, key: &str) -> (r: Option<String>)
    ensures
        match r {
            Some(s) => spec_relative_key(prefix@, key@) == Some(s@),
            None => spec_relative_key(prefix@, key@) is None,
        },
{
    let rel = after_prefix_str(key, prefix);
    if is_empty_str(rel.as_str()) || ends_with_char(rel.as_str(), '/') {
        return None;
    }
    Some(rel)
}

/// A key under `prefix` that is not a folder marker has a relative path that
/// is a non-empty file name, and the prefix followed by that path is the key.
pub proof fn law_relative_key_rebuilds_key(prefix: Seq<char>, key: Seq<char>)
    requires
        prefix.is_prefix_of(key),
    ensures
        spec_relative_key(prefix, key) matches Some(rel) ==> prefix + rel == key && rel.len() > 0
            && !ends_with(rel, '/'),
        spec_relative_key(prefix, key) is None ==> key.len() == prefix.len() || ends_with(key, '/'),
{
    let rel = key.skip(prefix.len() as int);
    assert(prefix + rel =~= key);
    if rel.len() > 0 {
        assert(rel.last() == key.last());
    }
}

// ---------------------------------------------------------------------------
// Listing order.
/// The sort keys of a listing: folders first, then by name.
pub open spec fn entry_keys(es: Seq<S3EntryView>) -> Seq<(bool, Seq<char>)> {
    es.map_values(|e: S3EntryView| (e.is_dir, e.name))
}

/// A listing in display order: folders before files, names increasing by
/// code point within each group, entries with equal keys in their original
/// order.
pub open spec fn sorted_listing(es: Seq<S3EntryView>) -> Seq<S3EntryView> {
    stable_order(entry_keys(es)).map_values(|k: usize| es[k as int])
}

/// Sorts a listing into display order.
pub fn sort_entries(v: &Vec<S3Entry>) -> (r: Vec<S3Entry>)
    ensures
        r.deep_view() == sorted_listing(v.deep_view()),
        r.len() == v.len(),
        forall|i: int, j: int| 0 <= i < j < r.len() ==> (r@[j].is_dir ==> r@[i].is_dir),
        forall|i: int, j: int|
            0 <= i < j < r.len() && r@[i].is_dir == r@[j].is_dir ==> !lex_lt(r@[j].name@, r@[i].name@),
        forall|k: int| 0 <= k < v.len() ==> r.deep_view().contains(#[trigger] v.deep_view()[k]),
{
    let mut keys: Vec<SortKey> = Vec::new();
    let mut i: usize = 0;
    while i < v.len()
        invariant
            i <= v.len(),
            keys@.map_values(|k: SortKey| k@) == entry_keys(v.deep_view()).take(i as int),
        decreases v.len() - i,
    {
        let ghost before = keys@.map_values(|k: SortKey| k@);
        keys.push(SortKey { first: v[i].is_dir, name: chars_of(v[i].name.as_str()) });
        assert(keys@.map_values(|k: SortKey| k@) =~= before.push((v@[i as int].is_dir, v@[i as int].name@)));
        assert(entry_keys(v.deep_view()).take(i + 1) =~= entry_keys(v.deep_view()).take(i as int).push(
            (v@[i as int].is_dir, v@[i as int].name@),
        ));
        i += 1;
    }
    assert(entry_keys(v.deep_view()).take(v.len() as int) =~= entry_keys(v.deep_view()));
    let perm = stable_sort_positions(&keys);
    let ghost target = sorted_listing(v.deep_view());
    let mut r: Vec<S3Entry> = Vec::new();
    let mut j: usize = 0;
    while j < perm.len()
        invariant
            j <= perm.len(),
            perm.len() == v.len(),
            forall|t: int| 0 <= t < perm.len() ==> perm@[t] < v.len(),
            perm@ == stable_order(entry_keys(v.deep_view())),
            is_stable_order(entry_keys(v.deep_view()), perm@),
            target == sorted_listing(v.deep_view()),
            r.deep_view() == target.take(j as int),
        decreases perm.len() - j,
    {
        let ghost before = r.deep_view();
        r.push(v[perm[j]].duplicate());
        assert(target[j as int] == v.deep_view()[perm@[j as int] as int]);
        assert(target.take(j + 1) =~= target.take(j as int).push(target[j as int]));
        assert(r.deep_view() =~= target.take(j + 1));
        j += 1;
    }
    assert(target.take(perm.len() as int) =~= target);
    proof {
        let keys = entry_keys(v.deep_view());
        let p = perm@;
        let es = v.deep_view();
        assert(r.deep_view().len() == r.len());
        assert(r.len() == p.len());
        assert forall|i: int, j: int| 0 <= i < j < r.len() && r@[j].is_dir implies r@[i].is_dir by {
            assert(comes_before(keys, p[i], p[j]));
            assert(r.deep_view()[i] == es[p[i] as int]);
            assert(r.deep_view()[j] == es[p[j] as int]);
            assert(r@[i]@ == r.deep_view()[i]);
            assert(r@[j]@ == r.deep_view()[j]);
        }
        assert forall|i: int, j: int|
            0 <= i < j < r.len() && r@[i].is_dir == r@[j].is_dir implies !lex_lt(
            r@[j].name@,
            r@[i].name@,
        ) by {
            assert(comes_before(keys, p[i], p[j]));
            assert(r.deep_view()[i] == es[p[i] as int]);
            assert(r.deep_view()[j] == es[p[j] as int]);
            assert(r@[i]@ == r.deep_view()[i]);
            assert(r@[j]@ == r.deep_view()[j]);
            lemma_lex_order(es[p[i] as int].name, es[p[j] as int].name);
        }
        assert forall|k: int| 0 <= k < v.len() implies r.deep_view().contains(#[trigger] es[k]) by {
            assert(p.contains(k as usize));
            let t = choose|t: int| 0 <= t < p.len() && p[t] == k as usize;
            assert(r.deep_view()[t] == es[k]);
        }
    }
    r
}

} // verus!
