//! The configuration form: five text fields, the index of the active one,
//! and a caret within it.
use vstd::prelude::*;
use crate::config::{SavedProfile, SavedProfileView};
use crate::s3::{ConnectionParams, ConnectionParamsView};
use crate::text::{
    cat, cat3, chars_of, clone_or_empty, is_empty_str, opt_view, or_default, push_char,
    string_of_range, trim, trim_end_by, trim_end_matches, trim_str, Pattern,
};

verus! {

/// Number of fields of the form.
pub const FIELDS: usize = 5;

/// The form's buffers (name, AWS profile, region, endpoint URL, bucket), the
/// index of the field being edited, and the caret, counted as the number of
/// characters of that field after it (0: at the end; any count beyond the
/// field's length puts it at the start).
#[derive(Debug)]
pub struct ConfigForm {
    pub name: String,
    pub profile: String,
    pub region: String,
    pub endpoint_url: String,
    pub bucket: String,
    pub field: usize,
    pub after_caret: usize,
}

/// The contents of a `ConfigForm`.
pub struct ConfigFormView {
    pub name: Seq<char>,
    pub profile: Seq<char>,
    pub region: Seq<char>,
    pub endpoint_url: Seq<char>,
    pub bucket: Seq<char>,
    pub field: usize,
    pub after_caret: usize,
}

impl View for ConfigForm {
    type V = ConfigFormView;

    open spec fn view(&self) -> ConfigFormView {
        ConfigFormView {
            name: self.name@,
            profile: self.profile@,
            region: self.region@,
            endpoint_url: self.endpoint_url@,
            bucket: self.bucket@,
            field: self.field,
            after_caret: self.after_caret,
        }
    }
}

/// The empty form, on its first field.
pub open spec fn empty_form() -> ConfigFormView {
    ConfigFormView {
        name: seq![],
        profile: seq![],
        region: seq![],
        endpoint_url: seq![],
        bucket: seq![],
        field: 0,
        after_caret: 0,
    }
}

impl Default for ConfigForm {
    fn default() -> (r: ConfigForm)
        ensures
            r@ == empty_form(),
    {
        ConfigForm {
            name: String::new(),
            profile: String::new(),
            region: String::new(),
            endpoint_url: String::new(),
            bucket: String::new(),
            field: 0,
            after_caret: 0,
        }
    }
}

/// The text of the field with index `f` (index 4 and above is the bucket).
pub open spec fn field_text(form: ConfigFormView, f: usize) -> Seq<char> {
    if f == 0 {
        form.name
    } else if f == 1 {
        form.profile
    } else if f == 2 {
        form.region
    } else if f == 3 {
        form.endpoint_url
    } else {
        form.bucket
    }
}

/// The form with the text of field `f` replaced by `t`.
pub open spec fn with_field_text(form: ConfigFormView, f: usize, t: Seq<char>) -> ConfigFormView {
    if f == 0 {
        ConfigFormView { name: t, ..form }
    } else if f == 1 {
        ConfigFormView { profile: t, ..form }
    } else if f == 2 {
        ConfigFormView { region: t, ..form }
    } else if f == 3 {
        ConfigFormView { endpoint_url: t, ..form }
    } else {
        ConfigFormView { bucket: t, ..form }
    }
}

/// A trimmed optional value: `None` when only whitespace is left.
pub open spec fn optional_value(s: Seq<char>) -> Option<Seq<char>> {
    if trim(s).len() == 0 {
        None
    } else {
        Some(trim(s))
    }
}

/// The profile the form describes: the trimmed name, and each optional field
/// trimmed, or absent when it is blank.
pub open spec fn form_profile(form: ConfigFormView) -> SavedProfileView {
    SavedProfileView {
        name: trim(form.name),
        profile: optional_value(form.profile),
        region: optional_value(form.region),
        endpoint_url: optional_value(form.endpoint_url),
        bucket: optional_value(form.bucket),
    }
}

/// The bucket field for a session in `bucket` at `prefix`: empty without a
/// bucket, the bucket alone at its root, else `bucket/prefix` without the
/// prefix's trailing slashes.
pub open spec fn session_bucket_field(bucket: Seq<char>, prefix: Seq<char>) -> Seq<char> {
    if bucket.len() == 0 {
        seq![]
    } else if prefix.len() == 0 {
        bucket
    } else {
        bucket + seq!['/'] + trim_end_by(prefix, Pattern::Char('/'))
    }
}

/// The form pre-filled from a session.
pub open spec fn session_form(
    conn: ConnectionParamsView,
    bucket: Seq<char>,
    prefix: Seq<char>,
) -> ConfigFormView {
    ConfigFormView {
        name: seq![],
        profile: or_default(conn.profile, seq![]),
        region: or_default(conn.region, seq![]),
        endpoint_url: or_default(conn.endpoint_url, seq![]),
        bucket: session_bucket_field(bucket, prefix),
        field: 0,
        after_caret: 0,
    }
}

/// The form pre-filled from a saved profile.
pub open spec fn profile_form(p: SavedProfileView) -> ConfigFormView {
    ConfigFormView {
        name: p.name,
        profile: or_default(p.profile, seq![]),
        region: or_default(p.region, seq![]),
        endpoint_url: or_default(p.endpoint_url, seq![]),
        bucket: or_default(p.bucket, seq![]),
        field: 0,
        after_caret: 0,
    }
}

// ---------------------------------------------------------------------------
// The caret.
/// The text of the active field.
pub open spec fn active_text(form: ConfigFormView) -> Seq<char> {
    field_text(form, form.field)
}

/// How many characters of the active field follow the caret.
pub open spec fn caret_back(form: ConfigFormView) -> nat {
    if form.after_caret < active_text(form).len() {
        form.after_caret as nat
    } else {
        active_text(form).len()
    }
}

/// The caret's index within the active field.
pub open spec fn caret_index(form: ConfigFormView) -> int {
    active_text(form).len() - caret_back(form)
}

/// `←`: the caret one character to the left, unless it is at the start.
pub open spec fn caret_left(form: ConfigFormView) -> ConfigFormView {
    if caret_back(form) < active_text(form).len() {
        ConfigFormView { after_caret: (caret_back(form) + 1) as usize, ..form }
    } else {
        form
    }
}

/// `→`: the caret one character to the right, unless it is at the end.
pub open spec fn caret_right(form: ConfigFormView) -> ConfigFormView {
    if caret_back(form) > 0 {
        ConfigFormView { after_caret: (caret_back(form) - 1) as usize, ..form }
    } else {
        form
    }
}

/// `Home`: the caret at the start of the field.
pub open spec fn caret_home(form: ConfigFormView) -> ConfigFormView {
    ConfigFormView { after_caret: active_text(form).len() as usize, ..form }
}

/// `End`: the caret at the end of the field.
pub open spec fn caret_end(form: ConfigFormView) -> ConfigFormView {
    ConfigFormView { after_caret: 0, ..form }
}

/// Typing `c`: it is inserted at the caret, which moves past it.
pub open spec fn insert_at_caret(form: ConfigFormView, c: char) -> ConfigFormView {
    ConfigFormView {
        after_caret: caret_back(form) as usize,
        ..with_field_text(form, form.field, active_text(form).insert(caret_index(form), c))
    }
}

/// `Backspace`: the character before the caret is deleted, if there is one.
pub open spec fn delete_before_caret(form: ConfigFormView) -> ConfigFormView {
    if caret_index(form) > 0 {
        ConfigFormView {
            after_caret: caret_back(form) as usize,
            ..with_field_text(form, form.field, active_text(form).remove(caret_index(form) - 1))
        }
    } else {
        form
    }
}

/// `Delete`: the character at the caret is deleted, if there is one.
pub open spec fn delete_at_caret(form: ConfigFormView) -> ConfigFormView {
    if caret_back(form) > 0 {
        ConfigFormView {
            after_caret: (caret_back(form) - 1) as usize,
            ..with_field_text(form, form.field, active_text(form).remove(caret_index(form)))
        }
    } else {
        form
    }
}

fn optional_field(s: &String) -> (r: Option<String>)
    ensures
        opt_view(r) == optional_value(s@),
{
    let t = trim_str(s.as_str());
    if is_empty_str(t.as_str()) {
        None
    } else {
        Some(t)
    }
}

impl ConfigForm {
    /// Moves to the next field, wrapping after the last, with the caret at
    /// the end of that field.
    pub fn next_field(&mut self)
        requires
            old(self).field < usize::MAX,
        ensures
            *final(self) == (ConfigForm {
                field: ((old(self).field + 1) % 5) as usize,
                after_caret: 0,
                ..*old(self)
            }),
    {
        self.field = (self.field + 1) % FIELDS;
        self.after_caret = 0;
    }

    /// Moves to the previous field, wrapping before the first, with the caret
    /// at the end of that field.
    pub fn prev_field(&mut self)
        requires
            old(self).field <= usize::MAX - 5,
        ensures
            *final(self) == (ConfigForm {
                field: ((old(self).field + 4) % 5) as usize,
                after_caret: 0,
                ..*old(self)
            }),
    {
        self.field = (self.field + FIELDS - 1) % FIELDS;
        self.after_caret = 0;
    }

    /// The buffer of the active field (the bucket for any index from 4 on).
    pub fn active_buf(&mut self) -> (r: &mut String)
        ensures
            *r == (if old(self).field == 0 {
                old(self).name
            } else if old(self).field == 1 {
                old(self).profile
            } else if old(self).field == 2 {
                old(self).region
            } else if old(self).field == 3 {
                old(self).endpoint_url
            } else {
                old(self).bucket
            }),
            *final(self) == (if old(self).field == 0 {
                ConfigForm { name: *final(r), ..*old(self) }
            } else if old(self).field == 1 {
                ConfigForm { profile: *final(r), ..*old(self) }
            } else if old(self).field == 2 {
                ConfigForm { region: *final(r), ..*old(self) }
            } else if old(self).field == 3 {
                ConfigForm { endpoint_url: *final(r), ..*old(self) }
            } else {
                ConfigForm { bucket: *final(r), ..*old(self) }
            }),
    {
        match self.field {
            0 => &mut self.name,
            1 => &mut self.profile,
            2 => &mut self.region,
            3 => &mut self.endpoint_url,
            _ => &mut self.bucket,
        }
    }

    /// The text of the active field (the bucket for any index from 4 on).
    fn active_text(&self) -> (r: &String)
        ensures
            r@ == active_text(self@),
    {
        match self.field {
            0 => &self.name,
            1 => &self.profile,
            2 => &self.region,
            3 => &self.endpoint_url,
            _ => &self.bucket,
        }
    }

    /// The characters of the active field, and how many of them follow the
    /// caret.
    fn caret_place(&self) -> (r: (Vec<char>, usize))
        ensures
            r.0@ == active_text(self@),
            r.1 == caret_back(self@),
    {
        let v = chars_of(self.active_text().as_str());
        let back = if self.after_caret < v.len() {
            self.after_caret
        } else {
            v.len()
        };
        (v, back)
    }

    /// Replaces the text of the active field.
    fn set_active_text(&mut self, t: String)
        ensures
            final(self)@ == with_field_text(old(self)@, old(self).field, t@),
    {
        let b = self.active_buf();
        *b = t;
    }

    /// Moves the caret one character to the left, unless it is at the start.
    pub fn move_left(&mut self)
        ensures
            final(self)@ == caret_left(old(self)@),
    {
        let (v, back) = self.caret_place();
        if back < v.len() {
            self.after_caret = back + 1;
        }
    }

    /// Moves the caret one character to the right, unless it is at the end.
    pub fn move_right(&mut self)
        ensures
            final(self)@ == caret_right(old(self)@),
    {
        let (_v, back) = self.caret_place();
        if back > 0 {
            self.after_caret = back - 1;
        }
    }

    /// Moves the caret to the start of the field.
    pub fn move_home(&mut self)
        ensures
            final(self)@ == caret_home(old(self)@),
    {
        let (v, _back) = self.caret_place();
        self.after_caret = v.len();
    }

    /// Moves the caret to the end of the field.
    pub fn move_end(&mut self)
        ensures
            final(self)@ == caret_end(old(self)@),
    {
        self.after_caret = 0;
    }

    /// Inserts `c` at the caret; the caret moves past it.
    pub fn insert_char(&mut self, c: char)
        ensures
            final(self)@ == insert_at_caret(old(self)@, c),
    {
        let (v, back) = self.caret_place();
        let pos = v.len() - back;
        let mut head = string_of_range(&v, 0, pos);
        push_char(&mut head, c);
        let tail = string_of_range(&v, pos, v.len());
        let t = cat(head.as_str(), tail.as_str());
        assert(t@ =~= v@.insert(pos as int, c));
        self.set_active_text(t);
        self.after_caret = back;
    }

    /// Deletes the character before the caret, if there is one.
    pub fn delete_before(&mut self)
        ensures
            final(self)@ == delete_before_caret(old(self)@),
    {
        let (v, back) = self.caret_place();
        let pos = v.len() - back;
        if pos > 0 {
            let head = string_of_range(&v, 0, pos - 1);
            let tail = string_of_range(&v, pos, v.len());
            let t = cat(head.as_str(), tail.as_str());
            assert(t@ =~= v@.remove(pos - 1));
            self.set_active_text(t);
            self.after_caret = back;
        }
    }

    /// Deletes the character at the caret, if there is one.
    pub fn delete_at(&mut self)
        ensures
            final(self)@ == delete_at_caret(old(self)@),
    {
        let (v, back) = self.caret_place();
        let pos = v.len() - back;
        if back > 0 {
            let head = string_of_range(&v, 0, pos);
            let tail = string_of_range(&v, pos + 1, v.len());
            let t = cat(head.as_str(), tail.as_str());
            assert(t@ =~= v@.remove(pos as int));
            self.set_active_text(t);
            self.after_caret = back - 1;
        }
    }

    /// Empties every field and returns to the first one.
    pub fn clear(&mut self)
        ensures
            final(self)@ == empty_form(),
    {
        *self = ConfigForm::default();
    }

    /// The profile the form describes: trimmed name, optional fields trimmed
    /// or absent when blank.
    pub fn to_profile(&self) -> (r: SavedProfile)
        ensures
            r@ == form_profile(self@),
    {
        SavedProfile {
            name: trim_str(self.name.as_str()),
            profile: optional_field(&self.profile),
            region: optional_field(&self.region),
            endpoint_url: optional_field(&self.endpoint_url),
            bucket: optional_field(&self.bucket),
        }
    }

    /// Pre-fills the form from the active session (to save it as a
    /// configuration).
    pub fn from_session(conn: &ConnectionParams, bucket: &str, prefix: &str) -> (r: ConfigForm)
        ensures
            r@ == session_form(conn@, bucket@, prefix@),
    {
        let bucket_field = if is_empty_str(bucket) {
            String::new()
        } else if is_empty_str(prefix) {
            String::from_str(bucket)
        } else {
            let trimmed = trim_end_matches(prefix, '/');
            proof {
                reveal_strlit("/");
            }
            let f = cat3(bucket, "/", trimmed.as_str());
            assert(f@ =~= bucket@ + seq!['/'] + trimmed@);
            f
        };
        ConfigForm {
            name: String::new(),
            profile: clone_or_empty(&conn.profile),
            region: clone_or_empty(&conn.region),
            endpoint_url: clone_or_empty(&conn.endpoint_url),
            bucket: bucket_field,
            field: 0,
            after_caret: 0,
        }
    }

    /// Pre-fills the form from a saved profile (to edit it).
    pub fn from_profile(p: &SavedProfile) -> (r: ConfigForm)
        ensures
            r@ == profile_form(p@),
    {
        ConfigForm {
            name: p.name.clone(),
            profile: clone_or_empty(&p.profile),
            region: clone_or_empty(&p.region),
            endpoint_url: clone_or_empty(&p.endpoint_url),
            bucket: clone_or_empty(&p.bucket),
            field: 0,
            after_caret: 0,
        }
    }
}

/// Stepping to the next field and back returns to the same field, and both
/// steps stay among the form's five fields.
pub proof fn law_field_steps_inverse(f: usize)
    requires
        f < FIELDS,
    ensures
        ((f + 1) % 5) < 5,
        ((f + 4) % 5) < 5,
        (((f + 1) % 5) + 4) % 5 == f,
        (((f + 4) % 5) + 1) % 5 == f,
{
}

/// A profile whose name and present values carry no surrounding whitespace,
/// and whose present values are not empty: what a form can produce.
pub open spec fn is_normalized(p: SavedProfileView) -> bool {
    &&& trim(p.name) == p.name
    &&& p.profile matches Some(s) ==> s.len() > 0 && trim(s) == s
    &&& p.region matches Some(s) ==> s.len() > 0 && trim(s) == s
    &&& p.endpoint_url matches Some(s) ==> s.len() > 0 && trim(s) == s
    &&& p.bucket matches Some(s) ==> s.len() > 0 && trim(s) == s
}

proof fn lemma_optional_round_trip(o: Option<Seq<char>>)
    requires
        o matches Some(s) ==> s.len() > 0 && trim(s) == s,
    ensures
        optional_value(or_default(o, seq![])) == o,
{
    if o is None {
        let e: Seq<char> = seq![];
        assert(trim(e) =~= e);
    }
}

/// Editing nothing and saving reproduces the profile the form was filled
/// from, for every profile that saving a form can produce.
pub proof fn law_form_round_trip(p: SavedProfileView)
    requires
        is_normalized(p),
    ensures
        form_profile(profile_form(p)) == p,
{
    lemma_optional_round_trip(p.profile);
    lemma_optional_round_trip(p.region);
    lemma_optional_round_trip(p.endpoint_url);
    lemma_optional_round_trip(p.bucket);
}

/// Whatever a form holds, the profile it describes is normalized.
pub proof fn law_form_profile_normalized(form: ConfigFormView)
    ensures
        is_normalized(form_profile(form)),
{
    crate::text::lemma_trim_idempotent(form.name, Pattern::Whitespace);
    crate::text::lemma_trim_idempotent(form.profile, Pattern::Whitespace);
    crate::text::lemma_trim_idempotent(form.region, Pattern::Whitespace);
    crate::text::lemma_trim_idempotent(form.endpoint_url, Pattern::Whitespace);
    crate::text::lemma_trim_idempotent(form.bucket, Pattern::Whitespace);
}


proof fn lemma_with_active(form: ConfigFormView, t: Seq<char>, u: Seq<char>)
    ensures
        with_field_text(form, form.field, t).field == form.field,
        with_field_text(form, form.field, t).after_caret == form.after_caret,
        active_text(with_field_text(form, form.field, t)) == t,
        with_field_text(with_field_text(form, form.field, t), form.field, u) == with_field_text(
            form,
            form.field,
            u,
        ),
        with_field_text(form, form.field, active_text(form)) == form,
{
}

/// Typing a character and deleting it with `Backspace` gives back the form
/// as it was, with the caret where it was.
pub proof fn law_type_then_backspace(form: ConfigFormView, c: char)
    ensures
        delete_before_caret(insert_at_caret(form, c)) == (ConfigFormView {
            after_caret: caret_back(form) as usize,
            ..form
        }),
{
    let t = active_text(form);
    let i = caret_index(form);
    let t1 = t.insert(i, c);
    lemma_with_active(form, t1, t1.remove(i));
    let f1 = insert_at_caret(form, c);
    assert(active_text(f1) == t1);
    assert(caret_back(f1) == caret_back(form));
    assert(caret_index(f1) == i + 1);
    assert(t1.remove(i) =~= t);
    lemma_with_active(form, t, t);
    lemma_with_active(f1, t, t);
}

/// `Home` then typing puts the character in front of the field's text.
pub proof fn law_home_then_type(form: ConfigFormView, c: char)
    requires
        active_text(form).len() <= usize::MAX,
    ensures
        active_text(insert_at_caret(caret_home(form), c)) == seq![c] + active_text(form),
{
    let h = caret_home(form);
    lemma_with_active(h, active_text(h).insert(0, c), seq![]);
    assert(caret_index(h) == 0);
    assert(active_text(h).insert(0, c) =~= seq![c] + active_text(form));
}

/// `End` then typing appends the character to the field's text.
pub proof fn law_end_then_type(form: ConfigFormView, c: char)
    ensures
        active_text(insert_at_caret(caret_end(form), c)) == active_text(form).push(c),
{
    let e = caret_end(form);
    let n = active_text(e).len() as int;
    lemma_with_active(e, active_text(e).insert(n, c), seq![]);
    assert(caret_index(e) == n);
    assert(active_text(e).insert(n, c) =~= active_text(form).push(c));
}

/// `←` then `→` returns the caret to where it was, unless it was at the
/// start of the field; the text is untouched.
pub proof fn law_left_then_right(form: ConfigFormView)
    requires
        active_text(form).len() <= usize::MAX,
        caret_index(form) > 0,
    ensures
        caret_right(caret_left(form)) == (ConfigFormView {
            after_caret: caret_back(form) as usize,
            ..form
        }),
{
}

} // verus!
