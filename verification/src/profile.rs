//! Profiles: local configs and subscription-backed configs, their metadata
//! files, and the profile list.
use vstd::prelude::*;
use vstd::string::StringExecFns;
use crate::config::{opt_view, AppConfig};
use crate::lines::{join, join_with, lines, split_lines, views};
use crate::order::{text_le, text_less, text_lt};
use crate::text::{
    chars_of, concat2, concat3, owned, split_once, split_once_char, string_from, text_eq, trim,
    trim_str,
};

verus! {

#[derive(Debug, Clone, Copy, PartialEq, Eq, Structural)]
pub enum ProfileKind {
    Local,
    Subscription,
}

pub open spec fn kind_text(kind: ProfileKind) -> Seq<char> {
    match kind {
        ProfileKind::Local => "local"@,
        ProfileKind::Subscription => "subscription"@,
    }
}

/// The kind a stored type names: `subscription`, or local for anything else.
pub open spec fn kind_of(value: Seq<char>) -> ProfileKind {
    if value == "subscription"@ {
        ProfileKind::Subscription
    } else {
        ProfileKind::Local
    }
}

impl ProfileKind {
    /// The name under which the kind is stored and shown.
    pub fn as_str(self) -> (r: &'static str)
        ensures
            r@ == kind_text(self),
    {
        match self {
            ProfileKind::Local => "local",
            ProfileKind::Subscription => "subscription",
        }
    }

    /// The kind that a stored type names.
    pub fn parse(value: &str) -> (r: ProfileKind)
        ensures
            r == kind_of(value@),
    {
        if text_eq(value, "subscription") {
            ProfileKind::Subscription
        } else {
            ProfileKind::Local
        }
    }
}

#[derive(Debug, Clone)]
pub struct ProfileMeta {
    pub name: String,
    pub kind: ProfileKind,
    pub source_url: Option<String>,
    pub updated_at: String,
}

#[derive(Debug, Clone)]
pub struct ProfileSummary {
    pub name: String,
    pub kind: ProfileKind,
    pub source_url: Option<String>,
    pub active: bool,
}

/// An equal copy of an optional string.
pub fn copy_opt_string(o: &Option<String>) -> (r: Option<String>)
    ensures
        r == *o,
{
    match o {
        Some(s) => Some(s.clone()),
        None => None,
    }
}

impl ProfileMeta {
    /// An equal copy.
    pub fn duplicate(&self) -> (r: ProfileMeta)
        ensures
            r == *self,
    {
        ProfileMeta {
            name: self.name.clone(),
            kind: self.kind,
            source_url: copy_opt_string(&self.source_url),
            updated_at: self.updated_at.clone(),
        }
    }
}

impl ProfileSummary {
    /// An equal copy.
    pub fn duplicate(&self) -> (r: ProfileSummary)
        ensures
            r == *self,
    {
        ProfileSummary {
            name: self.name.clone(),
            kind: self.kind,
            source_url: copy_opt_string(&self.source_url),
            active: self.active,
        }
    }
}

pub struct MetaView {
    pub name: Seq<char>,
    pub kind: ProfileKind,
    pub source_url: Option<Seq<char>>,
    pub updated_at: Seq<char>,
}

impl View for ProfileMeta {
    type V = MetaView;

    open spec fn view(&self) -> MetaView {
        MetaView {
            name: self.name@,
            kind: self.kind,
            source_url: opt_view(self.source_url),
            updated_at: self.updated_at@,
        }
    }
}

/// What one line of a metadata file changes: `key=value` lines set the name
/// (when the value is not blank), the type, the source URL (when not blank)
/// and the update time; values are trimmed; other lines change nothing.
pub open spec fn apply_meta_line(m: MetaView, line: Seq<char>) -> MetaView {
    match split_once(line, '=') {
        None => m,
        Some((key, value)) => {
            let v = trim(value);
            if key == "name"@ {
                if v.len() > 0 {
                    MetaView { name: v, ..m }
                } else {
                    m
                }
            } else if key == "type"@ {
                MetaView { kind: kind_of(v), ..m }
            } else if key == "source_url"@ {
                if v.len() > 0 {
                    MetaView { source_url: Some(v), ..m }
                } else {
                    m
                }
            } else if key == "updated_at"@ {
                MetaView { updated_at: v, ..m }
            } else {
                m
            }
        },
    }
}

/// The metadata before any line is read: the file's profile name, local,
/// no source URL, no update time.
pub open spec fn initial_meta(name: Seq<char>) -> MetaView {
    MetaView { name, kind: ProfileKind::Local, source_url: None, updated_at: Seq::empty() }
}

pub open spec fn meta_of_lines(ls: Seq<Seq<char>>, name: Seq<char>) -> MetaView
    decreases ls.len(),
{
    if ls.len() == 0 {
        initial_meta(name)
    } else {
        apply_meta_line(meta_of_lines(ls.drop_last(), name), ls.last())
    }
}

/// The metadata that a metadata file holds for the profile `name`.
pub open spec fn parse_meta_text(name: Seq<char>, text: Seq<char>) -> MetaView {
    meta_of_lines(lines(text), name)
}

/// The lines of a metadata file.
pub open spec fn meta_lines(m: MetaView) -> Seq<Seq<char>> {
    seq![
        "name="@ + m.name,
        "type="@ + kind_text(m.kind),
        "source_url="@ + match m.source_url {
            Some(u) => u,
            None => Seq::empty(),
        },
        "updated_at="@ + m.updated_at,
    ]
}

/// The text of a metadata file.
pub open spec fn render_meta_text(m: MetaView) -> Seq<char> {
    join(meta_lines(m), "\n"@) + "\n"@
}

/// The metadata that a metadata file's text holds for the profile `name`.
pub fn parse_meta(name: &str, text: &str) -> (r: ProfileMeta)
    ensures
        r@ == parse_meta_text(name@, text@),
{
    let ls = split_lines(text);
    let mut meta = ProfileMeta {
        name: owned(name),
        kind: ProfileKind::Local,
        source_url: None,
        updated_at: String::new(),
    };
    let mut i: usize = 0;
    assert(views(ls@).take(0) =~= Seq::<Seq<char>>::empty());
    while i < ls.len()
        invariant
            i <= ls@.len(),
            views(ls@) == lines(text@),
            meta@ == meta_of_lines(views(ls@).take(i as int), name@),
        decreases ls@.len() - i,
    {
        let ghost prev = meta@;
        assert(views(ls@).take(i + 1).drop_last() == views(ls@).take(i as int));
        assert(views(ls@).take(i + 1).last() == ls@[i as int]@);
        match split_once_char(ls[i].as_str(), '=') {
            None => {},
            Some((key, value)) => {
                let v = trim_str(value.as_str());
                let blank = chars_of(v.as_str()).len() == 0;
                if text_eq(key.as_str(), "name") {
                    if !blank {
                        meta.name = v;
                    }
                } else if text_eq(key.as_str(), "type") {
                    meta.kind = ProfileKind::parse(v.as_str());
                } else if text_eq(key.as_str(), "source_url") {
                    if !blank {
                        meta.source_url = Some(v);
                    }
                } else if text_eq(key.as_str(), "updated_at") {
                    meta.updated_at = v;
                }
            },
        }
        assert(meta@ == apply_meta_line(prev, ls@[i as int]@));
        i += 1;
    }
    assert(views(ls@).take(ls@.len() as int) == views(ls@));
    meta
}

/// The text of the metadata file for `meta`.
pub fn render_meta(meta: &ProfileMeta) -> (r: String)
    ensures
        r@ == render_meta_text(meta@),
{
    let mut ls: Vec<String> = Vec::new();
    ls.push(concat2("name=", meta.name.as_str()));
    ls.push(concat2("type=", meta.kind.as_str()));
    let url = match &meta.source_url {
        Some(u) => concat2("source_url=", u.as_str()),
        None => owned("source_url="),
    };
    ls.push(url);
    ls.push(concat2("updated_at=", meta.updated_at.as_str()));
    proof {
        reveal_strlit("");
        assert(views(ls@) =~= meta_lines(meta@));
    }
    let r = join_with(&ls, "\n");
    r.concat("\n")
}

/// The profile name of a file in the profile directory: the stem of a file
/// whose extension is `yaml`. A file has an extension when its name has a
/// dot after its first character; the extension follows the last dot.
pub open spec fn profile_file_name(file: Seq<char>) -> Option<Seq<char>> {
    match crate::text::last_index_of_char(file, '.') {
        Some(i) => if i > 0 && file.skip(i + 1) == "yaml"@ {
            Some(file.take(i))
        } else {
            None
        },
        None => None,
    }
}

/// The profile name of a file in the profile directory, if it holds one.
pub fn profile_name_of_file(file: &str) -> (r: Option<String>)
    ensures
        opt_view(r) == profile_file_name(file@),
{
    let cs = chars_of(file);
    let n = cs.len();
    match crate::text::rfind_char(&cs, '.') {
        Some(i) => {
            if i == 0 {
                return None;
            }
            let ext = string_from(&cs, i + 1, n);
            assert(ext@ == cs@.skip(i + 1));
            if text_eq(ext.as_str(), "yaml") {
                let stem = string_from(&cs, 0, i);
                assert(stem@ == cs@.take(i as int));
                Some(stem)
            } else {
                None
            }
        },
        None => None,
    }
}

/// The list entry for a profile: its kind and source from its metadata
/// (local without source when the metadata could not be read), and whether it
/// is the active one.
pub open spec fn summary_of(name: Seq<char>, meta: Option<MetaView>, active: Option<Seq<char>>) -> (
    Seq<char>,
    ProfileKind,
    Option<Seq<char>>,
    bool,
) {
    (
        name,
        match meta {
            Some(m) => m.kind,
            None => ProfileKind::Local,
        },
        match meta {
            Some(m) => m.source_url,
            None => None,
        },
        active == Some(name),
    )
}

pub open spec fn summary_view(s: ProfileSummary) -> (
    Seq<char>,
    ProfileKind,
    Option<Seq<char>>,
    bool,
) {
    (s.name@, s.kind, opt_view(s.source_url), s.active)
}

pub open spec fn meta_opt_view(m: Option<ProfileMeta>) -> Option<MetaView> {
    match m {
        Some(x) => Some(x@),
        None => None,
    }
}

/// The profile list entry for one profile.
pub fn summarize(name: &str, meta: Option<ProfileMeta>, active: Option<&str>) -> (r: ProfileSummary)
    ensures
        summary_view(r) == summary_of(
            name@,
            meta_opt_view(meta),
            match active {
                Some(a) => Some(a@),
                None => None,
            },
        ),
{
    let is_active = match active {
        Some(a) => text_eq(a, name),
        None => false,
    };
    match meta {
        Some(m) => ProfileSummary {
            name: owned(name),
            kind: m.kind,
            source_url: m.source_url,
            active: is_active,
        },
        None => ProfileSummary {
            name: owned(name),
            kind: ProfileKind::Local,
            source_url: None,
            active: is_active,
        },
    }
}

/// Profile list entries in ascending order of name.
pub open spec fn sorted_by_name(s: Seq<ProfileSummary>) -> bool {
    forall|i: int, j: int| 0 <= i < j < s.len() ==> text_le(#[trigger] s[i].name@, #[trigger] s[j].name@)
}

/// The entries ordered by name (`sort_by` on names), keeping every entry.
pub fn sort_by_name(v: Vec<ProfileSummary>) -> (r: Vec<ProfileSummary>)
    ensures
        r@.to_multiset() == v@.to_multiset(),
        sorted_by_name(r@),
{
    broadcast use vstd::seq_lib::to_multiset_insert;

    let mut r: Vec<ProfileSummary> = Vec::new();
    let mut i: usize = 0;
    assert(r@ =~= v@.take(0));
    while i < v.len()
        invariant
            i <= v@.len(),
            r@.to_multiset() == v@.take(i as int).to_multiset(),
            sorted_by_name(r@),
        decreases v@.len() - i,
    {
        let x = v[i].duplicate();
        let mut p: usize = 0;
        while p < r.len() && !text_less(x.name.as_str(), r[p].name.as_str())
            invariant
                p <= r@.len(),
                forall|k: int| 0 <= k < p ==> text_le(#[trigger] r@[k].name@, x.name@),
            decreases r@.len() - p,
        {
            proof {
                crate::order::lemma_text_total(x.name@, r@[p as int].name@);
            }
            p += 1;
        }
        let ghost before = r@;
        r.insert(p, x);
        proof {
            if p < before.len() {
                crate::order::lemma_text_total(x.name@, before[p as int].name@);
            }
            lemma_insert_keeps_name_order(before, p as int, x);
            assert(r@ == before.insert(p as int, x));
            vstd::seq_lib::to_multiset_insert(before, p as int, x);
            assert(v@.take(i + 1) == v@.take(i as int).push(v@[i as int]));
            vstd::seq_lib::to_multiset_build(v@.take(i as int), v@[i as int]);
        }
        i += 1;
    }
    assert(v@.take(v@.len() as int) == v@);
    r
}

proof fn lemma_insert_keeps_name_order(before: Seq<ProfileSummary>, p: int, x: ProfileSummary)
    requires
        0 <= p <= before.len(),
        sorted_by_name(before),
        forall|k: int| 0 <= k < p ==> text_le(#[trigger] before[k].name@, x.name@),
        p < before.len() ==> text_lt(x.name@, before[p].name@),
    ensures
        sorted_by_name(before.insert(p, x)),
{
    before.insert_ensures(p, x);
    let after = before.insert(p, x);
    assert forall|a: int, b: int| 0 <= a < b < after.len() implies text_le(
        #[trigger] after[a].name@,
        #[trigger] after[b].name@,
    ) by {
        if b < p {
        } else if b == p {
        } else if a == p {
            if b - 1 > p && before[p].name@ != before[b - 1].name@ {
                crate::order::lemma_text_lt_transitive(x.name@, before[p].name@, before[b - 1].name@);
            }
        } else if a < p {
            if before[a].name@ == x.name@ {
                if before[p].name@ != before[b - 1].name@ {
                    crate::order::lemma_text_lt_transitive(x.name@, before[p].name@, before[b - 1].name@);
                }
            } else {
                crate::order::lemma_text_lt_transitive(before[a].name@, x.name@, before[p].name@);
                if before[p].name@ != before[b - 1].name@ {
                    crate::order::lemma_text_lt_transitive(
                        before[a].name@,
                        before[p].name@,
                        before[b - 1].name@,
                    );
                }
            }
        } else {
        }
    }
}

pub open spec fn opt_str_view(o: Option<&str>) -> Option<Seq<char>> {
    match o {
        Some(a) => Some(a@),
        None => None,
    }
}

pub open spec fn summary_views(s: Seq<ProfileSummary>) -> Seq<(Seq<char>, ProfileKind, Option<Seq<char>>, bool)> {
    s.map_values(|x: ProfileSummary| summary_view(x))
}

pub open spec fn found_views(
    found: Seq<(String, Option<ProfileMeta>)>,
    active: Option<Seq<char>>,
) -> Seq<(Seq<char>, ProfileKind, Option<Seq<char>>, bool)> {
    found.map_values(|e: (String, Option<ProfileMeta>)| summary_of(e.0@, meta_opt_view(e.1), active))
}

/// The profile list: one entry per profile found (with the metadata that
/// could be read for it), ordered by name.
pub fn list(found: Vec<(String, Option<ProfileMeta>)>, active: Option<&str>) -> (r: Vec<ProfileSummary>)
    ensures
        r@.len() == found@.len(),
        sorted_by_name(r@),
        summary_views(r@).to_multiset() == found_views(found@, opt_str_view(active)).to_multiset(),
{
    let ghost act = opt_str_view(active);
    let mut entries: Vec<ProfileSummary> = Vec::new();
    let mut i: usize = 0;
    while i < found.len()
        invariant
            i <= found@.len(),
            act == opt_str_view(active),
            entries@.len() == i,
            forall|k: int| 0 <= k < i ==> summary_view(#[trigger] entries@[k]) == summary_of(
                found@[k].0@,
                meta_opt_view(found@[k].1),
                act,
            ),
        decreases found@.len() - i,
    {
        let (name, meta) = &found[i];
        let m = match meta {
            Some(m) => Some(m.duplicate()),
            None => None,
        };
        let s = summarize(name.as_str(), m, active);
        entries.push(s);
        i += 1;
    }
    let sorted = sort_by_name(entries);
    proof {
        assert(summary_views(entries@) =~= found_views(found@, act));
        lemma_map_multiset(sorted@, entries@, |s: ProfileSummary| summary_view(s));
    }
    sorted
}

/// Sequences with the same elements map to sequences with the same elements.
pub proof fn lemma_map_multiset<A, B>(a: Seq<A>, b: Seq<A>, f: spec_fn(A) -> B)
    requires
        a.to_multiset() == b.to_multiset(),
    ensures
        a.map_values(f).to_multiset() == b.map_values(f).to_multiset(),
        a.len() == b.len(),
    decreases a.len(),
{
    broadcast use vstd::seq_lib::group_to_multiset_ensures;

    if a.len() == 0 {
        assert(b.to_multiset().len() == 0);
        assert(b.len() == 0);
        assert(a.map_values(f) =~= b.map_values(f));
    } else {
        let x = a.last();
        assert(a.contains(x));
        assert(a.to_multiset().count(x) > 0);
        assert(b.contains(x));
        let j = choose|j: int| 0 <= j < b.len() && b[j] == x;
        let a2 = a.drop_last();
        let b2 = b.remove(j);
        assert(a =~= a2.push(x));
        assert(a2.push(x).to_multiset() == a2.to_multiset().insert(x));
        assert(b2.to_multiset() == b.to_multiset().remove(x));
        assert(a2.to_multiset() =~= b2.to_multiset());
        lemma_map_multiset(a2, b2, f);
        assert(a.map_values(f) =~= a2.map_values(f).push(f(x)));
        assert(b.map_values(f) =~= b.map_values(f).remove(j).insert(j, f(x)));
        assert(b.map_values(f).remove(j) =~= b2.map_values(f));
        vstd::seq_lib::to_multiset_insert(b2.map_values(f), j, f(x));
        assert(b2.map_values(f).insert(j, f(x)) =~= b.map_values(f));
    }
}

} // verus!

verus! {

/// The stored type of a kind names that kind again.
pub proof fn lemma_kind_round_trip(kind: ProfileKind)
    ensures
        kind_of(kind_text(kind)) == kind,
{
    reveal_strlit("local");
    reveal_strlit("subscription");
    if kind == ProfileKind::Local {
        assert(kind_text(kind).len() != "subscription"@.len());
    }
}

/// A text that trimming leaves unchanged and that holds no line feed.
pub open spec fn storable(s: Seq<char>) -> bool {
    trim(s) == s && crate::lines::no_newline(s)
}

/// Metadata that its file can hold exactly: a non-empty name, a source URL
/// (if any) that is not empty, and no value with surrounding white space or a
/// line feed.
pub open spec fn storable_meta(m: MetaView) -> bool {
    &&& m.name.len() > 0
    &&& storable(m.name)
    &&& storable(m.updated_at)
    &&& match m.source_url {
        Some(u) => u.len() > 0 && storable(u),
        None => true,
    }
}

proof fn lemma_trimmed_not_cr(s: Seq<char>)
    requires
        trim(s) == s,
    ensures
        !(s.len() > 0 && s.last() == '\r'),
{
    if s.len() > 0 && s.last() == '\r' {
        let t = crate::text::trim_start(s);
        if t.len() == 0 {
            assert(trim(s).len() == 0);
        } else {
            lemma_trim_start_suffix(s);
            assert(t.last() == '\r');
            assert(crate::text::trim_end(t) == crate::text::trim_end(t.drop_last()));
            lemma_trim_end_shorter(t.drop_last());
        }
    }
}

proof fn lemma_trim_start_suffix(s: Seq<char>)
    ensures
        crate::text::trim_start(s).len() <= s.len(),
        crate::text::trim_start(s).len() > 0 ==> crate::text::trim_start(s).last() == s.last(),
    decreases s.len(),
{
    if s.len() > 0 && crate::text::is_whitespace(s[0]) {
        lemma_trim_start_suffix(s.drop_first());
    }
}

proof fn lemma_trim_end_shorter(s: Seq<char>)
    ensures
        crate::text::trim_end(s).len() <= s.len(),
    decreases s.len(),
{
    if s.len() > 0 && crate::text::is_whitespace(s.last()) {
        lemma_trim_end_shorter(s.drop_last());
    }
}

proof fn lemma_key_line(key: Seq<char>, value: Seq<char>)
    requires
        forall|k: int| 0 <= k < key.len() ==> #[trigger] key[k] != '=',
    ensures
        split_once(key + "="@ + value, '=') == Some((key, value)),
{
    reveal_strlit("=");
    let l = key + "="@ + value;
    assert forall|k: int| 0 <= k < key.len() implies #[trigger] l[k] != '=' by {
        assert(l[k] == key[k]);
    }
    assert(l[key.len() as int] == '=');
    crate::text::lemma_index_of_char(l, '=', key.len() as int);
    assert(l.take(key.len() as int) =~= key);
    assert(l.skip(key.len() + 1int) =~= value);
}

proof fn lemma_plain_key_line(key: Seq<char>, value: Seq<char>)
    requires
        crate::lines::no_newline(key),
        storable(value),
        key.len() > 0,
        key.last() != '\r',
    ensures
        crate::lines::plain_line(key + value),
{
    lemma_trimmed_not_cr(value);
    let l = key + value;
    assert forall|i: int| 0 <= i < l.len() implies #[trigger] l[i] != '\n' by {
        if i >= key.len() {
            assert(l[i] == value[i - key.len()]);
        }
    }
    if value.len() > 0 {
        assert(l.last() == value.last());
    } else {
        assert(l.last() == key.last());
    }
}

proof fn lemma_trim_fixed(s: Seq<char>)
    requires
        s.len() > 0,
        !crate::text::is_whitespace(s[0]),
        !crate::text::is_whitespace(s.last()),
    ensures
        trim(s) == s,
{
    crate::text::lemma_trim_start_skip(s, crate::text::CharClass::Whitespace, 0);
    assert(s.skip(0) == s);
    crate::text::lemma_trim_end_take(s, crate::text::CharClass::Whitespace, s.len() as int);
    assert(s.take(s.len() as int) == s);
}

/// Reading back a metadata file gives the metadata that was written, for any
/// metadata that the file format can hold.
pub proof fn lemma_meta_round_trip(file_name: Seq<char>, m: MetaView)
    requires
        storable_meta(m),
    ensures
        parse_meta_text(file_name, render_meta_text(m)) == m,
{
    reveal_strlit("name=");
    reveal_strlit("type=");
    reveal_strlit("source_url=");
    reveal_strlit("updated_at=");
    reveal_strlit("name");
    reveal_strlit("type");
    reveal_strlit("source_url");
    reveal_strlit("updated_at");
    reveal_strlit("=");
    reveal_strlit("local");
    reveal_strlit("subscription");
    reveal_strlit("");
    let url = match m.source_url {
        Some(u) => u,
        None => Seq::empty(),
    };
    assert(storable(url)) by {
        if m.source_url is None {
            assert(trim(url) =~= url) by {
                assert(crate::text::trim_start(url) == url);
            }
        }
    }
    let kt = kind_text(m.kind);
    assert(storable(kt)) by {
        lemma_trim_fixed(kt);
    }
    assert("name="@ =~= "name"@ + "="@);
    assert("type="@ =~= "type"@ + "="@);
    assert("source_url="@ =~= "source_url"@ + "="@);
    assert("updated_at="@ =~= "updated_at"@ + "="@);
    lemma_plain_key_line("name="@, m.name);
    lemma_plain_key_line("type="@, kt);
    lemma_plain_key_line("source_url="@, url);
    lemma_plain_key_line("updated_at="@, m.updated_at);
    let ls = meta_lines(m);
    assert(ls[2] == "source_url="@ + url);
    crate::lines::lemma_lines_join(ls);
    lemma_key_line("name"@, m.name);
    lemma_key_line("type"@, kt);
    lemma_key_line("source_url"@, url);
    lemma_key_line("updated_at"@, m.updated_at);
    lemma_kind_round_trip(m.kind);
    let m0 = initial_meta(file_name);
    let m1 = apply_meta_line(m0, ls[0]);
    let m2 = apply_meta_line(m1, ls[1]);
    let m3 = apply_meta_line(m2, ls[2]);
    let m4 = apply_meta_line(m3, ls[3]);
    assert(ls.take(1).drop_last() =~= ls.take(0));
    assert(ls.take(2).drop_last() =~= ls.take(1));
    assert(ls.take(3).drop_last() =~= ls.take(2));
    assert(ls.take(4).drop_last() =~= ls.take(3));
    assert(ls.take(4) =~= ls);
    assert(meta_of_lines(ls.take(0), file_name) == m0);
    assert(meta_of_lines(ls.take(1), file_name) == m1);
    assert(meta_of_lines(ls.take(2), file_name) == m2);
    assert(meta_of_lines(ls.take(3), file_name) == m3);
    assert(meta_of_lines(ls.take(4), file_name) == m4);
    assert("type"@ != "name"@);
    assert("source_url"@ != "name"@ && "source_url"@ != "type"@);
    assert("updated_at"@ != "name"@ && "updated_at"@ != "type"@ && "updated_at"@ != "source_url"@);
    assert(m4 == m);
}

// ---------------------------------------------------------------------
// The profile list as `profile list` prints it, and profile changes
// ---------------------------------------------------------------------

/// A line of the printed profile list: the mark, name, type and source in
/// columns of 2, 28 and 14 characters.
pub open spec fn list_row(mark: Seq<char>, name: Seq<char>, kind: Seq<char>, source: Seq<char>) -> Seq<
    char,
> {
    crate::text::padded_end(mark, 2) + " "@ + crate::text::padded_end(name, 28) + " "@
        + crate::text::padded_end(kind, 14) + " "@ + source
}

/// The printed line of a profile: `*` for the active one, its name, type
/// and source address (empty for a local profile).
pub open spec fn profile_row(p: ProfileSummary) -> Seq<char> {
    list_row(
        if p.active {
            "*"@
        } else {
            Seq::empty()
        },
        p.name@,
        kind_text(p.kind),
        match p.source_url {
            Some(u) => u@,
            None => Seq::empty(),
        },
    )
}

/// What `profile list` prints: the active profile, a header, a line per
/// profile, and a hint when there are none.
pub open spec fn profile_list_text(profiles: Seq<ProfileSummary>, active: Option<Seq<char>>) -> Seq<
    Seq<char>,
> {
    seq![
        "Active profile: "@ + match active {
            Some(a) => a,
            None => "none"@,
        },
        list_row(Seq::empty(), "NAME"@, "TYPE"@, "SOURCE"@),
    ] + profiles.map_values(|p: ProfileSummary| profile_row(p)) + if profiles.len() == 0 {
        seq![
            "No profiles yet. Add one with 'starail subscribe add <url>' or 'starail profile add <name> <config>'."@,
        ]
    } else {
        Seq::empty()
    }
}

fn row(mark: &str, name: &str, kind: &str, source: &str) -> (r: String)
    ensures
        r@ == list_row(mark@, name@, kind@, source@),
{
    let a = crate::text::pad_end(mark, 2);
    let b = crate::text::pad_end(name, 28);
    let c = crate::text::pad_end(kind, 14);
    concat3(a.as_str(), " ", b.as_str()).concat(" ").concat(c.as_str()).concat(" ").concat(source)
}

/// What `profile list` prints.
pub fn profile_list_lines(profiles: &Vec<ProfileSummary>, active: Option<&str>) -> (r: Vec<String>)
    ensures
        views(r@) == profile_list_text(
            profiles@,
            match active {
                Some(a) => Some(a@),
                None => None,
            },
        ),
{
    proof {
        reveal_strlit("");
    }
    let mut r: Vec<String> = Vec::new();
    let shown = match active {
        Some(a) => a,
        None => "none",
    };
    r.push(concat2("Active profile: ", shown));
    r.push(row("", "NAME", "TYPE", "SOURCE"));
    let ghost head = views(r@);
    assert(head =~= seq![r@[0]@, r@[1]@]);
    let mut i: usize = 0;
    assert(views(r@) =~= head + profiles@.take(0).map_values(|p: ProfileSummary| profile_row(p)));
    while i < profiles.len()
        invariant
            i <= profiles@.len(),
            views(r@) == head + profiles@.take(i as int).map_values(
                |p: ProfileSummary| profile_row(p),
            ),
        decreases profiles@.len() - i,
    {
        let p = &profiles[i];
        let mark = if p.active {
            "*"
        } else {
            ""
        };
        let source = match &p.source_url {
            Some(u) => u.as_str(),
            None => "",
        };
        let line = row(mark, p.name.as_str(), p.kind.as_str(), source);
        proof {
            reveal_strlit("");
            assert(""@ =~= Seq::<char>::empty());
            assert(line@ == profile_row(*p));
        }
        let ghost before = r@;
        r.push(line);
        proof {
            assert(views(r@) =~= views(before).push(line@));
            assert(profiles@.take(i + 1) == profiles@.take(i as int).push(*p));
            assert(views(r@) =~= head + profiles@.take(i + 1).map_values(
                |p: ProfileSummary| profile_row(p),
            ));
        }
        i += 1;
    }
    assert(profiles@.take(profiles@.len() as int) == profiles@);
    if profiles.len() == 0 {
        let ghost before = r@;
        r.push(
            owned(
                "No profiles yet. Add one with 'starail subscribe add <url>' or 'starail profile add <name> <config>'.",
            ),
        );
        assert(views(r@) =~= views(before).push(r@.last()@));
    }
    r
}

/// The metadata of a local profile added at `updated_at` (seconds since the
/// Unix epoch).
pub fn local_meta(name: &str, updated_at: u64) -> (r: ProfileMeta)
    ensures
        r.name@ == name@,
        r.kind == ProfileKind::Local,
        r.source_url is None,
        r.updated_at@ == crate::number::decimal(updated_at as nat),
{
    ProfileMeta {
        name: owned(name),
        kind: ProfileKind::Local,
        source_url: None,
        updated_at: crate::number::decimal_string(updated_at),
    }
}

/// The error for adding a local profile under a name that is taken.
pub fn local_profile_exists_message(name: &str) -> (r: String)
    ensures
        r@ == "profile '"@ + name@ + "' already exists. Remove it first or choose another name."@,
{
    concat3("profile '", name, "' already exists. Remove it first or choose another name.")
}

/// The active profile after a profile is removed: none when it was the
/// removed one, else unchanged; and whether it changed.
pub fn active_after_removal(active: Option<&str>, removed: &str) -> (r: (Option<String>, bool))
    ensures
        match active {
            Some(a) => if a@ == removed@ {
                r.0 is None && r.1
            } else {
                r.0 matches Some(x) && x@ == a@ && !r.1
            },
            None => r.0 is None && !r.1,
        },
{
    match active {
        Some(a) => if text_eq(a, removed) {
            (None, true)
        } else {
            (Some(owned(a)), false)
        },
        None => (None, false),
    }
}

} // verus!
