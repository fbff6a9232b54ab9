//! The status snapshot: process, profile, controller, and the proxy group
//! and node currently selected.
use vstd::prelude::*;
use vstd::string::StringExecFns;
use crate::config::AppConfig;
use crate::json::{json_array, json_get, json_object, json_str, json_str_field, JsonNode};
use crate::number::{decimal, decimal_string};
use crate::order::{text_le, text_less, text_lt};
use crate::text::{
    ascii_lowercase, concat2, concat3, contains, contains_str, owned, text_eq, to_ascii_lowercase,
    trim, trim_str,
};
use crate::yaml::{yaml_get, yaml_seq, yaml_str_field, YamlNode};

verus! {

#[derive(Debug, Clone)]
pub struct StatusSnapshot {
    pub home: String,
    pub core: String,
    pub core_version: String,
    pub active_profile: String,
    pub selected_proxy: String,
    pub current_group: String,
    pub current_node: String,
    pub mixed_port: u16,
    pub controller: String,
    pub process: String,
    pub controller_state: String,
}

/// A proxy group and the node it has selected.
#[derive(Debug)]
pub struct ProxySelection {
    pub name: String,
    pub now: String,
}

pub open spec fn selection_view(s: ProxySelection) -> (Seq<char>, Seq<char>) {
    (s.name@, s.now@)
}

pub open spec fn selection_views(s: Seq<ProxySelection>) -> Seq<(Seq<char>, Seq<char>)> {
    s.map_values(|x: ProxySelection| selection_view(x))
}

/// `group -> node`.
pub open spec fn selection_label(s: (Seq<char>, Seq<char>)) -> Seq<char> {
    s.0 + " -> "@ + s.1
}

impl ProxySelection {
    /// `group -> node`.
    pub fn label(&self) -> (r: String)
        ensures
            r@ == selection_label(selection_view(*self)),
    {
        concat3(self.name.as_str(), " -> ", self.now.as_str())
    }
}

/// The selection that a controller entry describes: a group (it has an
/// `all` array) whose `now` is a non-blank string, with `now` trimmed.
pub open spec fn selection_of(name: Seq<char>, value: JsonNode) -> Option<(Seq<char>, Seq<char>)> {
    match json_get(value, "all"@) {
        Some(all) => match json_array(all) {
            Some(_) => match json_str_field(value, "now"@) {
                Some(now) => if trim(now).len() > 0 {
                    Some((name, trim(now)))
                } else {
                    None
                },
                None => None,
            },
            None => None,
        },
        None => None,
    }
}

pub open spec fn selections_of(entries: Seq<(String, JsonNode)>) -> Seq<(Seq<char>, Seq<char>)>
    decreases entries.len(),
{
    if entries.len() == 0 {
        Seq::empty()
    } else {
        let rest = selections_of(entries.drop_last());
        match selection_of(entries.last().0@, entries.last().1) {
            Some(s) => rest.push(s),
            None => rest,
        }
    }
}

/// The selections of the controller's `/proxies` answer, in its order; `None`
/// when it has no `proxies` object.
pub open spec fn proxy_selections(json: JsonNode) -> Option<Seq<(Seq<char>, Seq<char>)>> {
    match json_get(json, "proxies"@) {
        Some(p) => match json_object(p) {
            Some(entries) => Some(selections_of(entries)),
            None => None,
        },
        None => None,
    }
}

/// The selections of the controller's `/proxies` answer, in its order.
pub fn proxy_selections_from_json(json: &JsonNode) -> (r: Option<Vec<ProxySelection>>)
    ensures
        match r {
            Some(v) => proxy_selections(*json) == Some(selection_views(v@)),
            None => proxy_selections(*json) is None,
        },
{
    let proxies = match json.get("proxies") {
        Some(p) => p,
        None => return None,
    };
    let entries = match proxies.as_object() {
        Some(e) => e,
        None => return None,
    };
    let mut out: Vec<ProxySelection> = Vec::new();
    let mut i: usize = 0;
    assert(entries@.take(0) =~= Seq::<(String, JsonNode)>::empty());
    assert(selection_views(out@) =~= Seq::<(Seq<char>, Seq<char>)>::empty());
    while i < entries.len()
        invariant
            i <= entries@.len(),
            proxy_selections(*json) == Some(selections_of(entries@)),
            selection_views(out@) == selections_of(entries@.take(i as int)),
        decreases entries@.len() - i,
    {
        let (name, value) = &entries[i];
        assert(entries@.take(i + 1).drop_last() == entries@.take(i as int));
        assert(entries@.take(i + 1).last() == entries@[i as int]);
        let is_group = match value.get("all") {
            Some(all) => all.as_array().is_some(),
            None => false,
        };
        if is_group {
            if let Some(now) = value.str_field("now") {
                let now = trim_str(now);
                if crate::text::chars_of(now.as_str()).len() > 0 {
                    let s = ProxySelection { name: name.clone(), now };
                    proof {
                        assert(selection_views(out@.push(s)) =~= selection_views(out@).push(
                            selection_view(s),
                        ));
                    }
                    out.push(s);
                }
            }
        }
        i += 1;
    }
    assert(entries@.take(entries@.len() as int) == entries@);
    Some(out)
}

/// The first selection of the group `g`, if any.
pub open spec fn find_selection(sels: Seq<(Seq<char>, Seq<char>)>, g: Seq<char>) -> Option<
    (Seq<char>, Seq<char>),
>
    decreases sels.len(),
{
    if sels.len() == 0 {
        None
    } else if sels[0].0 == g {
        Some(sels[0])
    } else {
        find_selection(sels.drop_first(), g)
    }
}

/// The selections of the preferred groups, in the order of the preferred
/// groups, skipping groups without a selection.
pub open spec fn preferred_of(sels: Seq<(Seq<char>, Seq<char>)>, groups: Seq<Seq<char>>) -> Seq<
    (Seq<char>, Seq<char>),
>
    decreases groups.len(),
{
    if groups.len() == 0 {
        Seq::empty()
    } else {
        let rest = preferred_of(sels, groups.drop_last());
        match find_selection(sels, groups.last()) {
            Some(s) => rest.push(s),
            None => rest,
        }
    }
}

/// `GLOBAL`, `DIRECT` and `REJECT` are built into mihomo.
pub open spec fn is_builtin(name: Seq<char>) -> bool {
    name == "GLOBAL"@ || name == "DIRECT"@ || name == "REJECT"@
}

/// How likely a group is the one the user cares about; lower is better.
pub open spec fn rank_of(s: (Seq<char>, Seq<char>)) -> nat {
    let lower = ascii_lowercase(s.0);
    if is_builtin(s.0) {
        3
    } else if lower == "proxy"@ || lower == "proxies"@ || lower == "select"@ {
        0
    } else if contains(lower, "proxy"@) || contains(lower, "select"@) {
        1
    } else if contains(lower, "auto"@) {
        2
    } else if is_builtin(s.1) {
        4
    } else {
        3
    }
}

/// Ordered before: a lower rank, or the same rank and a smaller name.
pub open spec fn ranked_before(a: (Seq<char>, Seq<char>), b: (Seq<char>, Seq<char>)) -> bool {
    rank_of(a) < rank_of(b) || (rank_of(a) == rank_of(b) && text_lt(a.0, b.0))
}

/// The position of the entry that a stable sort by rank and name puts first:
/// it comes before every entry ahead of it and no later entry comes before
/// it.
pub open spec fn first_ranked(v: Seq<(Seq<char>, Seq<char>)>, j: int) -> bool {
    &&& 0 <= j < v.len()
    &&& forall|k: int| 0 <= k < j ==> ranked_before(v[j], #[trigger] v[k])
    &&& forall|k: int| j < k < v.len() ==> !ranked_before(#[trigger] v[k], v[j])
}

/// The groups that are not built in.
pub open spec fn not_builtin(v: Seq<(Seq<char>, Seq<char>)>) -> Seq<(Seq<char>, Seq<char>)> {
    v.filter(|s: (Seq<char>, Seq<char>)| !is_builtin(s.0))
}

/// The summary line, group and node for a list of visible selections whose
/// chosen entry is `s`.
pub open spec fn summary_of(s: (Seq<char>, Seq<char>), total: nat) -> (Seq<char>, Seq<char>, Seq<char>) {
    (
        if total > 1 {
            selection_label(s) + " (+"@ + decimal((total - 1) as nat) + " groups)"@
        } else {
            selection_label(s)
        },
        s.0,
        s.1,
    )
}

pub fn is_builtin_group(name: &str) -> (r: bool)
    ensures
        r == is_builtin(name@),
{
    text_eq(name, "GLOBAL") || text_eq(name, "DIRECT") || text_eq(name, "REJECT")
}

pub fn is_builtin_node(name: &str) -> (r: bool)
    ensures
        r == is_builtin(name@),
{
    is_builtin_group(name)
}

/// How likely a group is the one the user cares about; lower is better.
pub fn selection_rank(selection: &ProxySelection) -> (r: u8)
    ensures
        r as nat == rank_of(selection_view(*selection)),
{
    if is_builtin_group(selection.name.as_str()) {
        return 3;
    }
    let group = to_ascii_lowercase(selection.name.as_str());
    let g = group.as_str();
    if text_eq(g, "proxy") || text_eq(g, "proxies") || text_eq(g, "select") {
        0
    } else if contains_str(g, "proxy") || contains_str(g, "select") {
        1
    } else if contains_str(g, "auto") {
        2
    } else if is_builtin_node(selection.now.as_str()) {
        4
    } else {
        3
    }
}

fn find_selection_index(sels: &Vec<ProxySelection>, group: &str) -> (r: Option<usize>)
    ensures
        match r {
            Some(i) => i < sels@.len() && find_selection(selection_views(sels@), group@) == Some(
                selection_view(sels@[i as int]),
            ),
            None => find_selection(selection_views(sels@), group@) is None,
        },
{
    let ghost sv = selection_views(sels@);
    let mut i: usize = 0;
    assert(sv.skip(0) == sv);
    while i < sels.len()
        invariant
            i <= sels@.len(),
            sv == selection_views(sels@),
            find_selection(sv, group@) == find_selection(sv.skip(i as int), group@),
        decreases sels@.len() - i,
    {
        proof {
            let rest = sv.skip(i as int);
            assert(rest[0] == selection_view(sels@[i as int]));
            assert(rest.drop_first() == sv.skip(i + 1));
        }
        if text_eq(sels[i].name.as_str(), group) {
            return Some(i);
        }
        i += 1;
    }
    None
}

/// The positions of the preferred groups' selections, in preferred order.
pub fn preferred_proxy_selections(sels: &Vec<ProxySelection>, preferred: &Vec<String>) -> (r: Vec<usize>)
    ensures
        forall|k: int| 0 <= k < r@.len() ==> #[trigger] r@[k] < sels@.len(),
        r@.map_values(|i: usize| selection_view(sels@[i as int])) == preferred_of(
            selection_views(sels@),
            crate::lines::views(preferred@),
        ),
{
    let ghost sv = selection_views(sels@);
    let ghost pv = crate::lines::views(preferred@);
    let mut r: Vec<usize> = Vec::new();
    let mut i: usize = 0;
    assert(pv.take(0) =~= Seq::<Seq<char>>::empty());
    while i < preferred.len()
        invariant
            i <= preferred@.len(),
            sv == selection_views(sels@),
            pv == crate::lines::views(preferred@),
            forall|k: int| 0 <= k < r@.len() ==> #[trigger] r@[k] < sels@.len(),
            r@.map_values(|i: usize| selection_view(sels@[i as int])) == preferred_of(
                sv,
                pv.take(i as int),
            ),
        decreases preferred@.len() - i,
    {
        assert(pv.take(i + 1).drop_last() == pv.take(i as int));
        assert(pv.take(i + 1).last() == preferred@[i as int]@);
        match find_selection_index(sels, preferred[i].as_str()) {
            Some(j) => {
                let ghost before = r@;
                r.push(j);
                assert(r@.map_values(|i: usize| selection_view(sels@[i as int])) =~= before.map_values(
                    |i: usize| selection_view(sels@[i as int]),
                ).push(selection_view(sels@[j as int])));
            },
            None => {},
        }
        i += 1;
    }
    assert(pv.take(preferred@.len() as int) == pv);
    r
}

/// The summary line, group and node of the selected proxy: the first
/// preferred group that has a selection (the preferred order wins), else the
/// best-ranked group that is not built in, else the best-ranked of all; and
/// how many other such groups there are. `None` when the answer has no
/// `proxies` object or no group has a selection.
pub open spec fn selected_proxy_details(json: JsonNode, preferred: Seq<Seq<char>>) -> Option<
    (Seq<char>, Seq<char>, Seq<char>),
> {
    match proxy_selections(json) {
        None => None,
        Some(sels) => {
            let pref = preferred_of(sels, preferred);
            if pref.len() > 0 {
                Some(summary_of(pref[0], pref.len()))
            } else {
                let visible = if not_builtin(sels).len() > 0 {
                    not_builtin(sels)
                } else {
                    sels
                };
                if visible.len() == 0 {
                    None
                } else {
                    Some(summary_of(visible[choose|j: int| first_ranked(visible, j)], visible.len()))
                }
            }
        },
    }
}

fn summary_texts(s: &ProxySelection, total: usize) -> (r: (String, String, String))
    ensures
        (r.0@, r.1@, r.2@) == summary_of(selection_view(*s), total as nat),
{
    let label = s.label();
    let summary = if total > 1 {
        let count = decimal_string((total - 1) as u64);
        let a = concat3(label.as_str(), " (+", count.as_str());
        a.concat(" groups)")
    } else {
        label
    };
    (summary, s.name.clone(), s.now.clone())
}

pub proof fn lemma_first_ranked_unique(v: Seq<(Seq<char>, Seq<char>)>, j: int)
    requires
        first_ranked(v, j),
    ensures
        (choose|i: int| first_ranked(v, i)) == j,
{
    let i = choose|i: int| first_ranked(v, i);
    assert(first_ranked(v, i));
    if i < j {
        assert(ranked_before(v[j], v[i]));
        assert(!ranked_before(v[j], v[i]));
    } else if i > j {
        assert(ranked_before(v[i], v[j]));
    }
}

proof fn lemma_ranked_before_transitive(
    a: (Seq<char>, Seq<char>),
    b: (Seq<char>, Seq<char>),
    c: (Seq<char>, Seq<char>),
)
    requires
        ranked_before(a, b),
        ranked_before(b, c),
    ensures
        ranked_before(a, c),
{
    if rank_of(a) == rank_of(b) && rank_of(b) == rank_of(c) {
        crate::order::lemma_text_lt_transitive(a.0, b.0, c.0);
    }
}

proof fn lemma_ranked_before_total(a: (Seq<char>, Seq<char>), b: (Seq<char>, Seq<char>))
    requires
        !ranked_before(a, b),
    ensures
        ranked_before(b, a) || (rank_of(a) == rank_of(b) && a.0 == b.0),
{
    crate::order::lemma_text_total(a.0, b.0);
}

/// The position of the first entry in stable rank order among the entries
/// whose positions are given.
fn best_ranked(sels: &Vec<ProxySelection>, ranks: &Vec<u8>, idx: &Vec<usize>) -> (r: usize)
    requires
        idx@.len() > 0,
        ranks@.len() == sels@.len(),
        forall|k: int| 0 <= k < sels@.len() ==> #[trigger] ranks@[k] as nat == rank_of(
            selection_view(sels@[k]),
        ),
        forall|k: int| 0 <= k < idx@.len() ==> #[trigger] idx@[k] < sels@.len(),
    ensures
        r < idx@.len(),
        first_ranked(idx@.map_values(|i: usize| selection_view(sels@[i as int])), r as int),
{
    let ghost v = idx@.map_values(|i: usize| selection_view(sels@[i as int]));
    let mut best: usize = 0;
    let mut k: usize = 1;
    while k < idx.len()
        invariant
            idx@.len() > 0,
            1 <= k <= idx@.len(),
            best < k,
            ranks@.len() == sels@.len(),
            forall|m: int| 0 <= m < sels@.len() ==> #[trigger] ranks@[m] as nat == rank_of(
                selection_view(sels@[m]),
            ),
            forall|m: int| 0 <= m < idx@.len() ==> #[trigger] idx@[m] < sels@.len(),
            v == idx@.map_values(|i: usize| selection_view(sels@[i as int])),
            forall|m: int| 0 <= m < best ==> ranked_before(v[best as int], #[trigger] v[m]),
            forall|m: int| best < m < k ==> !ranked_before(#[trigger] v[m], v[best as int]),
        decreases idx@.len() - k,
    {
        let cand = idx[k];
        let cur = idx[best];
        let rc = ranks[cand];
        let rb = ranks[cur];
        let better = rc < rb || (rc == rb && text_less(
            sels[cand].name.as_str(),
            sels[cur].name.as_str(),
        ));
        assert(v[k as int] == selection_view(sels@[cand as int]));
        assert(v[best as int] == selection_view(sels@[cur as int]));
        assert(better == ranked_before(v[k as int], v[best as int]));
        if better {
            proof {
                assert forall|m: int| 0 <= m < k implies ranked_before(v[k as int], #[trigger] v[m]) by {
                    if m < best {
                        lemma_ranked_before_transitive(v[k as int], v[best as int], v[m]);
                    } else if m == best {
                    } else {
                        assert(!ranked_before(v[m], v[best as int]));
                        lemma_ranked_before_total(v[m], v[best as int]);
                        if ranked_before(v[best as int], v[m]) {
                            lemma_ranked_before_transitive(v[k as int], v[best as int], v[m]);
                        } else {
                            assert(v[m].0 == v[best as int].0);
                            assert(rank_of(v[m]) == rank_of(v[best as int]));
                        }
                    }
                }
            }
            best = k;
        }
        k += 1;
    }
    best
}

/// The summary line, group and node of the selected proxy.
pub fn selected_proxy_details_from_json(json: &JsonNode, preferred: &Vec<String>) -> (r: Option<
    (String, String, String),
>)
    ensures
        match r {
            Some(t) => selected_proxy_details(*json, crate::lines::views(preferred@)) == Some(
                (t.0@, t.1@, t.2@),
            ),
            None => selected_proxy_details(*json, crate::lines::views(preferred@)) is None,
        },
{
    let sels = match proxy_selections_from_json(json) {
        Some(s) => s,
        None => return None,
    };
    let ghost sv = selection_views(sels@);
    let pref = preferred_proxy_selections(&sels, preferred);
    if pref.len() > 0 {
        proof {
            assert(pref@.map_values(|i: usize| selection_view(sels@[i as int]))[0] == selection_view(
                sels@[pref@[0] as int],
            ));
        }
        return Some(summary_texts(&sels[pref[0]], pref.len()));
    }
    let mut ranks: Vec<u8> = Vec::new();
    let mut others: Vec<usize> = Vec::new();
    let mut all: Vec<usize> = Vec::new();
    let mut i: usize = 0;
    assert(sv.take(0) =~= Seq::<(Seq<char>, Seq<char>)>::empty());
    while i < sels.len()
        invariant
            i <= sels@.len(),
            sv == selection_views(sels@),
            ranks@.len() == i,
            forall|k: int| 0 <= k < i ==> #[trigger] ranks@[k] as nat == rank_of(
                selection_view(sels@[k]),
            ),
            all@.len() == i,
            forall|k: int| 0 <= k < i ==> #[trigger] all@[k] == k,
            forall|k: int| 0 <= k < others@.len() ==> #[trigger] others@[k] < i,
            others@.map_values(|j: usize| selection_view(sels@[j as int])) == not_builtin(
                sv.take(i as int),
            ),
        decreases sels@.len() - i,
    {
        ranks.push(selection_rank(&sels[i]));
        all.push(i);
        proof {
            let t = sv.take(i + 1);
            assert(t.drop_last() == sv.take(i as int));
            assert(t.last() == selection_view(sels@[i as int]));
            t.lemma_filter_len_push(|s: (Seq<char>, Seq<char>)| !is_builtin(s.0), t.last());
            reveal(Seq::filter);
        }
        if !is_builtin_group(sels[i].name.as_str()) {
            let ghost before = others@;
            others.push(i);
            assert(others@.map_values(|j: usize| selection_view(sels@[j as int])) =~= before.map_values(
                |j: usize| selection_view(sels@[j as int]),
            ).push(selection_view(sels@[i as int])));
        }
        i += 1;
    }
    assert(sv.take(sels@.len() as int) == sv);
    assert(all@.map_values(|j: usize| selection_view(sels@[j as int])) =~= sv);
    let visible = if others.len() > 0 {
        others
    } else {
        all
    };
    if visible.len() == 0 {
        return None;
    }
    let b = best_ranked(&sels, &ranks, &visible);
    proof {
        let v = visible@.map_values(|j: usize| selection_view(sels@[j as int]));
        lemma_first_ranked_unique(v, b as int);
        assert(v[b as int] == selection_view(sels@[visible@[b as int] as int]));
    }
    Some(summary_texts(&sels[visible[b]], visible.len()))
}

} // verus!

verus! {

/// The controller state text for its `/configs` answer.
pub open spec fn controller_state_text(configs: JsonNode) -> Seq<char> {
    let mode = match json_str_field(configs, "mode"@) {
        Some(m) => m,
        None => Seq::empty(),
    };
    if mode.len() == 0 {
        "reachable"@
    } else {
        "reachable (mode: "@ + mode + ")"@
    }
}

/// The controller state text for its `/configs` answer.
pub fn controller_state_from_configs(configs: &JsonNode) -> (r: String)
    ensures
        r@ == controller_state_text(*configs),
{
    match configs.str_field("mode") {
        Some(mode) => {
            if crate::text::chars_of(mode).len() == 0 {
                owned("reachable")
            } else {
                concat3("reachable (mode: ", mode, ")")
            }
        },
        None => owned("reachable"),
    }
}

/// Summary line, group and node when the `/proxies` request succeeded (`Some`)
/// or failed (`None`).
pub open spec fn selected_proxy_texts(proxies: Option<JsonNode>, preferred: Seq<Seq<char>>) -> (
    Seq<char>,
    Seq<char>,
    Seq<char>,
) {
    match proxies {
        Some(p) => match selected_proxy_details(p, preferred) {
            Some(t) => t,
            None => ("none"@, "none"@, "none"@),
        },
        None => ("unavailable"@, "unavailable"@, "unavailable"@),
    }
}

/// Summary line, group and node of the selected proxy.
pub fn selected_proxy(proxies: Option<&JsonNode>, preferred: &Vec<String>) -> (r: (
    String,
    String,
    String,
))
    ensures
        (r.0@, r.1@, r.2@) == selected_proxy_texts(
            match proxies {
                Some(p) => Some(*p),
                None => None,
            },
            crate::lines::views(preferred@),
        ),
{
    match proxies {
        Some(p) => match selected_proxy_details_from_json(p, preferred) {
            Some(t) => t,
            None => (owned("none"), owned("none"), owned("none")),
        },
        None => (owned("unavailable"), owned("unavailable"), owned("unavailable")),
    }
}

/// Controller state, summary line, group and node, from the `/configs` answer
/// (`None` when the controller could not be reached) and the `/proxies`
/// answer (asked only when the controller was reached).
pub fn controller_status(
    configs: Option<&JsonNode>,
    proxies: Option<&JsonNode>,
    preferred: &Vec<String>,
) -> (r: (String, String, String, String))
    ensures
        match configs {
            Some(c) => r.0@ == controller_state_text(*c) && (r.1@, r.2@, r.3@)
                == selected_proxy_texts(
                match proxies {
                    Some(p) => Some(*p),
                    None => None,
                },
                crate::lines::views(preferred@),
            ),
            None => r.0@ == "unreachable"@ && r.1@ == "unavailable"@ && r.2@ == "unavailable"@
                && r.3@ == "unavailable"@,
        },
{
    match configs {
        Some(c) => {
            let (summary, group, node) = selected_proxy(proxies, preferred);
            (controller_state_from_configs(c), summary, group, node)
        },
        None => (owned("unreachable"), owned("unavailable"), owned("unavailable"), owned("unavailable")),
    }
}

pub open spec fn group_names_of(groups: Seq<YamlNode>) -> Seq<Seq<char>>
    decreases groups.len(),
{
    if groups.len() == 0 {
        Seq::empty()
    } else {
        let rest = group_names_of(groups.drop_last());
        match yaml_str_field(groups.last(), "name"@) {
            Some(n) => rest.push(n),
            None => rest,
        }
    }
}

/// The names of the proxy groups of a profile document, in document order.
pub open spec fn proxy_group_names(doc: YamlNode) -> Seq<Seq<char>> {
    match yaml_get(doc, "proxy-groups"@) {
        Some(g) => match yaml_seq(g) {
            Some(groups) => group_names_of(groups),
            None => Seq::empty(),
        },
        None => Seq::empty(),
    }
}

/// The names of the proxy groups of a profile document, in document order.
pub fn proxy_group_names_of(doc: &YamlNode) -> (r: Vec<String>)
    ensures
        crate::lines::views(r@) == proxy_group_names(*doc),
{
    let mut r: Vec<String> = Vec::new();
    let groups = match doc.get("proxy-groups") {
        Some(g) => match g.as_sequence() {
            Some(s) => s,
            None => return r,
        },
        None => return r,
    };
    let mut i: usize = 0;
    assert(groups@.take(0) =~= Seq::<YamlNode>::empty());
    assert(crate::lines::views(r@) =~= Seq::<Seq<char>>::empty());
    while i < groups.len()
        invariant
            i <= groups@.len(),
            proxy_group_names(*doc) == group_names_of(groups@),
            crate::lines::views(r@) == group_names_of(groups@.take(i as int)),
        decreases groups@.len() - i,
    {
        assert(groups@.take(i + 1).drop_last() == groups@.take(i as int));
        assert(groups@.take(i + 1).last() == groups@[i as int]);
        if let Some(name) = groups[i].str_field("name") {
            let n = owned(name);
            proof {
                crate::lines::lemma_views_push(r@, n);
            }
            r.push(n);
        }
        i += 1;
    }
    assert(groups@.take(groups@.len() as int) == groups@);
    r
}

/// The proxy group names of the active profile, in the order of its file; none
/// when no profile is active (`none`), its file could not be read (`None`), or
/// it is not YAML.
pub open spec fn preferred_groups(active: Seq<char>, text: Option<Seq<char>>) -> Seq<Seq<char>> {
    if active == "none"@ {
        Seq::empty()
    } else {
        match text {
            Some(t) => match crate::yaml::yaml_document(t) {
                Some(doc) => proxy_group_names(doc),
                None => Seq::empty(),
            },
            None => Seq::empty(),
        }
    }
}

/// The proxy group names of the active profile, given the text of its file.
pub fn preferred_proxy_groups(active_profile: &str, profile_text: Option<&str>) -> (r: Vec<String>)
    ensures
        crate::lines::views(r@) == preferred_groups(
            active_profile@,
            match profile_text {
                Some(t) => Some(t@),
                None => None,
            },
        ),
{
    if text_eq(active_profile, "none") {
        let r: Vec<String> = Vec::new();
        assert(crate::lines::views(r@) =~= Seq::<Seq<char>>::empty());
        return r;
    }
    let empty: Vec<String> = Vec::new();
    assert(crate::lines::views(empty@) =~= Seq::<Seq<char>>::empty());
    match profile_text {
        Some(t) => match crate::yaml::parse_yaml(t) {
            Ok(doc) => proxy_group_names_of(&doc),
            Err(_) => empty,
        },
        None => empty,
    }
}

/// The process text: running with its pid, or stopped.
pub open spec fn process_text(running_pid: Option<u32>) -> Seq<char> {
    match running_pid {
        Some(pid) => "running (pid "@ + decimal(pid as nat) + ")"@,
        None => "stopped"@,
    }
}

pub fn process_description(running_pid: Option<u32>) -> (r: String)
    ensures
        r@ == process_text(running_pid),
{
    match running_pid {
        Some(pid) => concat3("running (pid ", decimal_string(pid as u64).as_str(), ")"),
        None => owned("stopped"),
    }
}

/// The status snapshot from what was found: the home directory, the core's
/// location (or `missing`), the core's version (`None` when it could not be
/// read), the config, the pid of the running core (`None` when it is not
/// running), and the controller's state with the selected proxy.
pub fn collect(
    home: &str,
    core: &str,
    core_version: Option<&str>,
    config: &AppConfig,
    running_pid: Option<u32>,
    controller: (String, String, String, String),
) -> (r: StatusSnapshot)
    ensures
        r.home@ == home@,
        r.core@ == core@,
        r.core_version@ == match core_version {
            Some(v) => v@,
            None => "unavailable"@,
        },
        r.active_profile@ == match config.active_profile {
            Some(p) => p@,
            None => "none"@,
        },
        r.selected_proxy == controller.1,
        r.current_group == controller.2,
        r.current_node == controller.3,
        r.mixed_port == config.mixed_port,
        r.controller@ == crate::config::controller_base_text(config.controller_address@),
        r.process@ == process_text(running_pid),
        r.controller_state == controller.0,
{
    let (state, summary, group, node) = controller;
    StatusSnapshot {
        home: owned(home),
        core: owned(core),
        core_version: match core_version {
            Some(v) => owned(v),
            None => owned("unavailable"),
        },
        active_profile: match &config.active_profile {
            Some(p) => p.clone(),
            None => owned("none"),
        },
        selected_proxy: summary,
        current_group: group,
        current_node: node,
        mixed_port: config.mixed_port,
        controller: config.controller_base(),
        process: process_description(running_pid),
        controller_state: state,
    }
}

/// What `status` prints.
pub open spec fn status_text_lines(s: StatusSnapshot) -> Seq<Seq<char>> {
    seq![
        "Starail home: "@ + s.home@,
        "Core: "@ + s.core@,
        "Core version: "@ + s.core_version@,
        "Active profile: "@ + s.active_profile@,
        "Current group/node: "@ + s.selected_proxy@,
        "Mixed port: "@ + decimal(s.mixed_port as nat),
        "Controller: "@ + s.controller@,
        "Process: "@ + s.process@,
        "Controller state: "@ + s.controller_state@,
    ]
}

/// What `status` prints.
pub fn status_lines(s: &StatusSnapshot) -> (r: Vec<String>)
    ensures
        crate::lines::views(r@) == status_text_lines(*s),
{
    let mut r: Vec<String> = Vec::new();
    r.push(concat2("Starail home: ", s.home.as_str()));
    r.push(concat2("Core: ", s.core.as_str()));
    r.push(concat2("Core version: ", s.core_version.as_str()));
    r.push(concat2("Active profile: ", s.active_profile.as_str()));
    r.push(concat2("Current group/node: ", s.selected_proxy.as_str()));
    r.push(concat2("Mixed port: ", decimal_string(s.mixed_port as u64).as_str()));
    r.push(concat2("Controller: ", s.controller.as_str()));
    r.push(concat2("Process: ", s.process.as_str()));
    r.push(concat2("Controller state: ", s.controller_state.as_str()));
    assert(crate::lines::views(r@) =~= seq![
        r@[0]@,
        r@[1]@,
        r@[2]@,
        r@[3]@,
        r@[4]@,
        r@[5]@,
        r@[6]@,
        r@[7]@,
        r@[8]@,
    ]);
    r
}

/// The summary of the selected group and node (`group -> node`, with the
/// count of further groups), if any.
pub fn selected_proxy_from_json(json: &JsonNode, preferred: &Vec<String>) -> (r: Option<String>)
    ensures
        match r {
            Some(s) => ({ &&& selected_proxy_details(*json, crate::lines::views(preferred@)) matches Some(
                t,
            ) &&& t.0 == s@ }),
            None => selected_proxy_details(*json, crate::lines::views(preferred@)) is None,
        },
{
    match selected_proxy_details_from_json(json, preferred) {
        Some((summary, _, _)) => Some(summary),
        None => None,
    }
}

} // verus!
