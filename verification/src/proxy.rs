//! Proxy nodes and groups as the controller reports them: the node list, the
//! printed list, delay results, and selection.
use vstd::prelude::*;
use vstd::string::StringExecFns;
use crate::json::{json_array, json_get, json_object, json_str_field, json_u64, member, JsonNode};
use crate::lines::views;
use crate::number::{decimal, decimal_string};
use crate::order::{sort_strings, sorted_texts, string_views};
use crate::profile::{kind_text, ProfileKind};
use crate::status::is_builtin;
use crate::text::{
    concat2, concat3, concat4, concat5, is_blank, owned, pad_end, pad_start, padded_end,
    padded_start, trim,
};

verus! {

/// A controller entry is a group when it has an `all` array.
pub open spec fn is_group(value: JsonNode) -> bool {
    match json_get(value, "all"@) {
        Some(a) => json_array(a) is Some,
        None => false,
    }
}

pub open spec fn node_entries(entries: Seq<(String, JsonNode)>) -> Seq<String>
    decreases entries.len(),
{
    if entries.len() == 0 {
        Seq::empty()
    } else {
        let rest = node_entries(entries.drop_last());
        let (name, value) = entries.last();
        if is_builtin(name@) || is_group(value) {
            rest
        } else {
            rest.push(name)
        }
    }
}

/// The names of the testable nodes in the controller's `/proxies` answer:
/// entries that are neither groups nor built in.
pub open spec fn node_name_set(json: JsonNode) -> Seq<String> {
    match json_get(json, "proxies"@) {
        Some(p) => match json_object(p) {
            Some(entries) => node_entries(entries),
            None => Seq::empty(),
        },
        None => Seq::empty(),
    }
}

fn is_group_exec(value: &JsonNode) -> (r: bool)
    ensures
        r == is_group(*value),
{
    match value.get("all") {
        Some(a) => a.as_array().is_some(),
        None => false,
    }
}

/// The names of the testable nodes, in ascending order.
pub fn node_names(json: &JsonNode) -> (r: Vec<String>)
    ensures
        r@.to_multiset() == node_name_set(*json).to_multiset(),
        sorted_texts(string_views(r@)),
{
    let mut names: Vec<String> = Vec::new();
    let entries = match json.get("proxies") {
        Some(p) => match p.as_object() {
            Some(e) => e,
            None => {
                assert(names@ =~= node_name_set(*json));
                return sort_strings(names);
            },
        },
        None => {
            assert(names@ =~= node_name_set(*json));
            return sort_strings(names);
        },
    };
    let mut i: usize = 0;
    assert(entries@.take(0) =~= Seq::<(String, JsonNode)>::empty());
    while i < entries.len()
        invariant
            i <= entries@.len(),
            node_name_set(*json) == node_entries(entries@),
            names@ == node_entries(entries@.take(i as int)),
        decreases entries@.len() - i,
    {
        assert(entries@.take(i + 1).drop_last() == entries@.take(i as int));
        assert(entries@.take(i + 1).last() == entries@[i as int]);
        let (name, value) = &entries[i];
        if !crate::status::is_builtin_group(name.as_str()) && !is_group_exec(value) {
            names.push(name.clone());
        }
        i += 1;
    }
    assert(entries@.take(entries@.len() as int) == entries@);
    sort_strings(names)
}

/// The delay of a node's last test in its `history`, if any.
pub open spec fn last_delay_of(value: JsonNode) -> Option<u64> {
    match json_get(value, "history"@) {
        Some(h) => match json_array(h) {
            Some(items) => if items.len() > 0 {
                match json_get(items.last(), "delay"@) {
                    Some(d) => json_u64(d),
                    None => None,
                }
            } else {
                None
            },
            None => None,
        },
        None => None,
    }
}

/// The delay of a node's last test, if any.
pub fn last_delay(value: &JsonNode) -> (r: Option<u64>)
    ensures
        r == last_delay_of(*value),
{
    let h = value.get("history")?;
    let items = h.as_array()?;
    if items.len() == 0 {
        return None;
    }
    let d = items[items.len() - 1].get("delay")?;
    d.as_u64()
}

/// The text of a delay answer: `<delay>ms`, or `fallback` when the answer
/// has no whole-number delay.
pub open spec fn delay_text(value: JsonNode, fallback: Seq<char>) -> Seq<char> {
    match json_get(value, "delay"@) {
        Some(d) => match json_u64(d) {
            Some(n) => decimal(n as nat) + "ms"@,
            None => fallback,
        },
        None => fallback,
    }
}

/// The text of a delay answer.
pub fn delay_label(value: &JsonNode, fallback: &str) -> (r: String)
    ensures
        r@ == delay_text(*value, fallback@),
{
    match value.get("delay") {
        Some(d) => match d.as_u64() {
            Some(n) => concat2(decimal_string(n).as_str(), "ms"),
            None => owned(fallback),
        },
        None => owned(fallback),
    }
}

/// The lines that list one controller entry: a group with its members, a
/// node with its last delay, or nothing for a built-in entry.
pub open spec fn entry_lines(name: Seq<char>, value: JsonNode) -> Seq<Seq<char>> {
    let kind = match json_str_field(value, "type"@) {
        Some(k) => k,
        None => Seq::empty(),
    };
    let now = match json_str_field(value, "now"@) {
        Some(n) => n,
        None => Seq::empty(),
    };
    match json_get(value, "all"@) {
        Some(a) if json_array(a) is Some => seq!["[group] "@ + name + "  type="@ + kind + "  now="@ + now]
            + member_lines(json_array(a)->0),
        _ => if is_builtin(name) {
            Seq::empty()
        } else {
            seq![
                "[node]  "@ + name + "  type="@ + kind + match last_delay_of(value) {
                    Some(d) => "  last_delay="@ + decimal(d as nat) + "ms"@,
                    None => Seq::empty(),
                },
            ]
        },
    }
}

/// `  - <member>` for each string member of a group.
pub open spec fn member_lines(items: Seq<JsonNode>) -> Seq<Seq<char>>
    decreases items.len(),
{
    if items.len() == 0 {
        Seq::empty()
    } else {
        let rest = member_lines(items.drop_last());
        match items.last() {
            JsonNode::Str(s) => rest.push("  - "@ + s@),
            _ => rest,
        }
    }
}

pub open spec fn listing_lines(names: Seq<Seq<char>>, entries: Seq<(String, JsonNode)>) -> Seq<Seq<char>>
    decreases names.len(),
{
    if names.len() == 0 {
        Seq::empty()
    } else {
        listing_lines(names.drop_last(), entries) + match member(entries, names.last()) {
            Some(v) => entry_lines(names.last(), v),
            None => Seq::empty(),
        }
    }
}

fn member_lines_of(items: &Vec<JsonNode>, out: &mut Vec<String>)
    ensures
        views(final(out)@) == views(old(out)@) + member_lines(items@),
{
    let mut i: usize = 0;
    assert(items@.take(0) =~= Seq::<JsonNode>::empty());
    assert(views(out@) =~= views(old(out)@) + member_lines(items@.take(0)));
    while i < items.len()
        invariant
            i <= items@.len(),
            views(out@) == views(old(out)@) + member_lines(items@.take(i as int)),
        decreases items@.len() - i,
    {
        assert(items@.take(i + 1).drop_last() == items@.take(i as int));
        assert(items@.take(i + 1).last() == items@[i as int]);
        if let JsonNode::Str(s) = &items[i] {
            let l = concat2("  - ", s.as_str());
            proof {
                crate::lines::lemma_views_push(out@, l);
            }
            out.push(l);
        }
        i += 1;
    }
    assert(items@.take(items@.len() as int) == items@);
}

fn entry_lines_of(name: &str, value: &JsonNode, out: &mut Vec<String>)
    ensures
        views(final(out)@) == views(old(out)@) + entry_lines(name@, *value),
{
    let kind = match value.str_field("type") {
        Some(k) => owned(k),
        None => String::new(),
    };
    let now = match value.str_field("now") {
        Some(n) => owned(n),
        None => String::new(),
    };
    let group = match value.get("all") {
        Some(a) => a.as_array(),
        None => None,
    };
    match group {
        Some(items) => {
            let head = concat5("[group] ", name, "  type=", kind.as_str(), "  now=").concat(
                now.as_str(),
            );
            proof {
                crate::lines::lemma_views_push(out@, head);
            }
            out.push(head);
            member_lines_of(items, out);
        },
        None => {
            if crate::status::is_builtin_group(name) {
                assert(views(out@) =~= views(out@) + Seq::<Seq<char>>::empty());
            } else {
                let delay = match last_delay(value) {
                    Some(d) => concat3("  last_delay=", decimal_string(d).as_str(), "ms"),
                    None => String::new(),
                };
                let line = concat4("[node]  ", name, "  type=", kind.as_str()).concat(delay.as_str());
                proof {
                    crate::lines::lemma_views_push(out@, line);
                }
                out.push(line);
            }
        },
    }
}

/// The printed proxy list: entries in ascending order of name, groups with
/// their members and nodes with their last delay; `None` when the answer has
/// no `proxies` object.
pub fn proxy_list_lines(json: &JsonNode) -> (r: Option<Vec<String>>)
    ensures
        match r {
            Some(ls) => json_get(*json, "proxies"@) matches Some(p) && json_object(p) matches Some(
                entries,
            ) && exists|names: Seq<String>|
                names.to_multiset() == entries.map_values(|e: (String, JsonNode)| e.0).to_multiset()
                    && sorted_texts(string_views(names)) && views(ls@) == listing_lines(
                    string_views(names),
                    entries,
                ),
            None => !(json_get(*json, "proxies"@) matches Some(p) && json_object(p) is Some),
        },
{
    let proxies = json.get("proxies")?;
    let entries = proxies.as_object()?;
    let mut keys: Vec<String> = Vec::new();
    let mut i: usize = 0;
    while i < entries.len()
        invariant
            i <= entries@.len(),
            keys@ == entries@.take(i as int).map_values(|e: (String, JsonNode)| e.0),
        decreases entries@.len() - i,
    {
        keys.push(entries[i].0.clone());
        assert(entries@.take(i + 1).map_values(|e: (String, JsonNode)| e.0) =~= entries@.take(
            i as int,
        ).map_values(|e: (String, JsonNode)| e.0).push(entries@[i as int].0));
        i += 1;
    }
    assert(entries@.take(entries@.len() as int) == entries@);
    let names = sort_strings(keys);
    let mut out: Vec<String> = Vec::new();
    let mut k: usize = 0;
    assert(string_views(names@).take(0) =~= Seq::<Seq<char>>::empty());
    assert(views(out@) =~= Seq::<Seq<char>>::empty());
    while k < names.len()
        invariant
            k <= names@.len(),
            json_get(*json, "proxies"@) == Some(*proxies),
            json_object(*proxies) == Some(entries@),
            views(out@) == listing_lines(string_views(names@).take(k as int), entries@),
        decreases names@.len() - k,
    {
        let ghost prefix = string_views(names@).take(k + 1);
        assert(prefix.drop_last() == string_views(names@).take(k as int));
        assert(prefix.last() == names@[k as int]@);
        match proxies.get(names[k].as_str()) {
            Some(v) => {
                entry_lines_of(names[k].as_str(), v, &mut out);
            },
            None => {
                assert(views(out@) =~= views(out@) + Seq::<Seq<char>>::empty());
            },
        }
        k += 1;
    }
    assert(string_views(names@).take(names@.len() as int) == string_views(names@));
    Some(out)
}

/// The usage error of `proxy select` when the group or the node is blank.
pub fn check_select_args(group: &str, node: &str) -> (r: Result<(), String>)
    ensures
        r is Ok <==> (trim(group@).len() > 0 && trim(node@).len() > 0),
        r matches Err(e) ==> e@ == "usage: starail proxy select <group> <node>"@,
{
    if is_blank(group) || is_blank(node) {
        Err(owned("usage: starail proxy select <group> <node>"))
    } else {
        Ok(())
    }
}

/// The error when the controller refused a selection.
pub fn select_failed_message(group: &str, node: &str) -> (r: String)
    ensures
        r@ == "failed to switch group '"@ + group@ + "' to node '"@ + node@
            + "'. Check group/node names with 'starail proxy list'."@,
{
    concat5("failed to switch group '", group, "' to node '", node, "'. Check group/node names with 'starail proxy list'.")
}

/// The message after a selection.
pub fn selected_message(group: &str, node: &str) -> (r: String)
    ensures
        r@ == "Selected '"@ + node@ + "' in group '"@ + group@ + "'."@,
{
    concat5("Selected '", node, "' in group '", group, "'.")
}

/// Node tests are scoped to the active profile, which must be
/// subscription-backed.
pub fn check_test_profile(active: &str, kind: ProfileKind) -> (r: Result<(), String>)
    ensures
        r is Ok <==> kind == ProfileKind::Subscription,
        r matches Err(e) ==> e@ == "proxy test is scoped to the active subscription-backed profile. Active profile '"@
            + active@ + "' is type '"@ + kind_text(kind) + "'."@,
{
    match kind {
        ProfileKind::Subscription => Ok(()),
        ProfileKind::Local => Err(concat5(
            "proxy test is scoped to the active subscription-backed profile. Active profile '",
            active,
            "' is type '",
            kind.as_str(),
            "'.",
        )),
    }
}

/// The line that announces a node test run.
pub fn test_start_line(count: usize, test_url: &str, timeout_ms: u64) -> (r: String)
    ensures
        r@ == "Testing "@ + decimal(count as nat) + " nodes concurrently with "@ + test_url@
            + " timeout="@ + decimal(timeout_ms as nat) + "ms"@,
{
    let a = concat3("Testing ", decimal_string(count as u64).as_str(), " nodes concurrently with ");
    let b = concat3(test_url, " timeout=", decimal_string(timeout_ms).as_str());
    concat3(a.as_str(), b.as_str(), "ms")
}

/// The line for one finished node test: its position, the node padded to 48
/// characters, the delay (or `failed`) right-aligned in 8, the time it took,
/// and the error of a failed test.
pub open spec fn test_result_text(
    finished: nat,
    total: nat,
    node: Seq<char>,
    result: Result<Seq<char>, Seq<char>>,
    elapsed_ms: nat,
) -> Seq<char> {
    let head = "["@ + decimal(finished) + "/"@ + decimal(total) + "] "@ + padded_end(node, 48) + " "@;
    match result {
        Ok(delay) => head + padded_start(delay, 8) + "  finished="@ + decimal(elapsed_ms) + "ms"@,
        Err(error) => head + padded_start("failed"@, 8) + "  finished="@ + decimal(elapsed_ms)
            + "ms  "@ + error,
    }
}

/// The line for one finished node test.
pub fn test_result_line(
    finished: usize,
    total: usize,
    node: &str,
    result: &Result<String, String>,
    elapsed_ms: u64,
) -> (r: String)
    ensures
        r@ == test_result_text(
            finished as nat,
            total as nat,
            node@,
            match result {
                Ok(d) => Ok(d@),
                Err(e) => Err(e@),
            },
            elapsed_ms as nat,
        ),
{
    let head = concat5(
        "[",
        decimal_string(finished as u64).as_str(),
        "/",
        decimal_string(total as u64).as_str(),
        "] ",
    ).concat(pad_end(node, 48).as_str()).concat(" ");
    let elapsed = decimal_string(elapsed_ms);
    match result {
        Ok(delay) => concat4(head.as_str(), pad_start(delay.as_str(), 8).as_str(), "  finished=", elapsed.as_str()).concat("ms"),
        Err(error) => concat5(
            head.as_str(),
            pad_start("failed", 8).as_str(),
            "  finished=",
            elapsed.as_str(),
            "ms  ",
        ).concat(error.as_str()),
    }
}

/// The outcome of a node test run: an error when every test failed.
pub fn test_outcome(any_ok: bool) -> (r: Result<(), String>)
    ensures
        r is Ok <==> any_ok,
        r matches Err(e) ==> e@ == "all proxy delay tests failed"@,
{
    if any_ok {
        Ok(())
    } else {
        Err(owned("all proxy delay tests failed"))
    }
}

/// A node's listed delay is the delay of the newest entry of its history:
/// for a node (neither a group nor built in) whose `history` array ends with
/// an entry whose `delay` is the whole number `d`, the delay is `d` and its
/// line ends in `  last_delay=<d>ms`, whatever the earlier entries hold.
pub proof fn lemma_listed_delay_is_newest(
    name: Seq<char>,
    value: JsonNode,
    history: Seq<JsonNode>,
    d: u64,
)
    requires
        !is_builtin(name),
        !is_group(value),
        json_get(value, "history"@) matches Some(h) && json_array(h) == Some(history),
        history.len() > 0,
        json_get(history[history.len() - 1], "delay"@) matches Some(x) && json_u64(x) == Some(d),
    ensures
        last_delay_of(value) == Some(d),
        entry_lines(name, value).len() == 1,
        ({
            let line = entry_lines(name, value)[0];
            let tail = "  last_delay="@ + decimal(d as nat) + "ms"@;
            &&& line.len() >= tail.len()
            &&& line.subrange(line.len() - tail.len(), line.len() as int) == tail
        }),
{
    let kind = match json_str_field(value, "type"@) {
        Some(k) => k,
        None => Seq::empty(),
    };
    let head = "[node]  "@ + name + "  type="@ + kind;
    let tail = "  last_delay="@ + decimal(d as nat) + "ms"@;
    assert(entry_lines(name, value) == seq![head + tail]);
    let line = head + tail;
    assert(line.subrange(line.len() - tail.len(), line.len() as int) =~= tail);
}

} // verus!
