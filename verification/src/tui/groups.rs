//! The proxy groups of the active profile, in the order its YAML lists
//! them, and the groups page built from them.
use vstd::prelude::*;
use vstd::string::StringExecFns;
use crate::i18n::{message_text, Language, Message};
use crate::lines::views;
use crate::text::{concat3, concat4, owned};
use crate::tui::pages::{ProxyItem, ProxyPage};
use crate::yaml::{parse_yaml, yaml_parsed, yaml_get, yaml_seq, yaml_str, yaml_str_field, YamlNode};

verus! {

/// The string items of a sequence, in order; other items are left out.
pub open spec fn string_items(items: Seq<YamlNode>) -> Seq<Seq<char>>
    decreases items.len(),
{
    if items.len() == 0 {
        Seq::empty()
    } else {
        match yaml_str(items.last()) {
            Some(s) => string_items(items.drop_last()).push(s),
            None => string_items(items.drop_last()),
        }
    }
}

/// The nodes a group lists under `proxies`, if it lists any.
pub open spec fn group_children(group: YamlNode) -> Seq<Seq<char>> {
    match yaml_get(group, "proxies"@) {
        Some(p) => match yaml_seq(p) {
            Some(items) => string_items(items),
            None => Seq::empty(),
        },
        None => Seq::empty(),
    }
}

/// The groups with a name, as (name, type, nodes); a missing type is empty.
pub open spec fn named_groups(groups: Seq<YamlNode>) -> Seq<(Seq<char>, Seq<char>, Seq<Seq<char>>)>
    decreases groups.len(),
{
    if groups.len() == 0 {
        Seq::empty()
    } else {
        let g = groups.last();
        match yaml_str_field(g, "name"@) {
            Some(name) => named_groups(groups.drop_last()).push(
                (
                    name,
                    match yaml_str_field(g, "type"@) {
                        Some(t) => t,
                        None => Seq::empty(),
                    },
                    group_children(g),
                ),
            ),
            None => named_groups(groups.drop_last()),
        }
    }
}

/// The groups of a profile under `proxy-groups`, in order.
pub open spec fn profile_groups(doc: YamlNode) -> Seq<(Seq<char>, Seq<char>, Seq<Seq<char>>)> {
    match yaml_get(doc, "proxy-groups"@) {
        Some(g) => match yaml_seq(g) {
            Some(groups) => named_groups(groups),
            None => Seq::empty(),
        },
        None => Seq::empty(),
    }
}

/// A group as plain values.
pub open spec fn item_view(item: ProxyItem) -> (Seq<char>, Seq<char>, Seq<Seq<char>>) {
    (item.name@, item.kind@, views(item.children@))
}

pub open spec fn item_views(items: Seq<ProxyItem>) -> Seq<(Seq<char>, Seq<char>, Seq<Seq<char>>)> {
    items.map_values(|i: ProxyItem| item_view(i))
}

fn children_of(group: &YamlNode) -> (r: Vec<String>)
    ensures
        views(r@) == group_children(*group),
{
    let mut r: Vec<String> = Vec::new();
    let items = match group.get("proxies") {
        Some(p) => match p.as_sequence() {
            Some(items) => items,
            None => {
                assert(views(r@) =~= Seq::<Seq<char>>::empty());
                return r;
            },
        },
        None => {
            assert(views(r@) =~= Seq::<Seq<char>>::empty());
            return r;
        },
    };
    let mut i: usize = 0;
    assert(views(r@) =~= string_items(items@.take(0)));
    while i < items.len()
        invariant
            i <= items@.len(),
            views(r@) == string_items(items@.take(i as int)),
        decreases items@.len() - i,
    {
        assert(items@.take(i + 1).drop_last() == items@.take(i as int));
        assert(items@.take(i + 1).last() == items@[i as int]);
        if let Some(s) = items[i].as_str() {
            let ghost before = r@;
            r.push(owned(s));
            assert(views(r@) =~= views(before).push(s@));
        }
        i += 1;
    }
    assert(items@.take(items@.len() as int) == items@);
    r
}

/// The proxy groups of a profile, in the order it lists them.
pub fn proxy_groups_from_yaml(doc: &YamlNode) -> (r: Vec<ProxyItem>)
    ensures
        item_views(r@) == profile_groups(*doc),
{
    let mut r: Vec<ProxyItem> = Vec::new();
    let groups = match doc.get("proxy-groups") {
        Some(g) => match g.as_sequence() {
            Some(groups) => groups,
            None => {
                assert(item_views(r@) =~= Seq::empty());
                return r;
            },
        },
        None => {
            assert(item_views(r@) =~= Seq::empty());
            return r;
        },
    };
    let mut i: usize = 0;
    assert(item_views(r@) =~= named_groups(groups@.take(0)));
    while i < groups.len()
        invariant
            i <= groups@.len(),
            item_views(r@) == named_groups(groups@.take(i as int)),
        decreases groups@.len() - i,
    {
        assert(groups@.take(i + 1).drop_last() == groups@.take(i as int));
        assert(groups@.take(i + 1).last() == groups@[i as int]);
        let g = &groups[i];
        if let Some(name) = g.str_field("name") {
            let kind = match g.str_field("type") {
                Some(t) => owned(t),
                None => String::new(),
            };
            let item = ProxyItem { name: owned(name), kind, children: children_of(g) };
            let ghost before = r@;
            r.push(item);
            assert(item_views(r@) =~= item_views(before).push(item_view(item)));
        }
        i += 1;
    }
    assert(groups@.take(groups@.len() as int) == groups@);
    r
}

/// The error when no profile is active.
pub fn no_active_profile_message(language: Language) -> (r: String)
    ensures
        r@ == message_text(language, Message::NoActiveProfileSelected),
{
    owned(language.tr(Message::NoActiveProfileSelected))
}

/// The groups page for the active profile `active`, stored at `path`,
/// given the text read from it (or the error met reading it): its groups,
/// or the error that it could not be read or parsed.
pub fn proxy_page_from_profile(
    active: &str,
    path: &str,
    text: Result<String, String>,
    language: Language,
) -> (r: Result<ProxyPage, String>)
    ensures
        match text {
            Err(e) => r matches Err(m) && m@ == message_text(language, Message::FailedReadActiveProfile)
                + " "@ + path@ + ": "@ + e@,
            Ok(t) => match yaml_parsed(t@) {
                Err(e) => r matches Err(m) && m@ == message_text(
                    language,
                    Message::FailedParseActiveProfile,
                ) + " "@ + path@ + ": "@ + e,
                Ok(doc) => r matches Ok(p) && item_views(p.items@) == profile_groups(doc)
                    && p.selected == 0 && p.message@ == message_text(
                    language,
                    Message::LoadedProxyGroups,
                ) + " '"@ + active@ + "'."@,
            },
        },
{
    let t = match text {
        Ok(t) => t,
        Err(e) => {
            return Err(
                concat4(language.tr(Message::FailedReadActiveProfile), " ", path, ": ").concat(
                    e.as_str(),
                ),
            );
        },
    };
    match parse_yaml(t.as_str()) {
        Ok(doc) => Ok(
            ProxyPage {
                items: proxy_groups_from_yaml(&doc),
                selected: 0,
                message: concat4(language.tr(Message::LoadedProxyGroups), " '", active, "'."),
            },
        ),
        Err(e) => {
            let head = concat4(language.tr(Message::FailedParseActiveProfile), " ", path, ": ");
            Err(head.concat(e.as_str()))
        },
    }
}

} // verus!
