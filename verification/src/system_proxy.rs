//! The Starail-owned block of proxy variables in `~/.bashrc`. Only the lines
//! between the block's start and end markers belong to Starail; every other
//! line of the file is left as it is.
use vstd::prelude::*;
use vstd::string::StringExecFns;
use crate::lines::{join, join_with, lines, split_lines, strip_cr, views};
use crate::number::{decimal, decimal_string};
use crate::text::{concat2, concat5, push_char, text_eq};

verus! {

pub open spec fn start_marker() -> Seq<char> {
    "# >>> starail proxy >>>"@
}

pub open spec fn end_marker() -> Seq<char> {
    "# <<< starail proxy <<<"@
}

/// `export NAME="VALUE"`.
pub open spec fn export_line(name: Seq<char>, value: Seq<char>) -> Seq<char> {
    "export "@ + name + "=\""@ + value + "\""@
}

/// The proxy URL for a mixed port.
pub open spec fn proxy_url(port: u16) -> Seq<char> {
    "http://127.0.0.1:"@ + decimal(port as nat)
}

pub open spec fn no_proxy_value() -> Seq<char> {
    "localhost,127.0.0.1,::1"@
}

/// The lines of the block for a mixed port.
pub open spec fn block_lines(port: u16) -> Seq<Seq<char>> {
    let p = proxy_url(port);
    seq![
        start_marker(),
        export_line("http_proxy"@, p),
        export_line("https_proxy"@, p),
        export_line("all_proxy"@, p),
        export_line("HTTP_PROXY"@, p),
        export_line("HTTPS_PROXY"@, p),
        export_line("ALL_PROXY"@, p),
        export_line("no_proxy"@, no_proxy_value()),
        export_line("NO_PROXY"@, no_proxy_value()),
        end_marker(),
    ]
}

/// The block's text: its lines, each ended by a line feed.
pub open spec fn block_text(port: u16) -> Seq<char> {
    join(block_lines(port), "\n"@) + "\n"@
}

/// The lines that stay when the blocks are removed: lines between a start
/// marker and the next end marker go, and so do the markers themselves.
pub open spec fn kept_lines(ls: Seq<Seq<char>>, skipping: bool) -> Seq<Seq<char>>
    decreases ls.len(),
{
    if ls.len() == 0 {
        Seq::empty()
    } else if ls[0] == start_marker() {
        kept_lines(ls.drop_first(), true)
    } else if ls[0] == end_marker() {
        kept_lines(ls.drop_first(), false)
    } else if skipping {
        kept_lines(ls.drop_first(), true)
    } else {
        seq![ls[0]] + kept_lines(ls.drop_first(), false)
    }
}

/// Lines joined with line feeds, with a final line feed unless empty.
pub open spec fn line_text(ls: Seq<Seq<char>>) -> Seq<char> {
    let j = join(ls, "\n"@);
    if j.len() == 0 {
        j
    } else {
        j + "\n"@
    }
}

/// The text with the Starail blocks removed.
pub open spec fn without_block(text: Seq<char>) -> Seq<char> {
    line_text(kept_lines(lines(text), false))
}

/// The text with the Starail block (for `port`) placed at its end, after any
/// earlier block was removed.
pub open spec fn with_block(text: Seq<char>, port: u16) -> Seq<char> {
    let rest = without_block(text);
    let rest = if rest.len() > 0 && rest.last() != '\n' {
        rest.push('\n')
    } else {
        rest
    };
    rest + block_text(port)
}

/// Whether a line of the text is the block's start marker.
pub open spec fn block_present(text: Seq<char>) -> bool {
    lines(text).contains(start_marker())
}

/// The lines of the block for a mixed port.
pub fn block_line_list(port: u16) -> (r: Vec<String>)
    ensures
        views(r@) == block_lines(port),
{
    let p = concat2("http://127.0.0.1:", decimal_string(port as u64).as_str());
    let p = p.as_str();
    let mut r: Vec<String> = Vec::new();
    r.push(crate::text::owned("# >>> starail proxy >>>"));
    r.push(concat5("export ", "http_proxy", "=\"", p, "\""));
    r.push(concat5("export ", "https_proxy", "=\"", p, "\""));
    r.push(concat5("export ", "all_proxy", "=\"", p, "\""));
    r.push(concat5("export ", "HTTP_PROXY", "=\"", p, "\""));
    r.push(concat5("export ", "HTTPS_PROXY", "=\"", p, "\""));
    r.push(concat5("export ", "ALL_PROXY", "=\"", p, "\""));
    r.push(concat5("export ", "no_proxy", "=\"", "localhost,127.0.0.1,::1", "\""));
    r.push(concat5("export ", "NO_PROXY", "=\"", "localhost,127.0.0.1,::1", "\""));
    r.push(crate::text::owned("# <<< starail proxy <<<"));
    proof {
        assert(views(r@) =~= block_lines(port));
    }
    r
}

/// The block of proxy variables for a mixed port.
pub fn block(port: u16) -> (r: String)
    ensures
        r@ == block_text(port),
{
    let ls = block_line_list(port);
    let mut r = join_with(&ls, "\n");
    push_char(&mut r, '\n');
    proof {
        reveal_strlit("\n");
        assert(r@ =~= block_text(port));
    }
    r
}

/// Whether a line of `text` is the block's start marker.
pub fn block_present_in(text: &str) -> (r: bool)
    ensures
        r == block_present(text@),
{
    let ls = split_lines(text);
    let mut i: usize = 0;
    while i < ls.len()
        invariant
            i <= ls@.len(),
            views(ls@) == lines(text@),
            forall|k: int| 0 <= k < i ==> views(ls@)[k] != start_marker(),
        decreases ls@.len() - i,
    {
        if text_eq(ls[i].as_str(), "# >>> starail proxy >>>") {
            proof {
                assert(lines(text@)[i as int] == start_marker());
            }
            return true;
        }
        i += 1;
    }
    proof {
        if lines(text@).contains(start_marker()) {
            let k = choose|k: int| 0 <= k < lines(text@).len() && lines(text@)[k] == start_marker();
            assert(views(ls@)[k] == start_marker());
        }
    }
    false
}

/// `text` with every Starail block removed; other lines stay as they were.
pub fn remove_block_text(text: &str) -> (r: String)
    ensures
        r@ == without_block(text@),
{
    let ls = split_lines(text);
    let ghost all = views(ls@);
    let mut out: Vec<String> = Vec::new();
    let mut skipping = false;
    let mut i: usize = 0;
    assert(all.skip(0) == all);
    while i < ls.len()
        invariant
            i <= ls@.len(),
            all == views(ls@),
            all == lines(text@),
            views(out@) + kept_lines(all.skip(i as int), skipping) == kept_lines(all, false),
        decreases ls@.len() - i,
    {
        let ghost rest = all.skip(i as int);
        assert(rest[0] == ls@[i as int]@);
        assert(rest.drop_first() == all.skip(i + 1));
        if text_eq(ls[i].as_str(), "# >>> starail proxy >>>") {
            skipping = true;
        } else if text_eq(ls[i].as_str(), "# <<< starail proxy <<<") {
            skipping = false;
        } else if !skipping {
            let line = ls[i].clone();
            proof {
                crate::lines::lemma_views_push(out@, line);
                assert(views(out@.push(line)) + kept_lines(all.skip(i + 1), false) =~= views(out@)
                    + kept_lines(rest, false));
            }
            out.push(line);
        }
        i += 1;
    }
    assert(all.skip(ls@.len() as int) =~= Seq::<Seq<char>>::empty());
    assert(views(out@) =~= kept_lines(all, false));
    let mut r = join_with(&out, "\n");
    if crate::text::chars_of(r.as_str()).len() > 0 {
        push_char(&mut r, '\n');
        proof {
            reveal_strlit("\n");
        }
        assert(r@ =~= join(views(out@), "\n"@) + "\n"@);
    }
    r
}

/// The new text of `~/.bashrc` when the shell proxy is switched on.
pub fn bashrc_with_block(existing: &str, port: u16) -> (r: String)
    ensures
        r@ == with_block(existing@, port),
{
    let mut next = remove_block_text(existing);
    let cs = crate::text::chars_of(next.as_str());
    if cs.len() > 0 && cs[cs.len() - 1] != '\n' {
        push_char(&mut next, '\n');
    }
    next.concat(block(port).as_str())
}

/// What `system-proxy on` prints: where the block was written and the
/// proxy new shells use.
pub fn enabled_lines(bashrc: &str, port: u16) -> (r: Vec<String>)
    ensures
        views(r@) == seq![
            "Shell proxy block enabled in "@ + bashrc@,
            "New shells will use http://127.0.0.1:"@ + decimal(port as nat)
                + ". Existing shells are unchanged."@,
        ],
{
    let mut r: Vec<String> = Vec::new();
    r.push(concat2("Shell proxy block enabled in ", bashrc));
    r.push(
        concat2("New shells will use http://127.0.0.1:", decimal_string(port as u64).as_str()).concat(
            ". Existing shells are unchanged.",
        ),
    );
    assert(views(r@) =~= seq![r@[0]@, r@[1]@]);
    r
}

/// What `system-proxy off` prints.
pub fn removed_line(bashrc: &str) -> (r: String)
    ensures
        r@ == "Shell proxy block removed from "@ + bashrc@,
{
    concat2("Shell proxy block removed from ", bashrc)
}

/// What `system-proxy status` prints: whether the block is in `~/.bashrc`
/// and what the config records.
pub fn status_report(present: bool, enabled: bool) -> (r: Vec<String>)
    ensures
        views(r@) == seq![
            "Shell proxy block: "@ + if present {
                "present"@
            } else {
                "absent"@
            },
            "Starail setting: shell_proxy_enabled="@ + if enabled {
                "true"@
            } else {
                "false"@
            },
        ],
{
    let mut r: Vec<String> = Vec::new();
    r.push(
        concat2(
            "Shell proxy block: ",
            if present {
                "present"
            } else {
                "absent"
            },
        ),
    );
    r.push(
        concat2(
            "Starail setting: shell_proxy_enabled=",
            if enabled {
                "true"
            } else {
                "false"
            },
        ),
    );
    assert(views(r@) =~= seq![r@[0]@, r@[1]@]);
    r
}

} // verus!

verus! {

/// No line is a marker.
pub open spec fn no_markers(ls: Seq<Seq<char>>) -> bool {
    forall|i: int| 0 <= i < ls.len() ==> #[trigger] ls[i] != start_marker() && ls[i] != end_marker()
}

/// Every line is one that `str::lines` gives back unchanged.
pub open spec fn all_plain(ls: Seq<Seq<char>>) -> bool {
    forall|i: int| 0 <= i < ls.len() ==> crate::lines::plain_line(#[trigger] ls[i])
}

proof fn lemma_kept_subset(ls: Seq<Seq<char>>, skipping: bool)
    ensures
        no_markers(kept_lines(ls, skipping)),
        forall|i: int|
            0 <= i < kept_lines(ls, skipping).len() ==> ls.contains(
                #[trigger] kept_lines(ls, skipping)[i],
            ),
    decreases ls.len(),
{
    if ls.len() > 0 {
        let t = ls.drop_first();
        lemma_kept_subset(t, true);
        lemma_kept_subset(t, false);
        assert forall|x: Seq<char>| t.contains(x) implies ls.contains(x) by {
            let k = choose|k: int| 0 <= k < t.len() && t[k] == x;
            assert(ls[k + 1] == x);
        }
        if !(ls[0] == start_marker()) && !(ls[0] == end_marker()) && !skipping {
            let k = kept_lines(t, false);
            assert forall|i: int| 0 <= i < (seq![ls[0]] + k).len() implies (#[trigger] (seq![ls[0]]
                + k)[i]) != start_marker() && (seq![ls[0]] + k)[i] != end_marker() && ls.contains(
                (seq![ls[0]] + k)[i],
            ) by {
                if i > 0 {
                    assert((seq![ls[0]] + k)[i] == k[i - 1]);
                } else {
                    assert(ls[0] == ls[0]);
                }
            }
        }
    }
}

proof fn lemma_kept_append(a: Seq<Seq<char>>, b: Seq<Seq<char>>)
    requires
        no_markers(a),
    ensures
        kept_lines(a + b, false) == a + kept_lines(b, false),
    decreases a.len(),
{
    if a.len() == 0 {
        assert(a + b =~= b);
        assert(a + kept_lines(b, false) =~= kept_lines(b, false));
    } else {
        let t = a.drop_first();
        assert(no_markers(t)) by {
            assert forall|i: int| 0 <= i < t.len() implies #[trigger] t[i] != start_marker()
                && t[i] != end_marker() by {
                assert(t[i] == a[i + 1]);
            }
        }
        lemma_kept_append(t, b);
        assert((a + b)[0] == a[0]);
        assert((a + b).drop_first() =~= t + b);
        assert(a[0] != start_marker() && a[0] != end_marker());
        assert(seq![a[0]] + (t + kept_lines(b, false)) =~= a + kept_lines(b, false));
    }
}

proof fn lemma_kept_skipped(ls: Seq<Seq<char>>)
    requires
        ls.len() >= 1,
        ls.last() == end_marker(),
        no_markers(ls.drop_last()),
    ensures
        kept_lines(ls, true) == Seq::<Seq<char>>::empty(),
    decreases ls.len(),
{
    if ls.len() == 1 {
        assert(ls[0] == end_marker());
        lemma_literal_lines();
        assert(ls.drop_first().len() == 0);
        assert(kept_lines(ls.drop_first(), false) =~= Seq::<Seq<char>>::empty());
    } else {
        let t = ls.drop_first();
        assert(ls.drop_last()[0] == ls[0]);
        assert(ls[0] != start_marker() && ls[0] != end_marker());
        assert(t.last() == ls.last());
        assert(no_markers(t.drop_last())) by {
            assert forall|i: int| 0 <= i < t.drop_last().len() implies #[trigger] t.drop_last()[i]
                != start_marker() && t.drop_last()[i] != end_marker() by {
                assert(t.drop_last()[i] == ls.drop_last()[i + 1]);
            }
        }
        lemma_kept_skipped(t);
    }
}

proof fn lemma_decimal_plain(n: nat)
    ensures
        forall|i: int| 0 <= i < decimal(n).len() ==> crate::number::is_digit(#[trigger] decimal(n)[i]),
    decreases n,
{
    if n >= 10 {
        lemma_decimal_plain(n / 10);
        let d = decimal(n / 10);
        assert forall|i: int| 0 <= i < decimal(n).len() implies crate::number::is_digit(
            #[trigger] decimal(n)[i],
        ) by {
            if i < d.len() {
                assert(decimal(n)[i] == d[i]);
            }
        }
    }
}

proof fn lemma_no_newline_concat(a: Seq<char>, b: Seq<char>)
    requires
        crate::lines::no_newline(a),
        crate::lines::no_newline(b),
    ensures
        crate::lines::no_newline(a + b),
{
    assert forall|i: int| 0 <= i < (a + b).len() implies #[trigger] (a + b)[i] != '\n' by {
        if i >= a.len() {
            assert((a + b)[i] == b[i - a.len()]);
        }
    }
}

proof fn lemma_literal_lines()
    ensures
        crate::lines::plain_line(start_marker()),
        crate::lines::plain_line(end_marker()),
        start_marker() != end_marker(),
{
    reveal_strlit("# >>> starail proxy >>>");
    reveal_strlit("# <<< starail proxy <<<");
    assert(start_marker()[2] != end_marker()[2]);
}

proof fn lemma_export_line(name: Seq<char>, value: Seq<char>)
    requires
        crate::lines::no_newline(name),
        crate::lines::no_newline(value),
    ensures
        crate::lines::plain_line(export_line(name, value)),
        export_line(name, value) != start_marker(),
        export_line(name, value) != end_marker(),
{
    reveal_strlit("export ");
    reveal_strlit("=\"");
    reveal_strlit("\"");
    reveal_strlit("# >>> starail proxy >>>");
    reveal_strlit("# <<< starail proxy <<<");
    let p1 = "export "@;
    let p2 = "=\""@;
    let p3 = "\""@;
    assert(crate::lines::no_newline(p1));
    assert(crate::lines::no_newline(p2));
    assert(crate::lines::no_newline(p3));
    lemma_no_newline_concat(p1, name);
    lemma_no_newline_concat(p1 + name, p2);
    lemma_no_newline_concat(p1 + name + p2, value);
    lemma_no_newline_concat(p1 + name + p2 + value, p3);
    let l = export_line(name, value);
    assert(l.last() == '"');
    assert(l[0] == 'e');
    assert(start_marker()[0] == '#');
    assert(end_marker()[0] == '#');
}

proof fn lemma_block_lines(port: u16)
    ensures
        block_lines(port).len() == 10,
        block_lines(port)[0] == start_marker(),
        block_lines(port).last() == end_marker(),
        no_markers(block_lines(port).drop_first().drop_last()),
        all_plain(block_lines(port)),
{
    reveal_strlit("http://127.0.0.1:");
    reveal_strlit("localhost,127.0.0.1,::1");
    reveal_strlit("http_proxy");
    reveal_strlit("https_proxy");
    reveal_strlit("all_proxy");
    reveal_strlit("HTTP_PROXY");
    reveal_strlit("HTTPS_PROXY");
    reveal_strlit("ALL_PROXY");
    reveal_strlit("no_proxy");
    reveal_strlit("NO_PROXY");
    lemma_decimal_plain(port as nat);
    let d = decimal(port as nat);
    assert(crate::lines::no_newline(d));
    assert(crate::lines::no_newline("http://127.0.0.1:"@));
    lemma_no_newline_concat("http://127.0.0.1:"@, d);
    let p = proxy_url(port);
    let n = no_proxy_value();
    assert(crate::lines::no_newline(n));
    lemma_export_line("http_proxy"@, p);
    lemma_export_line("https_proxy"@, p);
    lemma_export_line("all_proxy"@, p);
    lemma_export_line("HTTP_PROXY"@, p);
    lemma_export_line("HTTPS_PROXY"@, p);
    lemma_export_line("ALL_PROXY"@, p);
    lemma_export_line("no_proxy"@, n);
    lemma_export_line("NO_PROXY"@, n);
    lemma_literal_lines();
    let bl = block_lines(port);
    let mid = bl.drop_first().drop_last();
    assert forall|i: int| 0 <= i < mid.len() implies #[trigger] mid[i] != start_marker() && mid[i]
        != end_marker() by {
        assert(mid[i] == bl[i + 1]);
    }
}

proof fn lemma_block_text_lines(port: u16)
    ensures
        lines(block_text(port)) == block_lines(port),
        kept_lines(block_lines(port), false) == Seq::<Seq<char>>::empty(),
        block_text(port).len() > 0 && block_text(port).last() == '\n',
{
    reveal_strlit("\n");
    lemma_block_lines(port);
    crate::lines::lemma_lines_join(block_lines(port));
    let bl = block_lines(port);
    assert(bl.drop_first().drop_last() == bl.drop_first().drop_last());
    lemma_kept_skipped(bl.drop_first());
    assert(bl.drop_first().drop_last() =~= bl.drop_first().drop_last());
}

/// Switching the shell proxy on always leaves the block in `~/.bashrc`.
pub proof fn lemma_with_block_present(text: Seq<char>, port: u16)
    ensures
        block_present(with_block(text, port)),
{
    lemma_block_text_lines(port);
    lemma_without_block_shape(text);
    let rest = without_block(text);
    crate::lines::lemma_lines_append(rest, block_text(port));
    let all = lines(rest) + block_lines(port);
    lemma_block_lines(port);
    assert(all[lines(rest).len() as int] == start_marker());
}

proof fn lemma_without_block_shape(text: Seq<char>)
    ensures
        without_block(text).len() == 0 || without_block(text).last() == '\n',
{
    reveal_strlit("\n");
}

/// The lines of the text with the blocks removed, when no kept line ends
/// with a carriage return.
proof fn lemma_lines_of_without_block(text: Seq<char>)
    requires
        all_plain(kept_lines(lines(text), false)),
    ensures
        lines(without_block(text)) == kept_lines(lines(text), false) || (lines(without_block(text))
            == Seq::<Seq<char>>::empty() && without_block(text).len() == 0),
{
    reveal_strlit("\n");
    let k = kept_lines(lines(text), false);
    if join(k, "\n"@).len() == 0 {
        assert(without_block(text).len() == 0);
        assert(lines(without_block(text)) =~= Seq::<Seq<char>>::empty());
    } else {
        assert(k.len() >= 1);
        crate::lines::lemma_lines_join(k);
    }
}

/// Switching the shell proxy on and then off gives back what switching it off
/// alone gives: nothing but the block changes, provided no kept line ends with
/// a carriage return (such a line loses it when the text is rewritten).
pub proof fn lemma_block_round_trip(text: Seq<char>, port: u16)
    requires
        all_plain(kept_lines(lines(text), false)),
    ensures
        without_block(with_block(text, port)) == without_block(text),
{
    reveal_strlit("\n");
    let rest = without_block(text);
    let k = kept_lines(lines(text), false);
    lemma_without_block_shape(text);
    lemma_block_text_lines(port);
    crate::lines::lemma_lines_append(rest, block_text(port));
    lemma_lines_of_without_block(text);
    lemma_kept_subset(lines(text), false);
    let lr = lines(rest);
    assert(no_markers(lr));
    lemma_kept_append(lr, block_lines(port));
    assert(kept_lines(lr + block_lines(port), false) =~= lr);
    if lr == k {
    } else {
        assert(rest.len() == 0);
        assert(lr =~= Seq::<Seq<char>>::empty());
        assert(join(lr, "\n"@) =~= Seq::<char>::empty());
    }
}

/// Once the blocks are removed, no start marker is left, provided no kept
/// line ends with a carriage return.
pub proof fn lemma_without_block_absent(text: Seq<char>)
    requires
        all_plain(kept_lines(lines(text), false)),
    ensures
        !block_present(without_block(text)),
{
    lemma_lines_of_without_block(text);
    lemma_kept_subset(lines(text), false);
    let lr = lines(without_block(text));
    assert forall|i: int| 0 <= i < lr.len() implies lr[i] != start_marker() by {}
}

/// Removing the blocks a second time changes nothing, provided no kept line
/// ends with a carriage return (such a line loses it when the text is
/// rewritten).
pub proof fn lemma_block_removal_idempotent(text: Seq<char>)
    requires
        all_plain(kept_lines(lines(text), false)),
    ensures
        without_block(without_block(text)) == without_block(text),
{
    reveal_strlit("\n");
    let k = kept_lines(lines(text), false);
    let r = without_block(text);
    lemma_lines_of_without_block(text);
    lemma_kept_subset(lines(text), false);
    if lines(r) == k {
        lemma_kept_append(k, Seq::<Seq<char>>::empty());
        assert(k + Seq::<Seq<char>>::empty() =~= k);
        assert(kept_lines(Seq::<Seq<char>>::empty(), false) =~= Seq::<Seq<char>>::empty());
        assert(kept_lines(lines(r), false) == k);
    } else {
        assert(lines(r) =~= Seq::<Seq<char>>::empty());
        assert(kept_lines(lines(r), false) =~= Seq::<Seq<char>>::empty());
        assert(join(Seq::<Seq<char>>::empty(), "\n"@) =~= Seq::<char>::empty());
    }
}

/// The block exports every proxy variable, `http_proxy`, `https_proxy`,
/// `all_proxy`, `HTTP_PROXY`, `HTTPS_PROXY` and `ALL_PROXY`, as
/// `http://127.0.0.1:<port>`: for each of these names the block holds the line
/// `export NAME="http://127.0.0.1:<port>"`, and so does `~/.bashrc` once the
/// shell proxy is switched on.
pub proof fn lemma_block_exports_every_proxy_variable(text: Seq<char>, port: u16, name: Seq<char>)
    requires
        name == "http_proxy"@ || name == "https_proxy"@ || name == "all_proxy"@ || name
            == "HTTP_PROXY"@ || name == "HTTPS_PROXY"@ || name == "ALL_PROXY"@,
    ensures
        block_lines(port).contains(
            "export "@ + name + "=\"http://127.0.0.1:"@ + decimal(port as nat) + "\""@,
        ),
        lines(with_block(text, port)).contains(
            "export "@ + name + "=\"http://127.0.0.1:"@ + decimal(port as nat) + "\""@,
        ),
{
    reveal_strlit("=\"");
    reveal_strlit("=\"http://127.0.0.1:");
    reveal_strlit("http://127.0.0.1:");
    let line = "export "@ + name + "=\"http://127.0.0.1:"@ + decimal(port as nat) + "\""@;
    assert(line =~= export_line(name, proxy_url(port)));
    let bl = block_lines(port);
    let i: int = if name == "http_proxy"@ {
        1
    } else if name == "https_proxy"@ {
        2
    } else if name == "all_proxy"@ {
        3
    } else if name == "HTTP_PROXY"@ {
        4
    } else if name == "HTTPS_PROXY"@ {
        5
    } else {
        6
    };
    assert(bl[i] == line);
    lemma_block_text_lines(port);
    lemma_without_block_shape(text);
    let rest = without_block(text);
    assert(with_block(text, port) == rest + block_text(port));
    crate::lines::lemma_lines_append(rest, block_text(port));
    let all = lines(rest) + bl;
    assert(all[lines(rest).len() + i] == line);
}

} // verus!
