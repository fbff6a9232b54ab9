//! Testing the latency of a group's nodes from the interface: the nodes are
//! tested at once, results come back one by one in any order, and the test
//! can be cancelled.
use vstd::prelude::*;
use vstd::string::StringExecFns;
use crate::i18n::{message_text, Language, Message};
use crate::number::{decimal, decimal_string};
use crate::text::{concat2, concat3, concat4, concat5, owned};
use crate::tui::pages::{NodeTestStatus, ProxyGroupPage};
use crate::tui::state::{KeyCode, KeyInput};

verus! {

/// The message when a test starts.
pub open spec fn start_text(language: Language, total: nat, url: Seq<char>, timeout: nat) -> Seq<
    char,
> {
    match language {
        Language::English => "Testing "@ + decimal(total) + " nodes concurrently with "@ + url
            + " timeout="@ + decimal(timeout) + "ms. Press Esc or Ctrl-C to cancel."@,
        Language::SimplifiedChinese => "正在并发测试 "@ + decimal(total) + " 个节点，测试地址 "@ + url
            + "，超时 "@ + decimal(timeout) + "ms。按 Esc 或 Ctrl-C 取消。"@,
    }
}

/// The message when a test starts.
pub fn proxy_test_start_message(language: Language, total: usize, test_url: &str, timeout: u64) -> (r:
    String)
    ensures
        r@ == start_text(language, total as nat, test_url@, timeout as nat),
{
    let t = decimal_string(total as u64);
    let ms = decimal_string(timeout);
    match language {
        Language::English => concat5("Testing ", t.as_str(), " nodes concurrently with ", test_url, " timeout=")
            .concat(ms.as_str()).concat("ms. Press Esc or Ctrl-C to cancel."),
        Language::SimplifiedChinese => concat5("正在并发测试 ", t.as_str(), " 个节点，测试地址 ", test_url, "，超时 ")
            .concat(ms.as_str()).concat("ms。按 Esc 或 Ctrl-C 取消。"),
    }
}

/// The message while results come in.
pub open spec fn progress_text(language: Language, finished: nat, total: nat, ok: nat) -> Seq<char> {
    match language {
        Language::English => "Testing nodes... "@ + decimal(finished) + "/"@ + decimal(total)
            + " finished, "@ + decimal(ok) + " ok."@,
        Language::SimplifiedChinese => "正在测试节点... 已完成 "@ + decimal(finished) + "/"@ + decimal(
            total,
        ) + "，成功 "@ + decimal(ok) + "。"@,
    }
}

/// The message while results come in.
pub fn proxy_test_progress_message(language: Language, finished: usize, total: usize, ok: usize) -> (r:
    String)
    ensures
        r@ == progress_text(language, finished as nat, total as nat, ok as nat),
{
    let f = decimal_string(finished as u64);
    let t = decimal_string(total as u64);
    let o = decimal_string(ok as u64);
    match language {
        Language::English => concat5("Testing nodes... ", f.as_str(), "/", t.as_str(), " finished, ")
            .concat(o.as_str()).concat(" ok."),
        Language::SimplifiedChinese => concat5("正在测试节点... 已完成 ", f.as_str(), "/", t.as_str(), "，成功 ")
            .concat(o.as_str()).concat("。"),
    }
}

/// The message when a test is cancelled.
pub open spec fn cancelled_text(language: Language) -> Seq<char> {
    match language {
        Language::English => "Test cancelled; in-flight node checks may finish in background."@,
        Language::SimplifiedChinese => "测试已取消；正在进行的节点检查可能会在后台完成。"@,
    }
}

/// The message when a test is cancelled.
pub fn proxy_test_cancelled_message(language: Language) -> (r: String)
    ensures
        r@ == cancelled_text(language),
{
    match language {
        Language::English => owned("Test cancelled; in-flight node checks may finish in background."),
        Language::SimplifiedChinese => owned("测试已取消；正在进行的节点检查可能会在后台完成。"),
    }
}

/// The message when every result is in.
pub open spec fn finished_text(language: Language, finished: nat, total: nat, ok: nat) -> Seq<char> {
    match language {
        Language::English => if ok == 0 {
            "Finished testing "@ + decimal(finished) + "/"@ + decimal(total) + " nodes; all failed."@
        } else {
            "Finished testing "@ + decimal(finished) + "/"@ + decimal(total) + " nodes; "@ + decimal(
                ok,
            ) + " ok."@
        },
        Language::SimplifiedChinese => if ok == 0 {
            "测试完成 "@ + decimal(finished) + "/"@ + decimal(total) + "；全部失败。"@
        } else {
            "测试完成 "@ + decimal(finished) + "/"@ + decimal(total) + "；成功 "@ + decimal(ok) + "。"@
        },
    }
}

/// The message when every result is in.
pub fn proxy_test_finished_message(language: Language, finished: usize, total: usize, ok: usize) -> (r:
    String)
    ensures
        r@ == finished_text(language, finished as nat, total as nat, ok as nat),
{
    let f = decimal_string(finished as u64);
    let t = decimal_string(total as u64);
    match language {
        Language::English => if ok == 0 {
            concat5("Finished testing ", f.as_str(), "/", t.as_str(), " nodes; all failed.")
        } else {
            concat5("Finished testing ", f.as_str(), "/", t.as_str(), " nodes; ").concat(
                decimal_string(ok as u64).as_str(),
            ).concat(" ok.")
        },
        Language::SimplifiedChinese => if ok == 0 {
            concat5("测试完成 ", f.as_str(), "/", t.as_str(), "；全部失败。")
        } else {
            concat5("测试完成 ", f.as_str(), "/", t.as_str(), "；成功 ").concat(
                decimal_string(ok as u64).as_str(),
            ).concat("。")
        },
    }
}

/// The keys that cancel a test: Control-C, `Esc`, `q` and Backspace.
pub open spec fn cancels_test(key: KeyInput) -> bool {
    (key.ctrl && key.code == KeyCode::Char('c')) || key.code == KeyCode::Esc || key.code
        == KeyCode::Char('q') || key.code == KeyCode::Backspace
}

/// Whether a key cancels a test.
pub fn is_proxy_test_cancel_key(key: KeyInput) -> (r: bool)
    ensures
        r == cancels_test(key),
{
    (key.ctrl && key.code == KeyCode::Char('c')) || key.code == KeyCode::Esc || key.code
        == KeyCode::Char('q') || key.code == KeyCode::Backspace
}

/// How far a test has come: how many nodes it tests, how many results came
/// back, and how many of them succeeded.
#[derive(Clone, Copy, Debug, PartialEq, Eq, Structural)]
pub struct TestProgress {
    pub total: usize,
    pub finished: usize,
    pub ok: usize,
}

impl TestProgress {
    /// No more successes than results, no more results than nodes.
    pub open spec fn wf(self) -> bool {
        self.ok <= self.finished <= self.total
    }

    /// Whether results are still awaited.
    pub fn awaiting(&self) -> (r: bool)
        ensures
            r == (self.finished < self.total),
    {
        self.finished < self.total
    }
}

/// Every node of the group under test.
fn testing_results(n: usize) -> (r: Vec<NodeTestStatus>)
    ensures
        r@.len() == n,
        forall|i: int| 0 <= i < n ==> (#[trigger] r@[i]) is Testing,
{
    let mut r = Vec::new();
    let mut i: usize = 0;
    while i < n
        invariant
            i <= n,
            r@.len() == i,
            forall|j: int| 0 <= j < i ==> (#[trigger] r@[j]) is Testing,
        decreases n - i,
    {
        r.push(NodeTestStatus::Testing);
        i += 1;
    }
    r
}

/// Starts a test of the group's nodes with the given address and timeout:
/// every node is under test and the message says so. A group without nodes
/// is not tested: its message says so, and `None` comes back.
pub fn begin_test(page: &mut ProxyGroupPage, language: Language, test_url: &str, timeout: u64) -> (r:
    Option<TestProgress>)
    ensures
        final(page).group == old(page).group,
        final(page).selected == old(page).selected,
        final(page).back_items@ == old(page).back_items@,
        final(page).back_selected == old(page).back_selected,
        old(page).group.children@.len() == 0 ==> r is None && final(page).message@ == message_text(
            language,
            Message::GroupNoNodesTest,
        ) && final(page).node_results@ == old(page).node_results@,
        old(page).group.children@.len() > 0 ==> ({
            &&& r == Some(
                TestProgress { total: old(page).group.children@.len() as usize, finished: 0, ok: 0 },
            )
            &&& final(page).node_results@.len() == old(page).group.children@.len()
            &&& forall|i: int|
                0 <= i < final(page).node_results@.len() ==> (#[trigger] final(page).node_results@[i]) is Testing
            &&& final(page).message@ == start_text(
                language,
                old(page).group.children@.len(),
                test_url@,
                timeout as nat,
            )
        }),
{
    let total = page.group.children.len();
    if total == 0 {
        page.message = owned(language.tr(Message::GroupNoNodesTest));
        return None;
    }
    page.node_results = testing_results(total);
    page.message = proxy_test_start_message(language, total, test_url, timeout);
    Some(TestProgress { total, finished: 0, ok: 0 })
}

/// Takes in one node's result: its delay text, or `None` when its test
/// failed. The node's status shows the result and the message the progress.
pub fn record_result(
    page: &mut ProxyGroupPage,
    progress: &mut TestProgress,
    index: usize,
    delay: Option<String>,
    language: Language,
)
    requires
        old(progress).wf(),
        old(progress).finished < old(progress).total,
    ensures
        final(progress).wf(),
        final(progress).total == old(progress).total,
        final(progress).finished == old(progress).finished + 1,
        final(progress).ok == old(progress).ok + if delay is Some {
            1int
        } else {
            0int
        },
        final(page).group == old(page).group,
        final(page).selected == old(page).selected,
        final(page).back_items@ == old(page).back_items@,
        final(page).back_selected == old(page).back_selected,
        final(page).node_results@.len() == old(page).node_results@.len(),
        forall|i: int|
            0 <= i < old(page).node_results@.len() && i != index ==> #[trigger] final(page).node_results@[i] == old(page).node_results@[i],
        index < old(page).node_results@.len() ==> final(page).node_results@[index as int] == match delay {
            Some(d) => NodeTestStatus::Measured(d),
            None => NodeTestStatus::Failed,
        },
        final(page).message@ == progress_text(
            language,
            final(progress).finished as nat,
            final(progress).total as nat,
            final(progress).ok as nat,
        ),
{
    progress.finished = progress.finished + 1;
    let status = match delay {
        Some(d) => {
            progress.ok = progress.ok + 1;
            NodeTestStatus::Measured(d)
        },
        None => NodeTestStatus::Failed,
    };
    if index < page.node_results.len() {
        page.node_results.set(index, status);
    }
    page.message = proxy_test_progress_message(
        language,
        progress.finished,
        progress.total,
        progress.ok,
    );
}

/// Nodes still under test go back to untested; other results stay.
pub fn clear_testing_statuses(page: &mut ProxyGroupPage)
    ensures
        final(page).group == old(page).group,
        final(page).selected == old(page).selected,
        final(page).back_items@ == old(page).back_items@,
        final(page).back_selected == old(page).back_selected,
        final(page).message == old(page).message,
        final(page).node_results@.len() == old(page).node_results@.len(),
        forall|i: int|
            0 <= i < old(page).node_results@.len() ==> #[trigger] final(page).node_results@[i] == if old(page).node_results@[i] is Testing {
                NodeTestStatus::Untested
            } else {
                old(page).node_results@[i]
            },
{
    let mut i: usize = 0;
    while i < page.node_results.len()
        invariant
            i <= page.node_results@.len(),
            page.node_results@.len() == old(page).node_results@.len(),
            page.group == old(page).group,
            page.selected == old(page).selected,
            page.back_items@ == old(page).back_items@,
            page.back_selected == old(page).back_selected,
            page.message == old(page).message,
            forall|j: int|
                0 <= j < i ==> #[trigger] page.node_results@[j] == if old(page).node_results@[j] is Testing {
                    NodeTestStatus::Untested
                } else {
                    old(page).node_results@[j]
                },
            forall|j: int|
                i <= j < page.node_results@.len() ==> #[trigger] page.node_results@[j] == old(page).node_results@[j],
        decreases page.node_results@.len() - i,
    {
        if page.node_results[i].is_testing() {
            page.node_results.set(i, NodeTestStatus::Untested);
        }
        i += 1;
    }
}

/// Cancels a test: nodes still under test go back to untested, results
/// already in stay, and the message says so.
pub fn cancel_test(page: &mut ProxyGroupPage, language: Language)
    ensures
        final(page).group == old(page).group,
        final(page).selected == old(page).selected,
        final(page).back_items@ == old(page).back_items@,
        final(page).back_selected == old(page).back_selected,
        final(page).node_results@.len() == old(page).node_results@.len(),
        forall|i: int|
            0 <= i < old(page).node_results@.len() ==> #[trigger] final(page).node_results@[i] == if old(page).node_results@[i] is Testing {
                NodeTestStatus::Untested
            } else {
                old(page).node_results@[i]
            },
        final(page).message@ == cancelled_text(language),
{
    clear_testing_statuses(page);
    page.message = proxy_test_cancelled_message(language);
}

/// Ends a test once the results are in: nodes still under test go back to
/// untested, results already in stay, and the message gives the count of
/// results and of successes.
pub fn finish_test(page: &mut ProxyGroupPage, progress: &TestProgress, language: Language)
    ensures
        final(page).group == old(page).group,
        final(page).selected == old(page).selected,
        final(page).back_items@ == old(page).back_items@,
        final(page).back_selected == old(page).back_selected,
        final(page).node_results@.len() == old(page).node_results@.len(),
        forall|i: int|
            0 <= i < old(page).node_results@.len() ==> #[trigger] final(page).node_results@[i] == if old(page).node_results@[i] is Testing {
                NodeTestStatus::Untested
            } else {
                old(page).node_results@[i]
            },
        final(page).message@ == finished_text(
            language,
            progress.finished as nat,
            progress.total as nat,
            progress.ok as nat,
        ),
{
    clear_testing_statuses(page);
    page.message = proxy_test_finished_message(
        language,
        progress.finished,
        progress.total,
        progress.ok,
    );
}

} // verus!
