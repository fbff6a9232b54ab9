//! The page that follows a `starail` command run from the interface: what it
//! shows while the command runs, and the output once it is done.
use vstd::prelude::*;
use vstd::string::StringExecFns;
use crate::i18n::{message_text, Language, Message};
use crate::lines::{join, join_with, lines, split_lines, views};
use crate::number::{decimal, decimal_string};
use crate::text::{concat2, concat3, concat4, concat5, is_blank, owned, text_eq, trim};
use crate::tui::pages::OutputPage;

verus! {

/// The last `n` items of a sequence.
pub open spec fn last_n<T>(s: Seq<T>, n: nat) -> Seq<T> {
    if s.len() > n {
        s.skip(s.len() - n)
    } else {
        s
    }
}

/// Hints shown while a command runs that may take long: fetching a
/// subscription, or downloading the core.
pub open spec fn hints_for(args: Seq<Seq<char>>, language: Language) -> Seq<Seq<char>> {
    if args.len() >= 2 && args[0] == "subscribe"@ && args[1] == "add"@ {
        seq![
            message_text(language, Message::SubscriptionRunHintFetch),
            message_text(language, Message::SubscriptionRunHintTimeout),
        ]
    } else if args.len() >= 2 && args[0] == "core"@ && args[1] == "install"@ {
        seq![message_text(language, Message::CoreInstallRunHint)]
    } else {
        Seq::empty()
    }
}

/// Hints shown while the command with these arguments runs.
pub fn running_hint(args: &Vec<String>, language: Language) -> (r: Vec<String>)
    ensures
        views(r@) == hints_for(views(args@), language),
{
    let mut r: Vec<String> = Vec::new();
    if args.len() >= 2 && text_eq(args[0].as_str(), "subscribe") && text_eq(args[1].as_str(), "add") {
        r.push(owned(language.tr(Message::SubscriptionRunHintFetch)));
        r.push(owned(language.tr(Message::SubscriptionRunHintTimeout)));
        assert(views(r@) =~= seq![r@[0]@, r@[1]@]);
    } else if args.len() >= 2 && text_eq(args[0].as_str(), "core") && text_eq(
        args[1].as_str(),
        "install",
    ) {
        r.push(owned(language.tr(Message::CoreInstallRunHint)));
        assert(views(r@) =~= seq![r@[0]@]);
    } else {
        assert(views(r@) =~= Seq::<Seq<char>>::empty());
    }
    r
}

fn push_all(target: &mut Vec<String>, more: Vec<String>)
    ensures
        views(final(target)@) == views(old(target)@) + views(more@),
{
    let mut i: usize = 0;
    while i < more.len()
        invariant
            i <= more@.len(),
            views(target@) == views(old(target)@) + views(more@).take(i as int),
        decreases more@.len() - i,
    {
        let ghost before = target@;
        target.push(more[i].clone());
        assert(views(target@) =~= views(before).push(more@[i as int]@));
        assert(views(more@).take(i + 1) == views(more@).take(i as int).push(more@[i as int]@));
        assert(views(target@) =~= views(old(target)@) + views(more@).take(i + 1));
        i += 1;
    }
    assert(views(more@).take(more@.len() as int) == views(more@));
}

fn push_line(target: &mut Vec<String>, line: String)
    ensures
        views(final(target)@) == views(old(target)@).push(line@),
{
    target.push(line);
    assert(views(target@) =~= views(old(target)@).push(line@));
}

/// The lines shown while a command runs: the command, the time it has
/// taken, that it still runs, how to cancel it, hints, and its latest
/// output when there is any.
pub open spec fn running_lines(
    args: Seq<Seq<char>>,
    elapsed_secs: nat,
    preview: Seq<Seq<char>>,
    language: Language,
) -> Seq<Seq<char>> {
    let t = |m: Message| message_text(language, m);
    seq![
        t(Message::CommandLabel) + " starail "@ + join(args, " "@),
        t(Message::ElapsedLabel) + " "@ + decimal(elapsed_secs) + "s"@,
        t(Message::StatusLabel) + " "@ + t(Message::StillRunning),
        t(Message::PressCtrlCCancelCommand),
    ] + hints_for(args, language) + if preview.len() > 0 {
        seq![Seq::empty(), t(Message::RecentOutput)] + preview
    } else {
        Seq::empty()
    }
}

impl OutputPage {
    /// The page while a command runs.
    pub fn running(
        title: &str,
        args: &Vec<String>,
        elapsed_secs: u64,
        preview: Vec<String>,
        language: Language,
    ) -> (r: OutputPage)
        ensures
            r.title@ == title@,
            views(r.lines@) == running_lines(
                views(args@),
                elapsed_secs as nat,
                views(preview@),
                language,
            ),
            r.scroll == 0,
            r.success is None,
            r.message@ == message_text(language, Message::CommandRunning),
    {
        let mut lines: Vec<String> = Vec::new();
        let joined = join_with(args, " ");
        push_line(
            &mut lines,
            concat3(language.tr(Message::CommandLabel), " starail ", joined.as_str()),
        );
        push_line(
            &mut lines,
            concat4(
                language.tr(Message::ElapsedLabel),
                " ",
                decimal_string(elapsed_secs).as_str(),
                "s",
            ),
        );
        push_line(
            &mut lines,
            concat3(language.tr(Message::StatusLabel), " ", language.tr(Message::StillRunning)),
        );
        push_line(&mut lines, owned(language.tr(Message::PressCtrlCCancelCommand)));
        let ghost head = views(lines@);
        push_all(&mut lines, running_hint(args, language));
        if preview.len() > 0 {
            push_line(&mut lines, String::new());
            push_line(&mut lines, owned(language.tr(Message::RecentOutput)));
            push_all(&mut lines, preview);
        }
        proof {
            reveal_strlit("");
        }
        OutputPage {
            title: owned(title),
            lines,
            scroll: 0,
            success: None,
            message: owned(language.tr(Message::CommandRunning)),
        }
    }
}

/// How a command run from the interface ended: it finished (with whether it
/// succeeded, its exit status as text, and its output), or it could not run
/// or was cancelled.
#[derive(Debug)]
pub enum CommandOutcome {
    Finished { success: bool, status: String, stdout: String, stderr: String },
    Failed { interrupted: bool, error: String },
}

/// The lines of a finished command's output: for a failure the command and
/// its status, then a blank line; the standard output unless blank; the
/// error output unless blank, under `stderr:` and after a blank line when
/// something comes before it.
pub open spec fn output_lines(
    args: Seq<Seq<char>>,
    success: bool,
    status: Seq<char>,
    stdout: Seq<char>,
    stderr: Seq<char>,
    language: Language,
) -> Seq<Seq<char>> {
    let head: Seq<Seq<char>> = if !success {
        seq![
            message_text(language, Message::CommandFailedLine) + " starail "@ + join(args, " "@)
                + " ("@ + status + ")"@,
            Seq::empty(),
        ]
    } else {
        Seq::empty()
    };
    let with_out = if trim(stdout).len() != 0 {
        head + lines(stdout)
    } else {
        head
    };
    if trim(stderr).len() != 0 {
        (if with_out.len() > 0 {
            with_out.push(Seq::empty())
        } else {
            with_out
        }) + seq!["stderr:"@] + lines(stderr)
    } else {
        with_out
    }
}

/// The lines of a finished command's output.
pub fn command_output_lines(
    args: &Vec<String>,
    success: bool,
    status: &str,
    stdout: &str,
    stderr: &str,
    language: Language,
) -> (r: Vec<String>)
    ensures
        views(r@) == output_lines(views(args@), success, status@, stdout@, stderr@, language),
{
    proof {
        reveal_strlit("");
    }
    let mut lines: Vec<String> = Vec::new();
    if !success {
        let joined = join_with(args, " ");
        push_line(
            &mut lines,
            concat5(
                language.tr(Message::CommandFailedLine),
                " starail ",
                joined.as_str(),
                " (",
                status,
            ).concat(")"),
        );
        push_line(&mut lines, String::new());
    } else {
        assert(views(lines@) =~= Seq::<Seq<char>>::empty());
    }
    if !is_blank(stdout) {
        push_all(&mut lines, split_lines(stdout));
    }
    if !is_blank(stderr) {
        if lines.len() > 0 {
            push_line(&mut lines, String::new());
        }
        push_line(&mut lines, owned("stderr:"));
        push_all(&mut lines, split_lines(stderr));
    }
    lines
}

impl OutputPage {
    /// The page once a command is done.
    pub fn from_command(
        title: String,
        args: &Vec<String>,
        outcome: CommandOutcome,
        language: Language,
    ) -> (r: OutputPage)
        ensures
            r.title == title,
            r.scroll == 0,
            match outcome {
                CommandOutcome::Finished { success, status, stdout, stderr } => {
                    let out = output_lines(
                        views(args@),
                        success,
                        status@,
                        stdout@,
                        stderr@,
                        language,
                    );
                    &&& views(r.lines@) == if out.len() > 0 {
                        out
                    } else {
                        seq![message_text(language, Message::CommandCompletedNoOutput)]
                    }
                    &&& r.success == Some(success)
                    &&& r.message@ == message_text(
                        language,
                        if success {
                            Message::CommandCompleted
                        } else {
                            Message::CommandFailed
                        },
                    )
                },
                CommandOutcome::Failed { interrupted, error } => {
                    &&& views(r.lines@) == seq![
                        if interrupted {
                            message_text(language, Message::CommandCanceledByUser)
                        } else {
                            message_text(language, Message::FailedRunStarail) + ": "@ + error@
                        },
                    ]
                    &&& r.success == Some(false)
                    &&& r.message@ == message_text(language, Message::CommandFailed)
                },
            },
    {
        match outcome {
            CommandOutcome::Finished { success, status, stdout, stderr } => {
                let mut lines = command_output_lines(
                    args,
                    success,
                    status.as_str(),
                    stdout.as_str(),
                    stderr.as_str(),
                    language,
                );
                if lines.len() == 0 {
                    push_line(&mut lines, owned(language.tr(Message::CommandCompletedNoOutput)));
                    assert(views(lines@) =~= seq![
                        message_text(language, Message::CommandCompletedNoOutput),
                    ]);
                }
                let message = if success {
                    owned(language.tr(Message::CommandCompleted))
                } else {
                    owned(language.tr(Message::CommandFailed))
                };
                OutputPage { title, lines, scroll: 0, success: Some(success), message }
            },
            CommandOutcome::Failed { interrupted, error } => {
                let line = if interrupted {
                    owned(language.tr(Message::CommandCanceledByUser))
                } else {
                    concat3(language.tr(Message::FailedRunStarail), ": ", error.as_str())
                };
                let mut lines: Vec<String> = Vec::new();
                push_line(&mut lines, line);
                assert(views(lines@) =~= seq![views(lines@)[0]]);
                OutputPage {
                    title,
                    lines,
                    scroll: 0,
                    success: Some(false),
                    message: owned(language.tr(Message::CommandFailed)),
                }
            },
        }
    }
}

/// The preview of one output stream: its label, then its last five lines;
/// nothing when the stream could not be read or is blank.
pub open spec fn stream_preview(label: Seq<char>, text: Option<Seq<char>>) -> Seq<Seq<char>> {
    match text {
        Some(t) => if trim(t).len() != 0 {
            seq![label + ":"@] + last_n(lines(t), 5)
        } else {
            Seq::empty()
        },
        None => Seq::empty(),
    }
}

fn append_preview_lines(label: &str, text: Option<&str>, lines: &mut Vec<String>)
    ensures
        views(final(lines)@) == views(old(lines)@) + stream_preview(
            label@,
            match text {
                Some(t) => Some(t@),
                None => None,
            },
        ),
{
    match text {
        Some(t) => {
            if is_blank(t) {
                assert(views(lines@) + Seq::<Seq<char>>::empty() =~= views(lines@));
                return;
            }
            push_line(lines, concat2(label, ":"));
            let all = split_lines(t);
            let start = if all.len() > 5 {
                all.len() - 5
            } else {
                0
            };
            let mut tail: Vec<String> = Vec::new();
            let mut i = start;
            while i < all.len()
                invariant
                    start <= i <= all@.len(),
                    views(tail@) == views(all@).subrange(start as int, i as int),
                decreases all@.len() - i,
            {
                push_line(&mut tail, all[i].clone());
                assert(views(all@).subrange(start as int, i + 1) == views(all@).subrange(
                    start as int,
                    i as int,
                ).push(all@[i as int]@));
                i += 1;
            }
            assert(views(all@).subrange(start as int, all@.len() as int) == last_n(
                views(all@),
                5,
            ));
            let ghost before = views(lines@);
            push_all(lines, tail);
            assert(views(lines@) =~= views(old(lines)@) + stream_preview(label@, Some(t@)));
        },
        None => {
            assert(views(lines@) + Seq::<Seq<char>>::empty() =~= views(lines@));
        },
    }
}

/// The latest output of a running command: the previews of its standard
/// and error output, at most ten lines in all, the latest kept.
pub fn command_preview(stdout: Option<&str>, stderr: Option<&str>) -> (r: Vec<String>)
    ensures
        views(r@) == last_n(
            stream_preview(
                "stdout"@,
                match stdout {
                    Some(t) => Some(t@),
                    None => None,
                },
            ) + stream_preview(
                "stderr"@,
                match stderr {
                    Some(t) => Some(t@),
                    None => None,
                },
            ),
            10,
        ),
{
    let mut lines: Vec<String> = Vec::new();
    assert(views(lines@) =~= Seq::<Seq<char>>::empty());
    append_preview_lines("stdout", stdout, &mut lines);
    append_preview_lines("stderr", stderr, &mut lines);
    if lines.len() > 10 {
        let keep = lines.split_off(lines.len() - 10);
        assert(views(keep@) =~= views(lines@ + keep@).skip(lines@.len() as int));
        return keep;
    }
    lines
}

} // verus!
