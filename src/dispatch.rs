//! The command dispatcher: what the application prints for the parsed
//! command line before the window opens.
//!
//! The dispatcher only computes console lines. It is handed no store, so
//! no dispatch reads, inserts or changes a task.

use vstd::prelude::*;
use crate::cli::{ArgMap, Matches, SubcommandMatches};

verus! {

/// The text of each string of `v`.
pub open spec fn texts(v: Seq<String>) -> Seq<Seq<char>> {
    v.map_values(|s: String| s@)
}

/// Whether `x` occurs in `line` as a run of consecutive characters.
pub open spec fn contains_text(line: Seq<char>, x: Seq<char>) -> bool {
    exists|i: int|
        0 <= i && i + x.len() <= line.len() && #[trigger] line.subrange(i, i + x.len()) == x
}

/// The line that opens the handling of the `task` subcommand.
pub open spec fn task_header_line(name: Seq<char>) -> Seq<char> {
    "处理任务命令: "@ + name
}

/// The line printed for a task to add.
pub open spec fn add_line(text: Seq<char>) -> Seq<char> {
    "添加任务: "@ + text
}

/// The fixed line printed when the tasks are to be listed.
pub open spec fn list_line() -> Seq<char> {
    "列出所有任务"@
}

/// The line printed for a task to complete.
pub open spec fn complete_line(id: Seq<char>) -> Seq<char> {
    "完成任务: "@ + id
}

/// The line printed for a subcommand that the application does not know.
pub open spec fn unknown_subcommand_line(name: Seq<char>) -> Seq<char> {
    "Unknown subcommand: "@ + name
}

/// The line printed to standard error when the arguments do not parse.
pub open spec fn cli_error_line(error: Seq<char>) -> Seq<char> {
    "Error parsing CLI arguments: "@ + error
}

/// The lines for the `task` subcommand: a header, then one line for each of
/// `add`, `list` and `complete` that is present, each checked on its own.
pub open spec fn task_command_lines(name: Seq<char>, args: Map<Seq<char>, Seq<char>>) -> Seq<
    Seq<char>,
> {
    seq![task_header_line(name)] + (if args.contains_key("add"@) {
        seq![add_line(args["add"@])]
    } else {
        Seq::empty()
    }) + (if args.contains_key("list"@) {
        seq![list_line()]
    } else {
        Seq::empty()
    }) + (if args.contains_key("complete"@) {
        seq![complete_line(args["complete"@])]
    } else {
        Seq::empty()
    })
}

/// The lines for a whole command line: nothing without a subcommand, the
/// task lines for `task`, and the unknown-subcommand notice for any other.
pub open spec fn dispatch_lines(m: Matches) -> Seq<Seq<char>> {
    match m.subcommand {
        Some(sub) => if sub.name@ == "task"@ {
            task_command_lines(sub.name@, sub.matches.args@)
        } else {
            seq![unknown_subcommand_line(sub.name@)]
        },
        None => Seq::empty(),
    }
}

/// `prefix` followed by `s`.
fn prefixed(prefix: &str, s: &str) -> (r: String)
    ensures
        r@ == prefix@ + s@,
{
    let mut r = String::from_str(prefix);
    r.append(s);
    r
}

/// The lines printed for the `task` subcommand.
pub fn handle_task_command(subcommand: &SubcommandMatches) -> (r: Vec<String>)
    ensures
        texts(r@) == task_command_lines(subcommand.name@, subcommand.matches.args@),
{
    let args: &ArgMap = &subcommand.matches.args;
    let mut lines: Vec<String> = Vec::new();
    lines.push(prefixed("处理任务命令: ", subcommand.name.as_str()));
    if args.contains_key("add") {
        if let Some(task_text) = args.get("add") {
            lines.push(prefixed("添加任务: ", task_text.as_str()));
        }
    }
    if args.contains_key("list") {
        lines.push(String::from_str("列出所有任务"));
    }
    if args.contains_key("complete") {
        if let Some(task_id) = args.get("complete") {
            lines.push(prefixed("完成任务: ", task_id.as_str()));
        }
    }
    assert(texts(lines@) =~= task_command_lines(subcommand.name@, subcommand.matches.args@));
    lines
}

/// The lines printed for the parsed command line `matches`.
pub fn dispatch(matches: &Matches) -> (r: Vec<String>)
    ensures
        texts(r@) == dispatch_lines(*matches),
{
    match &matches.subcommand {
        Some(subcommand) => {
            let subcommand: &SubcommandMatches = &**subcommand;
            if subcommand.name == String::from_str("task") {
                handle_task_command(subcommand)
            } else {
                let mut lines: Vec<String> = Vec::new();
                lines.push(prefixed("Unknown subcommand: ", subcommand.name.as_str()));
                assert(texts(lines@) =~= dispatch_lines(*matches));
                lines
            }
        },
        None => {
            let lines: Vec<String> = Vec::new();
            assert(texts(lines@) =~= dispatch_lines(*matches));
            lines
        },
    }
}

/// The line printed to standard error when the command line does not parse,
/// given the parser's error message.
pub fn cli_error_message(error: &str) -> (r: String)
    ensures
        r@ == cli_error_line(error@),
{
    prefixed("Error parsing CLI arguments: ", error)
}

/// `x` occurs in `prefix + x`.
proof fn lemma_suffix_contained(prefix: Seq<char>, x: Seq<char>)
    ensures
        contains_text(prefix + x, x),
{
    let line = prefix + x;
    assert(line.subrange(prefix.len() as int, (prefix.len() + x.len()) as int) =~= x);
}

/// A subcommand other than `task` yields exactly one line: the notice that
/// names it as unknown.
pub proof fn lemma_unknown_subcommand_only_notice(m: Matches)
    requires
        m.subcommand is Some,
        m.subcommand->0.name@ != "task"@,
    ensures
        dispatch_lines(m) == seq![unknown_subcommand_line(m.subcommand->0.name@)],
{
}

/// With `task` and an `add` value, some printed line shows that value.
pub proof fn lemma_add_value_printed(m: Matches)
    requires
        m.subcommand is Some,
        m.subcommand->0.name@ == "task"@,
        m.subcommand->0.matches.args@.contains_key("add"@),
    ensures
        exists|i: int|
            0 <= i < dispatch_lines(m).len() && contains_text(
                #[trigger] dispatch_lines(m)[i],
                m.subcommand->0.matches.args@["add"@],
            ),
{
    let x = m.subcommand->0.matches.args@["add"@];
    lemma_suffix_contained("添加任务: "@, x);
    assert(dispatch_lines(m)[1] == add_line(x));
}

/// With `task` and a `complete` value, some printed line shows that value.
pub proof fn lemma_complete_value_printed(m: Matches)
    requires
        m.subcommand is Some,
        m.subcommand->0.name@ == "task"@,
        m.subcommand->0.matches.args@.contains_key("complete"@),
    ensures
        exists|i: int|
            0 <= i < dispatch_lines(m).len() && contains_text(
                #[trigger] dispatch_lines(m)[i],
                m.subcommand->0.matches.args@["complete"@],
            ),
{
    let y = m.subcommand->0.matches.args@["complete"@];
    lemma_suffix_contained("完成任务: "@, y);
    let last = dispatch_lines(m).len() - 1;
    assert(dispatch_lines(m)[last] == complete_line(y));
}

/// With `task` and `list`, the fixed listing line is printed.
pub proof fn lemma_list_prints_fixed_line(m: Matches)
    requires
        m.subcommand is Some,
        m.subcommand->0.name@ == "task"@,
        m.subcommand->0.matches.args@.contains_key("list"@),
    ensures
        exists|i: int| 0 <= i < dispatch_lines(m).len() && #[trigger] dispatch_lines(m)[i] == list_line(),
{
    let args = m.subcommand->0.matches.args@;
    let i: int = if args.contains_key("add"@) { 2 } else { 1 };
    assert(dispatch_lines(m)[i] == list_line());
}

/// Without a subcommand nothing is dispatched and nothing is printed.
pub proof fn lemma_no_subcommand_no_output(m: Matches)
    requires
        m.subcommand is None,
    ensures
        dispatch_lines(m) == Seq::<Seq<char>>::empty(),
{
}

} // verus!
