//! The decisions of one invocation: which operation a command asks for, and
//! which lines answer each outcome of it.
//!
//! An invocation goes: `parse_command`, then `decide`. An `Action::CheckFile`
//! is answered by the caller, who tests the path and hands the answer to
//! `file_checked`. An `Action::Store` is run by `perform`, whose `Reply` says
//! what to print and which server, if any, to launch.

use crate::command::{arg_views, lemma_selectors_distinct, parse_command, selects, Command};
use crate::message::{
    line, line_views, prefixed, suffixed, usage, usage_text, ADD_PROMPT, DELETED_PREFIX,
    DELETE_FAILED_PREFIX, DELETE_PROMPT, INVALID_OPTION, NOT_A_FILE_SUFFIX, NOT_FOUND_PREFIX,
    NO_OPTION, SAVED, SEARCH_PROMPT, STARTING_PREFIX, UPDATED_PREFIX, UPDATE_FAILED_PREFIX,
    UPDATE_PROMPT,
};
use crate::registry::{ConfigEntry, StoreOp};
use crate::store::{run_op, StoreError};
use vstd::prelude::*;

verus! {

/// What the caller does next.
#[derive(Debug)]
pub enum Action {
    /// Print these lines; the invocation is then over.
    Print(Vec<String>),
    /// Test whether `file` names an existing regular file (following
    /// symbolic links), then hand the answer to `file_checked`.
    CheckFile { file: String, name: String },
    /// Run this operation against the table with `perform`.
    Store(StoreOp),
}

/// The answer to a store operation.
#[derive(Debug)]
pub struct Reply {
    /// The lines to print, in order.
    pub lines: Vec<String>,
    /// The stored server path to launch, for a lookup that found a row.
    pub launch: Option<String>,
}

/// `a` prints exactly `lines` and touches nothing else.
pub open spec fn prints(a: Action, lines: Seq<Seq<char>>) -> bool {
    match a {
        Action::Print(v) => line_views(v@) == lines,
        _ => false,
    }
}

/// `a` is what the tool does for command `c`.
pub open spec fn decided(c: Command, a: Action) -> bool {
    match c {
        Command::NoOption => prints(a, seq![NO_OPTION@]),
        Command::Invalid => prints(a, seq![INVALID_OPTION@]),
        Command::Help => prints(a, usage_text()),
        Command::AddUsage => prints(a, seq![ADD_PROMPT@]),
        Command::UpdateUsage => prints(a, seq![UPDATE_PROMPT@]),
        Command::SearchUsage => prints(a, seq![SEARCH_PROMPT@]),
        Command::DeleteUsage => prints(a, seq![DELETE_PROMPT@]),
        Command::Add { file, name } => match a {
            Action::CheckFile { file: f, name: n } => f@ == file@ && n@ == name@,
            _ => false,
        },
        Command::Update { name, server } => match a {
            Action::Store(StoreOp::Update { name: n, server: s }) => n@ == name@ && s@ == server@,
            _ => false,
        },
        Command::Search { name } => match a {
            Action::Store(StoreOp::Lookup { name: n }) => n@ == name@,
            _ => false,
        },
        Command::Delete { name } => match a {
            Action::Store(StoreOp::Delete { name: n }) => n@ == name@,
            _ => false,
        },
    }
}

/// The store operation that `a` runs, if any.
pub open spec fn store_op(a: Action) -> Option<StoreOp> {
    match a {
        Action::Store(op) => Some(op),
        _ => None,
    }
}

fn print_one(text: String) -> (a: Action)
    ensures
        prints(a, seq![text@]),
{
    let v = vec![text];
    assert(line_views(v@) =~= seq![text@]);
    Action::Print(v)
}

/// What the tool does for command `c`.
pub fn decide(c: Command) -> (a: Action)
    ensures
        decided(c, a),
{
    match c {
        Command::NoOption => print_one(line(NO_OPTION)),
        Command::Invalid => print_one(line(INVALID_OPTION)),
        Command::Help => Action::Print(usage()),
        Command::AddUsage => print_one(line(ADD_PROMPT)),
        Command::UpdateUsage => print_one(line(UPDATE_PROMPT)),
        Command::SearchUsage => print_one(line(SEARCH_PROMPT)),
        Command::DeleteUsage => print_one(line(DELETE_PROMPT)),
        Command::Add { file, name } => Action::CheckFile { file, name },
        Command::Update { name, server } => Action::Store(StoreOp::Update { name, server }),
        Command::Search { name } => Action::Store(StoreOp::Lookup { name }),
        Command::Delete { name } => Action::Store(StoreOp::Delete { name }),
    }
}

/// Goes on with an add once it is known whether `file` is a regular file:
/// insert `(name, file)` if it is, otherwise print `<file> is not a file`.
pub fn file_checked(file: String, name: String, is_file: bool) -> (a: Action)
    ensures
        is_file ==> (a matches Action::Store(StoreOp::Insert { name: n, server: s }) && n@
            == name@ && s@ == file@),
        !is_file ==> prints(a, seq![file@ + NOT_A_FILE_SUFFIX@]),
{
    if is_file {
        Action::Store(StoreOp::Insert { name, server: file })
    } else {
        print_one(suffixed(&file, NOT_A_FILE_SUFFIX))
    }
}

/// `r` answers `op` when running it came out as `outcome`. An update or a
/// delete whose evaluation step failed is answered with a message; every
/// other failure is handed back as it is.
pub open spec fn replied(
    op: StoreOp,
    outcome: Result<Option<ConfigEntry>, StoreError>,
    r: Result<Reply, StoreError>,
) -> bool {
    match outcome {
        Ok(found) => match r {
            Ok(rep) => match op {
                StoreOp::Insert { .. } => line_views(rep.lines@) == seq![SAVED@] && rep.launch is None,
                StoreOp::Update { name, .. } => line_views(rep.lines@) == seq![UPDATED_PREFIX@ + name@]
                    && rep.launch is None,
                StoreOp::Delete { name } => line_views(rep.lines@) == seq![DELETED_PREFIX@ + name@]
                    && rep.launch is None,
                StoreOp::Lookup { name } => match found {
                    Some(entry) => line_views(rep.lines@) == seq![STARTING_PREFIX@ + entry.name@]
                        && (rep.launch matches Some(s) && s@ == entry.server@),
                    None => line_views(rep.lines@) == seq![NOT_FOUND_PREFIX@ + name@]
                        && rep.launch is None,
                },
            },
            Err(_) => false,
        },
        Err(e) => match op {
            StoreOp::Update { name, .. } if e is Step => (r matches Ok(rep) && line_views(
                rep.lines@,
            ) == seq![UPDATE_FAILED_PREFIX@ + name@] && rep.launch is None),
            StoreOp::Delete { name } if e is Step => (r matches Ok(rep) && line_views(rep.lines@)
                == seq![DELETE_FAILED_PREFIX@ + name@] && rep.launch is None),
            _ => r == Err::<Reply, StoreError>(e),
        },
    }
}

fn reply_one(text: String) -> (r: Reply)
    ensures
        line_views(r.lines@) == seq![text@],
        r.launch is None,
{
    let v = vec![text];
    assert(line_views(v@) =~= seq![text@]);
    Reply { lines: v, launch: None }
}

/// The answer to `op` when running it came out as `outcome`.
pub fn reply_for(op: &StoreOp, outcome: Result<Option<ConfigEntry>, StoreError>) -> (r: Result<
    Reply,
    StoreError,
>)
    ensures
        replied(*op, outcome, r),
{
    match outcome {
        Ok(found) => match op {
            StoreOp::Insert { .. } => Ok(reply_one(line(SAVED))),
            StoreOp::Update { name, .. } => Ok(reply_one(prefixed(UPDATED_PREFIX, name))),
            StoreOp::Delete { name } => Ok(reply_one(prefixed(DELETED_PREFIX, name))),
            StoreOp::Lookup { name } => match found {
                Some(entry) => {
                    let text = prefixed(STARTING_PREFIX, &entry.name);
                    let v = vec![text];
                    assert(line_views(v@) =~= seq![STARTING_PREFIX@ + entry.name@]);
                    Ok(Reply { lines: v, launch: Some(entry.server) })
                },
                None => Ok(reply_one(prefixed(NOT_FOUND_PREFIX, name))),
            },
        },
        Err(e) => {
            let failed_step = matches!(e, StoreError::Step(_));
            match op {
                StoreOp::Update { name, .. } if failed_step => Ok(
                    reply_one(prefixed(UPDATE_FAILED_PREFIX, name)),
                ),
                StoreOp::Delete { name } if failed_step => Ok(
                    reply_one(prefixed(DELETE_FAILED_PREFIX, name)),
                ),
                _ => Err(e),
            }
        },
    }
}

/// Runs `op` against the table and answers it. An insert, update or delete
/// never asks for a launch; only a lookup can.
pub fn perform(conn: &sqlite::Connection, op: &StoreOp) -> (r: Result<Reply, StoreError>)
    ensures
        exists|outcome: Result<Option<ConfigEntry>, StoreError>|
            #![trigger replied(*op, outcome, r)]
            (outcome matches Ok(Some(_)) ==> op is Lookup) && replied(*op, outcome, r),
        r matches Ok(rep) && rep.launch is Some ==> op is Lookup,
{
    let outcome = run_op(conn, op);
    let ghost o = outcome;
    let r = reply_for(op, outcome);
    assert(replied(*op, o, r));
    r
}

/// The action for the argument vector `args` (program name first).
pub fn plan(args: &Vec<String>) -> (a: Action)
    ensures
        exists|c: Command| #![trigger decided(c, a)] selects(arg_views(args@), c) && decided(c, a),
{
    let c = parse_command(args);
    let ghost cg = c;
    let a = decide(c);
    assert(selects(arg_views(args@), cg) && decided(cg, a));
    a
}

/// With no selector, with `-h`, or with a selector the tool does not know,
/// the invocation only prints: it neither runs a store operation nor checks
/// a file.
pub proof fn law_print_only(args: Seq<Seq<char>>, c: Command, a: Action)
    requires
        selects(args, c),
        decided(c, a),
        args.len() < 2 || args[1] == "-h"@ || (args[1] != "-f"@ && args[1] != "-u"@ && args[1]
            != "-s"@ && args[1] != "-d"@),
    ensures
        a is Print,
        store_op(a) is None,
{
    lemma_selectors_distinct();
}

/// A known selector with too few operands prints its own prompt and runs
/// no store operation.
pub proof fn law_missing_operands(args: Seq<Seq<char>>, c: Command, a: Action)
    requires
        selects(args, c),
        decided(c, a),
        args.len() >= 2,
    ensures
        args[1] == "-f"@ && args.len() < 4 ==> prints(a, seq![ADD_PROMPT@]),
        args[1] == "-u"@ && args.len() < 4 ==> prints(a, seq![UPDATE_PROMPT@]),
        args[1] == "-s"@ && args.len() < 3 ==> prints(a, seq![SEARCH_PROMPT@]),
        args[1] == "-d"@ && args.len() < 3 ==> prints(a, seq![DELETE_PROMPT@]),
        (args[1] == "-f"@ || args[1] == "-u"@) && args.len() < 4 ==> store_op(a) is None,
        (args[1] == "-s"@ || args[1] == "-d"@) && args.len() < 3 ==> store_op(a) is None,
{
    lemma_selectors_distinct();
}

} // verus!
