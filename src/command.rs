//! Reading the positional arguments of one invocation into a command.

use vstd::prelude::*;
use vstd::string::*;

verus! {

/// What one invocation asks for. The `*Usage` variants stand for a known
/// selector that came with too few operands.
#[derive(Debug)]
pub enum Command {
    NoOption,
    Invalid,
    Help,
    Add { file: String, name: String },
    AddUsage,
    Update { name: String, server: String },
    UpdateUsage,
    Search { name: String },
    SearchUsage,
    Delete { name: String },
    DeleteUsage,
}

/// The arguments as character sequences.
pub open spec fn arg_views(args: Seq<String>) -> Seq<Seq<char>> {
    args.map_values(|s: String| s@)
}

/// `c` is the command that the argument vector `args` (program name first) selects.
pub open spec fn selects(args: Seq<Seq<char>>, c: Command) -> bool {
    if args.len() < 2 {
        c is NoOption
    } else if args[1] == "-f"@ {
        if args.len() < 4 {
            c is AddUsage
        } else {
            match c {
                Command::Add { file, name } => file@ == args[2] && name@ == args[3],
                _ => false,
            }
        }
    } else if args[1] == "-u"@ {
        if args.len() < 4 {
            c is UpdateUsage
        } else {
            match c {
                Command::Update { name, server } => name@ == args[2] && server@ == args[3],
                _ => false,
            }
        }
    } else if args[1] == "-s"@ {
        if args.len() < 3 {
            c is SearchUsage
        } else {
            match c {
                Command::Search { name } => name@ == args[2],
                _ => false,
            }
        }
    } else if args[1] == "-d"@ {
        if args.len() < 3 {
            c is DeleteUsage
        } else {
            match c {
                Command::Delete { name } => name@ == args[2],
                _ => false,
            }
        }
    } else if args[1] == "-h"@ {
        c is Help
    } else {
        c is Invalid
    }
}

/// The five selectors are pairwise different.
pub proof fn lemma_selectors_distinct()
    ensures
        "-f"@ != "-u"@,
        "-f"@ != "-s"@,
        "-f"@ != "-d"@,
        "-f"@ != "-h"@,
        "-u"@ != "-s"@,
        "-u"@ != "-d"@,
        "-u"@ != "-h"@,
        "-s"@ != "-d"@,
        "-s"@ != "-h"@,
        "-d"@ != "-h"@,
{
    reveal_strlit("-f");
    reveal_strlit("-u");
    reveal_strlit("-s");
    reveal_strlit("-d");
    reveal_strlit("-h");
    assert("-f"@[1] != "-u"@[1]);
    assert("-f"@[1] != "-s"@[1]);
    assert("-f"@[1] != "-d"@[1]);
    assert("-f"@[1] != "-h"@[1]);
    assert("-u"@[1] != "-s"@[1]);
    assert("-u"@[1] != "-d"@[1]);
    assert("-u"@[1] != "-h"@[1]);
    assert("-s"@[1] != "-d"@[1]);
    assert("-s"@[1] != "-h"@[1]);
    assert("-d"@[1] != "-h"@[1]);
}

fn is_selector(arg: &String, selector: &str) -> (r: bool)
    ensures
        r == (arg@ == selector@),
{
    let expected = String::from_str(selector);
    *arg == expected
}

/// Reads the argument vector (program name first, then the mode selector,
/// then its operands) into the command it selects.
pub fn parse_command(args: &Vec<String>) -> (c: Command)
    ensures
        selects(arg_views(args@), c),
{
    proof {
        reveal_strlit("-f");
        reveal_strlit("-u");
        reveal_strlit("-s");
        reveal_strlit("-d");
        reveal_strlit("-h");
    }
    let n = args.len();
    if n < 2 {
        return Command::NoOption;
    }
    let sel = &args[1];
    if is_selector(sel, "-f") {
        if n < 4 {
            Command::AddUsage
        } else {
            Command::Add { file: args[2].clone(), name: args[3].clone() }
        }
    } else if is_selector(sel, "-u") {
        if n < 4 {
            Command::UpdateUsage
        } else {
            Command::Update { name: args[2].clone(), server: args[3].clone() }
        }
    } else if is_selector(sel, "-s") {
        if n < 3 {
            Command::SearchUsage
        } else {
            Command::Search { name: args[2].clone() }
        }
    } else if is_selector(sel, "-d") {
        if n < 3 {
            Command::DeleteUsage
        } else {
            Command::Delete { name: args[2].clone() }
        }
    } else if is_selector(sel, "-h") {
        Command::Help
    } else {
        Command::Invalid
    }
}

} // verus!
