//! The lines the tool prints, each built from its operands.

use vstd::prelude::*;
use vstd::string::*;

verus! {

pub const NO_OPTION: &'static str = "Please provide an option";

pub const INVALID_OPTION: &'static str = "Invalid option";

pub const ADD_PROMPT: &'static str = "Please provide a directory and a name";

pub const UPDATE_PROMPT: &'static str = "Please provide a name to update and a new server path";

pub const SEARCH_PROMPT: &'static str = "Please provide a name to search";

pub const DELETE_PROMPT: &'static str = "Please provide a name to delete";

pub const SAVED: &'static str = "Configuration saved";

pub const NOT_A_FILE_SUFFIX: &'static str = " is not a file";

pub const UPDATED_PREFIX: &'static str = "Configuration updated for name: ";

pub const UPDATE_FAILED_PREFIX: &'static str =
    "Failed to update configuration or no configuration found with name: ";

pub const STARTING_PREFIX: &'static str = "Starting Server ";

pub const NOT_FOUND_PREFIX: &'static str = "No configuration found with name: ";

pub const DELETED_PREFIX: &'static str = "Configuration deleted for name: ";

pub const DELETE_FAILED_PREFIX: &'static str =
    "Failed to delete configuration or no configuration found with name: ";

pub const USAGE_HEADING: &'static str = "Usage:";

pub const USAGE_ADD: &'static str = "  server-mgmt -f <file> <name>";

pub const USAGE_SEARCH: &'static str = "  server-mgmt -s <name>";

pub const USAGE_HELP: &'static str = "  server-mgmt -h";

/// The help text: a heading and one line each for `-f`, `-s` and `-h`.
pub open spec fn usage_text() -> Seq<Seq<char>> {
    seq![USAGE_HEADING@, USAGE_ADD@, USAGE_SEARCH@, USAGE_HELP@]
}

/// The lines as character sequences.
pub open spec fn line_views(lines: Seq<String>) -> Seq<Seq<char>> {
    lines.map_values(|s: String| s@)
}

/// The line `text`.
pub fn line(text: &str) -> (r: String)
    ensures
        r@ == text@,
{
    String::from_str(text)
}

/// The line `prefix` followed by `operand`.
pub fn prefixed(prefix: &str, operand: &String) -> (r: String)
    ensures
        r@ == prefix@ + operand@,
{
    String::from_str(prefix).concat(operand.as_str())
}

/// The line `operand` followed by `suffix`.
pub fn suffixed(operand: &String, suffix: &str) -> (r: String)
    ensures
        r@ == operand@ + suffix@,
{
    operand.clone().concat(suffix)
}

/// The four lines of help.
pub fn usage() -> (r: Vec<String>)
    ensures
        line_views(r@) == usage_text(),
{
    let r = vec![line(USAGE_HEADING), line(USAGE_ADD), line(USAGE_SEARCH), line(USAGE_HELP)];
    assert(line_views(r@) =~= usage_text());
    r
}

} // verus!
