//! Where a stored server path points: joined onto the working directory.

use vstd::prelude::*;
use vstd::string::*;

verus! {

/// `server` joined onto `cwd`: an absolute `server` stands as it is; a
/// relative one follows `cwd`, with one `/` between them unless `cwd` is
/// empty or already ends in `/`.
pub open spec fn joined(cwd: Seq<char>, server: Seq<char>) -> Seq<char> {
    if server.len() > 0 && server[0] == '/' {
        server
    } else if cwd.len() == 0 || cwd.last() == '/' {
        cwd + server
    } else {
        cwd + seq!['/'] + server
    }
}

/// The path that launching `server` runs, seen from the directory `cwd`.
pub fn resolve_path(cwd: &String, server: &String) -> (r: String)
    ensures
        r@ == joined(cwd@, server@),
{
    proof {
        reveal_strlit("/");
    }
    let s = server.as_str();
    let c = cwd.as_str();
    let server_len = s.unicode_len();
    if server_len > 0 && s.get_char(0) == '/' {
        return server.clone();
    }
    let cwd_len = c.unicode_len();
    if cwd_len == 0 || c.get_char(cwd_len - 1) == '/' {
        cwd.clone().concat(s)
    } else {
        let with_sep = cwd.clone().concat("/");
        let r = with_sep.concat(s);
        assert(r@ == cwd@ + seq!['/'] + server@);
        r
    }
}

} // verus!
