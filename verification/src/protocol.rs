use vstd::prelude::*;
use vstd::string::*;
use crate::refstore::{RefRecord, RefRec, rec_views, model_contains_name, contains_name};
use crate::strutil::{str_eq, str_starts_with, find_char, spec_index_of, lemma_index_of_first};

verus! {

/// One parsed remote-helper command line.
pub enum Command {
    Capabilities,
    List,
    Push { src: String, dst: String },
    Fetch,
    Quit,
    Unknown,
}

/// The mathematical shadow of a `Command`.
pub ghost enum CommandModel {
    Capabilities,
    List,
    Push { src: Seq<char>, dst: Seq<char> },
    Fetch,
    Quit,
    Unknown,
}

impl View for Command {
    type V = CommandModel;

    open spec fn view(&self) -> CommandModel {
        match self {
            Command::Capabilities => CommandModel::Capabilities,
            Command::List => CommandModel::List,
            Command::Push { src, dst } => CommandModel::Push { src: src@, dst: dst@ },
            Command::Fetch => CommandModel::Fetch,
            Command::Quit => CommandModel::Quit,
            Command::Unknown => CommandModel::Unknown,
        }
    }
}

/// The argument of a push line: the piece up to the next space, if any.
pub open spec fn spec_push_arg(rest: Seq<char>) -> Seq<char> {
    match spec_index_of(rest, ' ') {
        Some(k) => rest.take(k),
        None => rest,
    }
}

/// What one input line means.  An empty line ends the session; the commands
/// are matched as the loop reads them: `capabilities` exactly, `list`,
/// `push` and `fetch` by prefix; a push argument must hold a colon between
/// source and destination; anything else is an unknown command, to be
/// ignored without a reply.
pub open spec fn spec_parse_command(l: Seq<char>) -> CommandModel {
    if l.len() == 0 {
        CommandModel::Quit
    } else if l == "capabilities"@ {
        CommandModel::Capabilities
    } else if "list"@.is_prefix_of(l) {
        CommandModel::List
    } else if "push "@.is_prefix_of(l) {
        let arg = spec_push_arg(l.skip(5));
        match spec_index_of(arg, ':') {
            Some(j) => CommandModel::Push { src: arg.take(j), dst: arg.skip(j + 1) },
            None => CommandModel::Unknown,
        }
    } else if "fetch"@.is_prefix_of(l) {
        CommandModel::Fetch
    } else {
        CommandModel::Unknown
    }
}

/// Parses one input line.
pub fn parse_command(line: &str) -> (r: Command)
    ensures
        r@ == spec_parse_command(line@),
{
    let len = line.unicode_len();
    if len == 0 {
        return Command::Quit;
    }
    if str_eq(line, "capabilities") {
        return Command::Capabilities;
    }
    if str_starts_with(line, "list") {
        return Command::List;
    }
    if str_starts_with(line, "push ") {
        proof {
            reveal_strlit("push ");
        }
        let rest = line.substring_char(5, len);
        proof {
            assert(rest@ =~= line@.skip(5));
        }
        let arg = match find_char(rest, ' ') {
            Some(k) => {
                proof {
                    lemma_index_of_first(rest@, ' ');
                }
                rest.substring_char(0, k)
            },
            None => rest,
        };
        proof {
            assert(arg@ =~= spec_push_arg(line@.skip(5)));
        }
        match find_char(arg, ':') {
            Some(j) => {
                proof {
                    lemma_index_of_first(arg@, ':');
                }
                let alen = arg.unicode_len();
                let src = arg.substring_char(0, j).to_owned();
                let dst = arg.substring_char(j + 1, alen).to_owned();
                proof {
                    assert(src@ =~= arg@.take(j as int));
                    assert(dst@ =~= arg@.skip(j as int + 1));
                }
                return Command::Push { src, dst };
            },
            None => {
                return Command::Unknown;
            },
        }
    }
    if str_starts_with(line, "fetch") {
        return Command::Fetch;
    }
    Command::Unknown
}

pub open spec fn line_views(ls: Seq<String>) -> Seq<Seq<char>> {
    ls.map_values(|s: String| s@)
}

/// The reply to `capabilities`: one capability per line, then a blank line.
pub fn capabilities_reply() -> (r: Vec<String>)
    ensures
        line_views(r@) == seq!["push"@, "fetch"@, ""@],
{
    let mut r: Vec<String> = Vec::new();
    r.push("push".to_owned());
    r.push("fetch".to_owned());
    r.push("".to_owned());
    proof {
        assert(line_views(r@) =~~= seq!["push"@, "fetch"@, ""@]);
    }
    r
}

/// One `list` line: `<objectId> <refName>`.
pub open spec fn spec_ref_line(rec: RefRec) -> Seq<char> {
    rec.object_id + " "@ + rec.name
}

/// The symbolic default branch the HEAD line names: `refs/heads/main` where
/// that ref exists, else `refs/heads/master`, else the first listed ref.
pub open spec fn spec_default_branch(rs: Seq<RefRec>) -> Seq<char> {
    if model_contains_name(rs, "refs/heads/main"@) {
        "refs/heads/main"@
    } else if model_contains_name(rs, "refs/heads/master"@) {
        "refs/heads/master"@
    } else {
        rs[0].name
    }
}

pub open spec fn spec_head_line(rs: Seq<RefRec>) -> Seq<char> {
    "@"@ + spec_default_branch(rs) + " HEAD"@
}

/// The per-ref lines of a `list` reply, in table order.
pub open spec fn spec_ref_lines(rs: Seq<RefRec>) -> Seq<Seq<char>> {
    rs.map_values(|rec: RefRec| spec_ref_line(rec))
}

/// The whole reply to `list`: with no refs a single blank line and nothing
/// else; otherwise one line per ref, the synthetic HEAD line, then a blank
/// line.
pub open spec fn spec_list_reply(rs: Seq<RefRec>) -> Seq<Seq<char>> {
    if rs.len() == 0 {
        seq![""@]
    } else {
        spec_ref_lines(rs).push(spec_head_line(rs)).push(""@)
    }
}

/// Builds the reply to `list` from the resolved ref table.
pub fn list_reply(refs: &Vec<RefRecord>) -> (r: Vec<String>)
    ensures
        line_views(r@) == spec_list_reply(rec_views(refs@)),
{
    let mut out: Vec<String> = Vec::new();
    if refs.len() == 0 {
        out.push("".to_owned());
        proof {
            assert(line_views(out@) =~~= spec_list_reply(rec_views(refs@)));
        }
        return out;
    }
    let n = refs.len();
    let mut i: usize = 0;
    while i < n
        invariant
            i <= n,
            n == refs@.len(),
            line_views(out@) =~~= spec_ref_lines(rec_views(refs@)).take(i as int),
        decreases n - i,
    {
        let mut line = String::new();
        line.append(refs[i].object_id.as_str());
        line.append(" ");
        line.append(refs[i].name.as_str());
        let ghost out_old = out@;
        out.push(line);
        proof {
            assert(rec_views(refs@)[i as int] == refs@[i as int]@);
            assert(line@ =~= spec_ref_line(rec_views(refs@)[i as int]));
            assert(line_views(out@) =~~= line_views(out_old).push(line@));
            assert(line_views(out_old).push(line@)
                =~~= spec_ref_lines(rec_views(refs@)).take(i as int + 1));
        }
        i += 1;
    }
    let head: &str = if contains_name(refs, "refs/heads/main") {
        "refs/heads/main"
    } else if contains_name(refs, "refs/heads/master") {
        "refs/heads/master"
    } else {
        refs[0].name.as_str()
    };
    proof {
        assert(rec_views(refs@)[0] == refs@[0]@);
        assert(head@ == spec_default_branch(rec_views(refs@)));
    }
    let mut hl = String::new();
    hl.append("@");
    hl.append(head);
    hl.append(" HEAD");
    out.push(hl);
    out.push("".to_owned());
    proof {
        assert(hl@ =~= spec_head_line(rec_views(refs@)));
        assert(spec_ref_lines(rec_views(refs@)).take(n as int)
            =~~= spec_ref_lines(rec_views(refs@)));
        assert(line_views(out@) =~~= spec_list_reply(rec_views(refs@)));
    }
    out
}

/// The reply to a successful push: `ok <dst>`, then a blank line.
pub fn push_ok_reply(dst: &str) -> (r: Vec<String>)
    ensures
        line_views(r@) == seq!["ok "@ + dst@, ""@],
{
    let mut line = String::new();
    line.append("ok ");
    line.append(dst);
    let mut r: Vec<String> = Vec::new();
    r.push(line);
    r.push("".to_owned());
    proof {
        assert(line_views(r@) =~~= seq!["ok "@ + dst@, ""@]);
    }
    r
}

/// The reply to a failed push: an error line naming the destination and the
/// reason, then a blank line.
pub fn push_error_reply(dst: &str, message: &str) -> (r: Vec<String>)
    ensures
        line_views(r@) == seq!["error "@ + dst@ + " "@ + message@, ""@],
{
    let mut line = String::new();
    line.append("error ");
    line.append(dst);
    line.append(" ");
    line.append(message);
    let mut r: Vec<String> = Vec::new();
    r.push(line);
    r.push("".to_owned());
    proof {
        assert(line_views(r@) =~~= seq!["error "@ + dst@ + " "@ + message@, ""@]);
    }
    r
}

/// The reply to `fetch`: a single blank line once the work is done.
pub fn fetch_reply() -> (r: Vec<String>)
    ensures
        line_views(r@) == seq![""@],
{
    let mut r: Vec<String> = Vec::new();
    r.push("".to_owned());
    proof {
        assert(line_views(r@) =~~= seq![""@]);
    }
    r
}

/// The engine state that outlives single commands.  Fetch work runs once
/// per helper invocation, however many fetch lines the client sends; every
/// fetch line is still answered with its own blank line.
pub struct EngineState {
    pub fetched: bool,
}

impl EngineState {
    pub fn new() -> (r: EngineState)
        ensures
            !r.fetched,
    {
        EngineState { fetched: false }
    }

    /// Whether this fetch command should run the fetch work: true exactly
    /// on the invocation's first fetch command.
    pub fn take_fetch(&mut self) -> (r: bool)
        ensures
            r == !old(self).fetched,
            final(self).fetched,
    {
        let r = !self.fetched;
        self.fetched = true;
        r
    }
}

/// What the engine does with one parsed command before any reply is owed.
pub enum Reaction {
    Reply { lines: Vec<String> },
    QueryRefs,
    StartPush { src: String, dst: String },
    StartFetch,
    Terminate,
    Ignore,
}

/// Dispatches one command: `capabilities` is answered inline, `list` asks
/// for ref resolution, `push` and `fetch` start the exchanges, a blank line
/// terminates, and unknown commands are ignored without a reply.
pub fn react(cmd: Command) -> (r: Reaction)
    ensures
        cmd is Capabilities ==> (r matches Reaction::Reply { lines }
            && line_views(lines@) == seq!["push"@, "fetch"@, ""@]),
        cmd is List ==> r is QueryRefs,
        cmd matches Command::Push { src, dst } ==> (r matches Reaction::StartPush {
            src: s,
            dst: d,
        } && s == src && d == dst),
        cmd is Fetch ==> r is StartFetch,
        cmd is Quit ==> r is Terminate,
        cmd is Unknown ==> r is Ignore,
{
    match cmd {
        Command::Capabilities => Reaction::Reply { lines: capabilities_reply() },
        Command::List => Reaction::QueryRefs,
        Command::Push { src, dst } => Reaction::StartPush { src, dst },
        Command::Fetch => Reaction::StartFetch,
        Command::Quit => Reaction::Terminate,
        Command::Unknown => Reaction::Ignore,
    }
}

} // verus!
