//! Finding and driving the command-line tools the agent relies on: the
//! `awp-wallet` signer and the `openclaw` model runner.  The caller probes
//! the file system and runs the processes; this module says where to look,
//! with which arguments, and what their answers mean.
use vstd::prelude::*;
use crate::json;
use crate::text::{self, contains, dec_int, trim};
use crate::wallet::{join_path, join_path_exec};

verus! {

/// The views of a list of strings.
pub open spec fn views(v: Seq<String>) -> Seq<Seq<char>> {
    v.map_values(|s: String| s@)
}

/// The pieces of `s` between the `:` separators (what `str::split(':')`
/// yields): one piece more than there are separators.
pub open spec fn split_colon(s: Seq<char>) -> Seq<Seq<char>>
    decreases s.len(),
{
    if s.len() == 0 {
        seq![Seq::empty()]
    } else {
        let p = split_colon(s.drop_last());
        if s.last() == ':' {
            p.push(Seq::empty())
        } else {
            p.update(p.len() - 1, p.last().push(s.last()))
        }
    }
}

proof fn lemma_split_nonempty(s: Seq<char>)
    ensures
        split_colon(s).len() >= 1,
    decreases s.len(),
{
    if s.len() > 0 {
        lemma_split_nonempty(s.drop_last());
    }
}

/// The pieces of `s` between the `:` separators.
pub fn split_colon_exec(s: &str) -> (r: Vec<String>)
    ensures
        views(r@) == split_colon(s@),
{
    let v = text::chars_of(s);
    let mut out: Vec<String> = Vec::new();
    let mut cur: Vec<char> = Vec::new();
    let mut i: usize = 0;
    while i < v.len()
        invariant
            i <= v@.len(),
            v@ == s@,
            views(out@).push(cur@) == split_colon(v@.take(i as int)),
        decreases v@.len() - i,
    {
        let ghost before = views(out@).push(cur@);
        assert(v@.take(i + 1).drop_last() == v@.take(i as int));
        assert(v@.take(i + 1).last() == v@[i as int]);
        if v[i] == ':' {
            out.push(text::string_of(&cur));
            cur = Vec::new();
            assert(views(out@).push(cur@) =~= before.push(Seq::empty()));
        } else {
            cur.push(v[i]);
            assert(views(out@).push(cur@) =~= before.update(before.len() - 1, before.last().push(v@[i as int])));
        }
        i = i + 1;
    }
    out.push(text::string_of(&cur));
    assert(v@.take(v@.len() as int) == v@);
    out
}

// ---------------------------------------------------------------------------
// awp-wallet
// ---------------------------------------------------------------------------

/// The usual install locations of `awp-wallet` under the home directory and
/// in the system.
pub open spec fn wallet_standard_paths(home: Seq<char>) -> Seq<Seq<char>> {
    seq![
        home + "/.local/bin/awp-wallet"@,
        home + "/.npm-global/bin/awp-wallet"@,
        home + "/.yarn/bin/awp-wallet"@,
        "/usr/local/bin/awp-wallet"@,
        "/usr/bin/awp-wallet"@,
    ]
}

/// Where `awp-wallet` is looked for, in order: in each directory of `PATH`,
/// then in the usual install locations.  The first file that exists wins.
pub open spec fn wallet_search_spec(path_var: Seq<char>, home: Seq<char>) -> Seq<Seq<char>> {
    split_colon(path_var).map_values(|d: Seq<char>| join_path(d, "awp-wallet"@)) + wallet_standard_paths(home)
}

fn standard_wallet_paths(home: &str) -> (r: Vec<String>)
    ensures
        views(r@) == wallet_standard_paths(home@),
{
    let mut r: Vec<String> = Vec::new();
    r.push(text::concat2(home, "/.local/bin/awp-wallet"));
    r.push(text::concat2(home, "/.npm-global/bin/awp-wallet"));
    r.push(text::concat2(home, "/.yarn/bin/awp-wallet"));
    r.push(text::to_owned_string("/usr/local/bin/awp-wallet"));
    r.push(text::to_owned_string("/usr/bin/awp-wallet"));
    assert(views(r@) =~= wallet_standard_paths(home@));
    r
}

/// Where `awp-wallet` is looked for, in order, given `PATH` and the home
/// directory (empty when unset).
pub fn wallet_search_paths(path_var: &str, home: &str) -> (r: Vec<String>)
    ensures
        views(r@) == wallet_search_spec(path_var@, home@),
{
    let dirs = split_colon_exec(path_var);
    let mut r: Vec<String> = Vec::new();
    let mut i: usize = 0;
    while i < dirs.len()
        invariant
            i <= dirs@.len(),
            views(r@) == views(dirs@).take(i as int).map_values(|d: Seq<char>| join_path(d, "awp-wallet"@)),
        decreases dirs@.len() - i,
    {
        let ghost before = views(r@);
        r.push(join_path_exec(dirs[i].as_str(), "awp-wallet"));
        assert(views(dirs@)[i as int] == dirs@[i as int]@);
        assert(views(r@) =~= before.push(join_path(dirs@[i as int]@, "awp-wallet"@)));
        assert(views(r@) =~= views(dirs@).take(i + 1).map_values(|d: Seq<char>| join_path(d, "awp-wallet"@)));
        i = i + 1;
    }
    assert(views(dirs@).take(dirs@.len() as int) == views(dirs@));
    let ghost first = views(r@);
    let mut std_paths = standard_wallet_paths(home);
    r.append(&mut std_paths);
    assert(views(r@) =~= first + wallet_standard_paths(home@));
    r
}

/// The comma-separated list of `ps`.
pub open spec fn comma_list(ps: Seq<Seq<char>>) -> Seq<char>
    decreases ps.len(),
{
    if ps.len() == 0 {
        Seq::empty()
    } else if ps.len() == 1 {
        ps[0]
    } else {
        comma_list(ps.drop_last()) + ", "@ + ps.last()
    }
}

/// The error when `awp-wallet` is nowhere to be found: the usual locations
/// searched, and how to install it.
pub open spec fn wallet_not_found_spec(home: Seq<char>) -> Seq<char> {
    "awp-wallet not found in PATH or standard locations.\nSearched: "@ + comma_list(wallet_standard_paths(home))
        + "\nInstall it: curl -sSL https://install.awp.sh/wallet | bash"@
}

/// The error when `awp-wallet` is nowhere to be found.
pub fn wallet_not_found(home: &str) -> (r: String)
    ensures
        r@ == wallet_not_found_spec(home@),
{
    let ps = standard_wallet_paths(home);
    let mut v = text::chars_of("awp-wallet not found in PATH or standard locations.\nSearched: ");
    let ghost head = v@;
    let mut i: usize = 0;
    while i < ps.len()
        invariant
            i <= ps@.len(),
            views(ps@) == wallet_standard_paths(home@),
            v@ == head + comma_list(views(ps@).take(i as int)),
        decreases ps@.len() - i,
    {
        let ghost before = v@;
        if i > 0 {
            text::push_str(&mut v, ", ");
        }
        text::push_str(&mut v, ps[i].as_str());
        proof {
            let t = views(ps@).take(i + 1);
            assert(t.drop_last() == views(ps@).take(i as int));
            assert(t.last() == ps@[i as int]@);
            if i == 0 {
                assert(comma_list(views(ps@).take(0)) == Seq::<char>::empty());
                assert(comma_list(t) == ps@[0]@);
            }
            assert(v@ =~= head + comma_list(t));
        }
        i = i + 1;
    }
    assert(views(ps@).take(ps@.len() as int) == views(ps@));
    text::push_str(&mut v, "\nInstall it: curl -sSL https://install.awp.sh/wallet | bash");
    text::string_of(&v)
}

// ---------------------------------------------------------------------------
// openclaw
// ---------------------------------------------------------------------------

/// The names under which `openclaw` may be installed on the `PATH`.
pub open spec fn openclaw_names() -> Seq<Seq<char>> {
    seq!["openclaw"@, "openclaw.mjs"@, "openclaw.cmd"@]
}

/// The usual install locations of `openclaw` outside the `PATH`.
pub open spec fn openclaw_standard_paths(home: Seq<char>) -> Seq<Seq<char>> {
    seq![home + "/.local/bin/openclaw"@, home + "/.npm-global/bin/openclaw"@, "/usr/local/bin/openclaw"@]
}

/// The probes for name `name` in the `PATH` directories `dirs`: the file to
/// test, and what to run when it exists (the bare name).
pub open spec fn name_probes(dirs: Seq<Seq<char>>, name: Seq<char>) -> Seq<(Seq<char>, Seq<char>)> {
    dirs.map_values(|d: Seq<char>| (join_path(d, name), name))
}

/// Where `openclaw` is looked for, in order: each name in every `PATH`
/// directory (run by its bare name), then the usual install locations (run
/// by their path).  The first file that exists wins.
pub open spec fn openclaw_probes_spec(path_var: Seq<char>, home: Seq<char>) -> Seq<(Seq<char>, Seq<char>)> {
    let dirs = split_colon(path_var);
    name_probes(dirs, openclaw_names()[0]) + name_probes(dirs, openclaw_names()[1]) + name_probes(dirs, openclaw_names()[2])
        + openclaw_standard_paths(home).map_values(|p: Seq<char>| (p, p))
}

/// The views of a list of probes.
pub open spec fn probe_views(v: Seq<(String, String)>) -> Seq<(Seq<char>, Seq<char>)> {
    v.map_values(|p: (String, String)| (p.0@, p.1@))
}

fn push_name_probes(out: &mut Vec<(String, String)>, dirs: &Vec<String>, name: &str)
    ensures
        probe_views(final(out)@) == probe_views(old(out)@) + name_probes(views(dirs@), name@),
{
    let ghost start = probe_views(out@);
    let mut i: usize = 0;
    while i < dirs.len()
        invariant
            i <= dirs@.len(),
            probe_views(out@) == start + name_probes(views(dirs@).take(i as int), name@),
        decreases dirs@.len() - i,
    {
        let ghost before = probe_views(out@);
        out.push((join_path_exec(dirs[i].as_str(), name), text::to_owned_string(name)));
        assert(views(dirs@)[i as int] == dirs@[i as int]@);
        assert(probe_views(out@) =~= before.push((join_path(dirs@[i as int]@, name@), name@)));
        assert(probe_views(out@) =~= start + name_probes(views(dirs@).take(i + 1), name@));
        i = i + 1;
    }
    assert(views(dirs@).take(dirs@.len() as int) == views(dirs@));
}

/// Where `openclaw` is looked for, in order, each with what to run when
/// found, given `PATH` and the home directory (empty when unset).
pub fn openclaw_probes(path_var: &str, home: &str) -> (r: Vec<(String, String)>)
    ensures
        probe_views(r@) == openclaw_probes_spec(path_var@, home@),
{
    let dirs = split_colon_exec(path_var);
    let mut r: Vec<(String, String)> = Vec::new();
    push_name_probes(&mut r, &dirs, "openclaw");
    push_name_probes(&mut r, &dirs, "openclaw.mjs");
    push_name_probes(&mut r, &dirs, "openclaw.cmd");
    let ghost on_path = probe_views(r@);
    let p1 = text::concat2(home, "/.local/bin/openclaw");
    let p2 = text::concat2(home, "/.npm-global/bin/openclaw");
    let p3 = text::to_owned_string("/usr/local/bin/openclaw");
    r.push((text::to_owned_string(p1.as_str()), p1));
    r.push((text::to_owned_string(p2.as_str()), p2));
    r.push((text::to_owned_string(p3.as_str()), p3));
    assert(probe_views(r@) =~= on_path + openclaw_standard_paths(home@).map_values(|p: Seq<char>| (p, p)));
    r
}

/// The arguments that list the `openclaw` agents.
pub fn agents_list_args() -> (r: Vec<String>)
    ensures
        views(r@) == seq!["agents"@, "list"@],
{
    let mut r: Vec<String> = Vec::new();
    r.push(text::to_owned_string("agents"));
    r.push(text::to_owned_string("list"));
    assert(views(r@) =~= seq!["agents"@, "list"@]);
    r
}

/// Whether the agent list printed by `openclaw agents list` names the agent.
pub fn agent_listed(listing: &str, agent_id: &str) -> (r: bool)
    ensures
        r == contains(listing@, agent_id@),
{
    text::contains_str(listing, agent_id)
}

/// The workspace of a new `openclaw` agent: under the home directory
/// (`/tmp` when unset).
pub open spec fn agent_workspace_spec(home: Option<Seq<char>>, agent_id: Seq<char>) -> Seq<char> {
    json::or_default(home, "/tmp"@) + "/.openclaw/workspace-"@ + agent_id
}

/// The arguments that create the `openclaw` agent `agent_id`.
pub fn agents_add_args(agent_id: &str, home: Option<&str>) -> (r: Vec<String>)
    ensures
        views(r@) == seq!["agents"@, "add"@, agent_id@, "--workspace"@,
            agent_workspace_spec(match home { Some(h) => Some(h@), None => None }, agent_id@), "--non-interactive"@],
{
    let mut ws = match home {
        Some(h) => text::chars_of(h),
        None => text::chars_of("/tmp"),
    };
    text::push_str(&mut ws, "/.openclaw/workspace-");
    text::push_str(&mut ws, agent_id);
    let mut r: Vec<String> = Vec::new();
    r.push(text::to_owned_string("agents"));
    r.push(text::to_owned_string("add"));
    r.push(text::to_owned_string(agent_id));
    r.push(text::to_owned_string("--workspace"));
    r.push(text::string_of(&ws));
    r.push(text::to_owned_string("--non-interactive"));
    assert(views(r@) =~= seq!["agents"@, "add"@, agent_id@, "--workspace"@,
        agent_workspace_spec(match home { Some(h) => Some(h@), None => None }, agent_id@), "--non-interactive"@]);
    r
}

/// The arguments that clear the agent's past sessions before a call.
pub fn purge_args(agent_id: &str) -> (r: Vec<String>)
    ensures
        views(r@) == seq!["sessions"@, "purge"@, "--agent"@, agent_id@, "--yes"@],
{
    let mut r: Vec<String> = Vec::new();
    r.push(text::to_owned_string("sessions"));
    r.push(text::to_owned_string("purge"));
    r.push(text::to_owned_string("--agent"));
    r.push(text::to_owned_string(agent_id));
    r.push(text::to_owned_string("--yes"));
    assert(views(r@) =~= seq!["sessions"@, "purge"@, "--agent"@, agent_id@, "--yes"@]);
    r
}

/// The arguments that ask the agent about `prompt`, with deep thinking and
/// a three-minute limit.
pub fn ask_args(agent_id: &str, prompt: &str) -> (r: Vec<String>)
    ensures
        views(r@) == seq!["agent"@, "--agent"@, agent_id@, "--message"@, prompt@, "--thinking"@, "high"@,
            "--timeout"@, "180"@],
{
    let mut r: Vec<String> = Vec::new();
    r.push(text::to_owned_string("agent"));
    r.push(text::to_owned_string("--agent"));
    r.push(text::to_owned_string(agent_id));
    r.push(text::to_owned_string("--message"));
    r.push(text::to_owned_string(prompt));
    r.push(text::to_owned_string("--thinking"));
    r.push(text::to_owned_string("high"));
    r.push(text::to_owned_string("--timeout"));
    r.push(text::to_owned_string("180"));
    assert(views(r@) =~= seq!["agent"@, "--agent"@, agent_id@, "--message"@, prompt@, "--thinking"@, "high"@,
        "--timeout"@, "180"@]);
    r
}

/// What a finished model call yields: its output, or why it failed (a
/// failed exit, rate limiting told apart, or an empty answer).  `code` is
/// the exit code, absent when a signal ended the process.
pub open spec fn ask_outcome_spec(success: bool, code: Option<i32>, stdout: Seq<char>, stderr: Seq<char>) -> Result<Seq<char>, Seq<char>> {
    let c = dec_int(json::or_default(code, -1i32) as int);
    if !success {
        if contains(stderr, "rate limit"@) || contains(stderr, "429"@) {
            Err("OpenClaw rate limited (exit "@ + c + "): "@ + trim(stderr))
        } else {
            Err("openclaw failed (exit "@ + c + "): "@ + trim(stderr))
        }
    } else if trim(stdout).len() == 0 {
        Err("openclaw returned empty response"@)
    } else {
        Ok(stdout)
    }
}

/// What a finished model call yields.
pub fn ask_outcome(success: bool, code: Option<i32>, stdout: &str, stderr: &str) -> (r: Result<String, String>)
    ensures
        match ask_outcome_spec(success, code, stdout@, stderr@) {
            Ok(t) => r is Ok && r->Ok_0@ == t,
            Err(e) => r is Err && r->Err_0@ == e,
        },
{
    if !success {
        let c: i32 = match code {
            Some(c) => c,
            None => -1,
        };
        let lead = if text::contains_str(stderr, "rate limit") || text::contains_str(stderr, "429") {
            "OpenClaw rate limited (exit "
        } else {
            "openclaw failed (exit "
        };
        let mut v = text::chars_of(lead);
        text::push_i64(&mut v, c as i64);
        text::push_str(&mut v, "): ");
        text::push_str(&mut v, text::trim_str(stderr).as_str());
        return Err(text::string_of(&v));
    }
    if text::trim_str(stdout).as_str().is_empty() {
        return Err(text::to_owned_string("openclaw returned empty response"));
    }
    Ok(text::to_owned_string(stdout))
}

} // verus!
