//! The key agent as a scoped resource: parsing the agent's start-up output
//! for its two environment assignments, holding the environment overlay later
//! subprocesses run under, and accounting for teardown, which is owed exactly
//! once per successful construction, on every exit path.
//!
//! The processes themselves — starting the agent, adding the identity,
//! killing the agent — run outside; this module decides and keeps the books.

use vstd::prelude::*;

verus! {

use vstd::string::StrSliceExecFns;
use vstd::string::StringExecFns;
use crate::text::{index_of_char, lemma_index_of_char, has_prefix, find_char, starts_with,
    substring};

/// The lines of `s`: split at each line feed, one trailing carriage return
/// removed per line. Text after the last line feed is a line of its own;
/// empty text has no lines.
pub open spec fn lines_of(s: Seq<char>) -> Seq<Seq<char>>
    decreases s.len(),
    via lines_of_decreases
{
    if s.len() == 0 {
        Seq::<Seq<char>>::empty()
    } else {
        let i = index_of_char(s, '\n');
        let line = strip_cr(s.subrange(0, i));
        if i == s.len() {
            seq![line]
        } else {
            seq![line] + lines_of(s.subrange(i + 1, s.len() as int))
        }
    }
}

#[via_fn]
proof fn lines_of_decreases(s: Seq<char>) {
    if s.len() > 0 {
        lemma_index_of_char(s, '\n');
    }
}

/// One trailing carriage return removed.
pub open spec fn strip_cr(l: Seq<char>) -> Seq<char> {
    if l.len() > 0 && l.last() == '\r' {
        l.drop_last()
    } else {
        l
    }
}

/// The value an assignment line carries for a given `KEY=` prefix: what
/// stands between the prefix and the first semicolon. `None` when the line is
/// no such assignment.
pub open spec fn assignment_value(line: Seq<char>, prefix: Seq<char>) -> Option<Seq<char>> {
    if has_prefix(line, prefix) {
        let rest = line.subrange(prefix.len() as int, line.len() as int);
        Some(rest.subrange(0, index_of_char(rest, ';')))
    } else {
        None
    }
}

/// The value of the last line assigning the key, or `None` when no line
/// does: a later assignment overrides an earlier one.
pub open spec fn last_assignment(lines: Seq<Seq<char>>, prefix: Seq<char>) -> Option<Seq<char>>
    decreases lines.len(),
{
    if lines.len() == 0 {
        None
    } else {
        match assignment_value(lines.last(), prefix) {
            Some(v) => Some(v),
            None => last_assignment(lines.drop_last(), prefix),
        }
    }
}

/// The view of an optional string.
pub open spec fn opt_chars(o: Option<String>) -> Option<Seq<char>> {
    match o {
        None => None,
        Some(s) => Some(s@),
    }
}

/// Splits `s` into its lines.
#[verifier::loop_isolation(false)]
pub fn split_lines(s: &str) -> (r: Vec<String>)
    ensures
        r@.len() == lines_of(s@).len(),
        forall|i: int| 0 <= i < r@.len() ==> r@[i]@ == lines_of(s@)[i],
{
    let n = s.unicode_len();
    let mut out: Vec<String> = Vec::new();
    let mut pos: usize = 0;
    let mut done: bool = n == 0;
    proof {
        assert(s@.subrange(0, n as int) =~= s@);
        assert(out@.map_values(|l: String| l@) =~= Seq::<Seq<char>>::empty());
        if n == 0 {
            assert(lines_of(s@) =~= Seq::<Seq<char>>::empty());
        }
    }
    while !done
        invariant
            0 <= pos <= n,
            n == s@.len(),
            !done ==> pos < n,
            lines_of(s@) == out@.map_values(|l: String| l@) + (if done {
                Seq::<Seq<char>>::empty()
            } else {
                lines_of(s@.subrange(pos as int, n as int))
            }),
        decreases n - pos + (if done { 0int } else { 1int }),
    {
        let ghost rem = s@.subrange(pos as int, n as int);
        proof {
            lemma_index_of_char(rem, '\n');
        }
        let rest = substring(s, pos, n);
        let i = find_char(rest.as_str(), '\n');
        let raw = substring(rest.as_str(), 0, i);
        let raw_len = i;
        let line: String = if raw_len > 0 && raw.as_str().get_char(raw_len - 1) == '\r' {
            substring(raw.as_str(), 0, raw_len - 1)
        } else {
            raw
        };
        proof {
            assert(line@ == strip_cr(rem.subrange(0, i as int)));
        }
        let ghost prev = out@;
        out.push(line);
        proof {
            assert(out@.map_values(|l: String| l@)
                =~= prev.map_values(|l: String| l@).push(line@));
        }
        if i == n - pos {
            done = true;
            pos = n;
            proof {
                assert(lines_of(rem) =~= seq![line@]);
                assert(prev.map_values(|l: String| l@) + lines_of(rem)
                    =~= out@.map_values(|l: String| l@));
            }
        } else {
            pos = pos + i + 1;
            if pos == n {
                done = true;
            }
            proof {
                assert(rem.subrange(i + 1, rem.len() as int)
                    =~= s@.subrange(pos as int, n as int));
                assert(lines_of(rem)
                    =~= seq![line@] + lines_of(s@.subrange(pos as int, n as int)));
                if done {
                    assert(s@.subrange(pos as int, n as int) =~= Seq::<char>::empty());
                    assert(lines_of(s@.subrange(pos as int, n as int))
                        =~= Seq::<Seq<char>>::empty());
                }
                assert(prev.map_values(|l: String| l@) + lines_of(rem)
                    =~= out@.map_values(|l: String| l@)
                        + lines_of(s@.subrange(pos as int, n as int)));
            }
        }
    }
    out
}

/// The value one line assigns for the prefix, or `None`.
pub fn line_assignment(line: &String, prefix: &str) -> (r: Option<String>)
    ensures
        opt_chars(r) == assignment_value(line@, prefix@),
{
    if starts_with(line.as_str(), prefix) {
        let line_len = line.as_str().unicode_len();
        let prefix_len = prefix.unicode_len();
        let rest = substring(line.as_str(), prefix_len, line_len);
        proof {
            lemma_index_of_char(rest@, ';');
        }
        let rest_len = line_len - prefix_len;
        let semi = find_char(rest.as_str(), ';');
        Some(substring(rest.as_str(), 0, semi))
    } else {
        None
    }
}

/// The last assignment of the prefix over all lines of the agent's output.
#[verifier::loop_isolation(false)]
pub fn parse_env_value(output: &str, prefix: &str) -> (r: Option<String>)
    ensures
        opt_chars(r) == last_assignment(lines_of(output@), prefix@),
{
    let lines = split_lines(output);
    let ghost all = lines_of(output@);
    proof {
        assert(all.subrange(0, all.len() as int) =~= all);
    }
    let mut i: usize = lines.len();
    while i > 0
        invariant
            0 <= i <= lines.len(),
            lines@.len() == all.len(),
            forall|j: int| 0 <= j < all.len() ==> lines@[j]@ == all[j],
            last_assignment(all, prefix@) == last_assignment(all.subrange(0, i as int), prefix@),
        decreases i,
    {
        i = i - 1;
        let v = line_assignment(&lines[i], prefix);
        proof {
            let cur = all.subrange(0, i + 1);
            assert(cur.last() == all[i as int]);
            assert(cur.drop_last() =~= all.subrange(0, i as int));
        }
        if let Some(value) = v {
            return Some(value);
        }
    }
    proof {
        assert(all.subrange(0, 0) =~= Seq::<Seq<char>>::empty());
    }
    None
}

/// The prefix of the agent's socket assignment.
pub open spec fn sock_prefix() -> Seq<char> {
    "SSH_AUTH_SOCK="@
}

/// The prefix of the agent's process-id assignment.
pub open spec fn pid_prefix() -> Seq<char> {
    "SSH_AGENT_PID="@
}

/// Why the key agent could not be had, or could not be put away.
#[derive(Debug)]
pub enum CredentialAgentError {
    /// The agent process reported a nonzero exit.
    SpawnFailed,
    /// The agent's output carried no process-id assignment: nothing to tear
    /// down later, nothing usable now.
    MissingPid,
    /// The identity-add subprocess exited nonzero. Teardown is still owed.
    IdentityAddFailed,
}

/// The scoped key agent: the environment overlay its subprocesses run under,
/// whether its identity was added, and whether its teardown has run.
#[derive(Debug)]
pub struct SshAgent {
    pub auth_sock: Option<String>,
    pub agent_pid: Option<String>,
    pub ssh_opts: Option<String>,
    /// Whether the identity was added; commands should only run once it was.
    pub identity_added: bool,
    /// Whether teardown has run. It is owed exactly once: construction
    /// leaves this false, `begin_teardown` demands it false and sets it.
    pub torn_down: bool,
}

/// What can happen to a constructed agent over its life.
pub enum AgentEvent {
    /// The option string was set.
    AddOpts(String),
    /// The identity-add subprocess exited, zero or not.
    ConfirmIdentity(bool),
    /// Teardown was booked.
    BeginTeardown,
}

impl SshAgent {
    /// Whether teardown may still run: exactly until it has run once.
    pub open spec fn teardown_allowed(self) -> bool {
        !self.torn_down
    }

    /// The whole transition relation of a constructed agent. A teardown asked
    /// for when none is allowed changes nothing — and the interface never
    /// asks for one.
    pub open spec fn step(self, ev: AgentEvent) -> SshAgent {
        match ev {
            AgentEvent::AddOpts(opts) => SshAgent { ssh_opts: Some(opts), ..self },
            AgentEvent::ConfirmIdentity(ok) => SshAgent { identity_added: ok, ..self },
            AgentEvent::BeginTeardown => if self.teardown_allowed() {
                SshAgent { torn_down: true, ..self }
            } else {
                self
            },
        }
    }

    /// Reads the agent's start-up output. Construction fails without a
    /// process-id assignment, and on a nonzero agent exit; it succeeds
    /// otherwise, with teardown owed and no identity added yet.
    pub fn from_agent_output(output: &str, spawn_exit_ok: bool) -> (r: Result<
        SshAgent,
        CredentialAgentError,
    >)
        ensures
            r is Ok <==> (last_assignment(lines_of(output@), pid_prefix()) is Some
                && spawn_exit_ok),
            last_assignment(lines_of(output@), pid_prefix()) is None
                ==> r matches Err(CredentialAgentError::MissingPid),
            last_assignment(lines_of(output@), pid_prefix()) is Some && !spawn_exit_ok
                ==> r matches Err(CredentialAgentError::SpawnFailed),
            r matches Ok(a) ==> {
                &&& opt_chars(a.agent_pid)
                    == last_assignment(lines_of(output@), pid_prefix())
                &&& opt_chars(a.auth_sock)
                    == last_assignment(lines_of(output@), sock_prefix())
                &&& a.ssh_opts is None
                &&& !a.identity_added
                &&& !a.torn_down
            },
    {
        let pid = parse_env_value(output, "SSH_AGENT_PID=");
        match pid {
            None => Err(CredentialAgentError::MissingPid),
            Some(pid_value) => {
                if !spawn_exit_ok {
                    Err(CredentialAgentError::SpawnFailed)
                } else {
                    let sock = parse_env_value(output, "SSH_AUTH_SOCK=");
                    Ok(SshAgent {
                        auth_sock: sock,
                        agent_pid: Some(pid_value),
                        ssh_opts: None,
                        identity_added: false,
                        torn_down: false,
                    })
                }
            },
        }
    }

    /// Books the identity-add subprocess's exit: on zero the agent is ready;
    /// on nonzero it is not, and teardown stays owed either way.
    pub fn confirm_identity_added(&mut self, add_exit_ok: bool) -> (r: Result<
        (),
        CredentialAgentError,
    >)
        ensures
            r is Ok <==> add_exit_ok,
            !add_exit_ok ==> r matches Err(CredentialAgentError::IdentityAddFailed),
            *final(self) == old(self).step(AgentEvent::ConfirmIdentity(add_exit_ok)),
            final(self).torn_down == old(self).torn_down,
    {
        if add_exit_ok {
            self.identity_added = true;
            Ok(())
        } else {
            self.identity_added = false;
            Err(CredentialAgentError::IdentityAddFailed)
        }
    }

    /// Adds the option string later subprocesses get, overriding any earlier
    /// one.
    pub fn add_ssh_opts(&mut self, opts: String)
        ensures
            *final(self) == old(self).step(AgentEvent::AddOpts(opts)),
            final(self).ssh_opts == Some(opts),
            final(self).torn_down == old(self).torn_down,
    {
        self.ssh_opts = Some(opts);
    }

    /// The environment overlay, as pairs in a fixed order: the socket, the
    /// process id, then the options, each only where present.
    pub fn env_pairs(&self) -> (r: Vec<(String, String)>)
        ensures
            r@.map_values(|p: (String, String)| (p.0@, p.1@)) == env_pairs_chars(*self),
    {
        let mut out: Vec<(String, String)> = Vec::new();
        if let Some(sock) = &self.auth_sock {
            out.push(("SSH_AUTH_SOCK".to_owned(), sock.clone()));
        }
        if let Some(pid) = &self.agent_pid {
            out.push(("SSH_AGENT_PID".to_owned(), pid.clone()));
        }
        if let Some(opts) = &self.ssh_opts {
            out.push(("NIX_SSHOPTS".to_owned(), opts.clone()));
        }
        proof {
            assert(out@.map_values(|p: (String, String)| (p.0@, p.1@))
                =~= env_pairs_chars(*self));
        }
        out
    }

    /// Books the one teardown. It can be asked for only while it has not run;
    /// afterwards it can never be asked for again.
    pub fn begin_teardown(&mut self)
        requires
            old(self).teardown_allowed(),
        ensures
            *final(self) == old(self).step(AgentEvent::BeginTeardown),
            final(self).torn_down,
            !final(self).teardown_allowed(),
    {
        self.torn_down = true;
    }

    /// The shell snippet an operator needs to put the agent away by hand,
    /// one line per overlay entry.
    pub fn cleanup_hint(&self) -> (r: String)
        ensures
            r@ == cleanup_hint_chars(*self),
    {
        let mut out = String::new();
        if let Some(sock) = &self.auth_sock {
            let line = hint_line("SSH_AUTH_SOCK", sock.as_str());
            out.append(line.as_str());
        }
        if let Some(pid) = &self.agent_pid {
            let line = hint_line("SSH_AGENT_PID", pid.as_str());
            out.append(line.as_str());
        }
        if let Some(opts) = &self.ssh_opts {
            let line = hint_line("NIX_SSHOPTS", opts.as_str());
            out.append(line.as_str());
        }
        proof {
            assert(out@ =~= cleanup_hint_chars(*self));
        }
        out
    }
}

/// The overlay as pairs of key and value text.
pub open spec fn env_pairs_chars(a: SshAgent) -> Seq<(Seq<char>, Seq<char>)> {
    opt_pair("SSH_AUTH_SOCK"@, a.auth_sock)
    + opt_pair("SSH_AGENT_PID"@, a.agent_pid)
    + opt_pair("NIX_SSHOPTS"@, a.ssh_opts)
}

/// One optional overlay pair.
pub open spec fn opt_pair(key: Seq<char>, v: Option<String>) -> Seq<(Seq<char>, Seq<char>)> {
    match v {
        None => Seq::<(Seq<char>, Seq<char>)>::empty(),
        Some(s) => seq![(key, s@)],
    }
}

/// One line of the operator hint.
pub open spec fn hint_line_chars(key: Seq<char>, value: Seq<char>) -> Seq<char> {
    "\t"@ + key + "="@ + value + "; export "@ + key + ";\n"@
}

/// The whole operator hint: one line per overlay entry, in overlay order.
pub open spec fn cleanup_hint_chars(a: SshAgent) -> Seq<char> {
    opt_hint_line("SSH_AUTH_SOCK"@, a.auth_sock)
    + opt_hint_line("SSH_AGENT_PID"@, a.agent_pid)
    + opt_hint_line("NIX_SSHOPTS"@, a.ssh_opts)
}

/// One optional hint line.
pub open spec fn opt_hint_line(key: Seq<char>, v: Option<String>) -> Seq<char> {
    match v {
        None => Seq::<char>::empty(),
        Some(s) => hint_line_chars(key, s@),
    }
}

/// Builds one line of the operator hint.
fn hint_line(key: &str, value: &str) -> (r: String)
    ensures
        r@ == hint_line_chars(key@, value@),
{
    let mut out = "\t".to_owned();
    out.append(key);
    out.append("=");
    out.append(value);
    out.append("; export ");
    out.append(key);
    out.append(";\n");
    proof {
        assert(out@ =~= hint_line_chars(key@, value@));
    }
    out
}

/// How the teardown attempt itself went, for the exit-code policy: a missing
/// process id is its own distinct outcome.
#[derive(Debug)]
pub enum TeardownOutcome {
    /// The kill ran and exited zero.
    Clean,
    /// The kill subprocess could not be started at all.
    KillLaunchFailed,
    /// The kill ran and exited nonzero: the operator hint applies.
    KillExitedNonzero,
    /// There was no process id to kill: the distinct unrecoverable outcome.
    NoPid,
}

/// Classifies a teardown attempt. Cleanup is never retried: one attempt, one
/// report.
pub fn teardown_report(a: &SshAgent, kill_ran: bool, kill_exit_ok: bool) -> (r: TeardownOutcome)
    ensures
        a.agent_pid is None <==> r is NoPid,
        a.agent_pid is Some && !kill_ran <==> r is KillLaunchFailed,
        a.agent_pid is Some && kill_ran && !kill_exit_ok <==> r is KillExitedNonzero,
        a.agent_pid is Some && kill_ran && kill_exit_ok <==> r is Clean,
{
    if a.agent_pid.is_none() {
        TeardownOutcome::NoPid
    } else if !kill_ran {
        TeardownOutcome::KillLaunchFailed
    } else if !kill_exit_ok {
        TeardownOutcome::KillExitedNonzero
    } else {
        TeardownOutcome::Clean
    }
}

/// The agent run over a whole trace of events.
pub open spec fn run_agent(a: SshAgent, evs: Seq<AgentEvent>) -> SshAgent
    decreases evs.len(),
{
    if evs.len() == 0 {
        a
    } else {
        run_agent(a.step(evs[0]), evs.drop_first())
    }
}

/// How many events of a trace actually tear the agent down.
pub open spec fn teardowns_spent(a: SshAgent, evs: Seq<AgentEvent>) -> nat
    decreases evs.len(),
{
    if evs.len() == 0 {
        0
    } else {
        (if !a.torn_down && a.step(evs[0]).torn_down {
            1nat
        } else {
            0nat
        }) + teardowns_spent(a.step(evs[0]), evs.drop_first())
    }
}

/// An agent already torn down is never torn down again, on any trace.
pub proof fn lemma_no_second_teardown(a: SshAgent, evs: Seq<AgentEvent>)
    requires
        a.torn_down,
    ensures
        teardowns_spent(a, evs) == 0,
        run_agent(a, evs).torn_down,
    decreases evs.len(),
{
    if evs.len() > 0 {
        lemma_no_second_teardown(a.step(evs[0]), evs.drop_first());
    }
}

/// Teardown runs exactly once per construction: on every trace of events
/// from a freshly constructed agent — error paths included — the teardown is
/// spent exactly once if the trace tears the agent down, and never twice.
pub proof fn lemma_teardown_exactly_once(a: SshAgent, evs: Seq<AgentEvent>)
    requires
        !a.torn_down,
    ensures
        teardowns_spent(a, evs) <= 1,
        teardowns_spent(a, evs) == 1 <==> run_agent(a, evs).torn_down,
    decreases evs.len(),
{
    if evs.len() > 0 {
        let next = a.step(evs[0]);
        if next.torn_down {
            lemma_no_second_teardown(next, evs.drop_first());
        } else {
            lemma_teardown_exactly_once(next, evs.drop_first());
        }
    }
}

} // verus!
