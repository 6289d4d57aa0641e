//! Privileged subprocess invocation as a small machine: spawn with a piped
//! input, then — only once the spawn has succeeded — start the one writer
//! that feeds the credential into the pipe, and join writer and child
//! independently. The writer is decoupled from the wait so that a child that
//! produces output before reading its input cannot deadlock the caller; a
//! writer failure is reported distinctly from the child's exit, even when the
//! child exits cleanly.

use vstd::prelude::*;

verus! {

/// How the invocation ended.
#[derive(Clone, Copy, Debug, PartialEq, Eq, Structural)]
pub enum PrivOutcome {
    /// The child exited zero and the credential write went through.
    Success,
    /// The child exited with this nonzero code.
    NonZero(i32),
    /// The child could not be spawned, or could not be waited for.
    LaunchFailure,
    /// The credential write failed — a broken pipe, say — whatever the child
    /// then did.
    WriterFailure,
}

/// Where the invocation stands.
#[derive(Clone, Copy, Debug, PartialEq, Eq, Structural)]
pub enum PrivPhase {
    /// Nothing has happened yet.
    Created,
    /// The child is running with its input pipe open; the writer is owed now.
    Spawned,
    /// The writer is running; writer and child are owed a join.
    WriterStarted,
    /// Terminal.
    Finished(PrivOutcome),
}

/// What the driver reports to the machine.
#[derive(Clone, Copy, Debug, PartialEq, Eq, Structural)]
pub enum PrivEvent {
    /// Whether the spawn succeeded.
    Spawn(bool),
    /// The writer was started.
    StartWriter,
    /// Both joins: whether the credential write went through, and the
    /// child's exit code, `None` when the wait itself failed.
    Join(bool, Option<i32>),
}

/// The invocation machine: its phase, and whether its spawn ever succeeded.
#[derive(Clone, Copy, Debug, PartialEq, Eq, Structural)]
pub struct PrivilegedExec {
    pub phase: PrivPhase,
    pub spawn_succeeded: bool,
}

/// The outcome the joins determine: a failed write wins over everything the
/// child did; then a failed wait; then the exit code, zero alone meaning
/// success.
pub open spec fn join_outcome(writer_ok: bool, child_exit: Option<i32>) -> PrivOutcome {
    if !writer_ok {
        PrivOutcome::WriterFailure
    } else {
        match child_exit {
            None => PrivOutcome::LaunchFailure,
            Some(code) => if code == 0 {
                PrivOutcome::Success
            } else {
                PrivOutcome::NonZero(code)
            },
        }
    }
}

/// The machine as it starts.
pub open spec fn initial_privileged_exec() -> PrivilegedExec {
    PrivilegedExec { phase: PrivPhase::Created, spawn_succeeded: false }
}

impl PrivilegedExec {
    /// The phase agrees with the spawn record: past the spawn, and on every
    /// outcome the writer can be involved in, the spawn had succeeded.
    pub open spec fn wf(self) -> bool {
        &&& (self.phase is Spawned ==> self.spawn_succeeded)
        &&& (self.phase is WriterStarted ==> self.spawn_succeeded)
        &&& (self.phase is Created ==> !self.spawn_succeeded)
        &&& (self.phase == PrivPhase::Finished(PrivOutcome::WriterFailure)
            ==> self.spawn_succeeded)
        &&& (self.phase == PrivPhase::Finished(PrivOutcome::Success) ==> self.spawn_succeeded)
        &&& (self.phase matches PrivPhase::Finished(PrivOutcome::NonZero(_))
            ==> self.spawn_succeeded)
    }

    /// Whether the machine has stopped.
    pub open spec fn is_terminal(self) -> bool {
        self.phase is Finished
    }

    /// The whole transition relation: an event that does not belong to the
    /// current phase changes nothing.
    pub open spec fn step(self, ev: PrivEvent) -> PrivilegedExec {
        match ev {
            PrivEvent::Spawn(ok) => {
                if self.phase is Created {
                    if ok {
                        PrivilegedExec { phase: PrivPhase::Spawned, spawn_succeeded: true }
                    } else {
                        PrivilegedExec {
                            phase: PrivPhase::Finished(PrivOutcome::LaunchFailure),
                            spawn_succeeded: false,
                        }
                    }
                } else {
                    self
                }
            },
            PrivEvent::StartWriter => {
                if self.phase is Spawned {
                    PrivilegedExec { phase: PrivPhase::WriterStarted, ..self }
                } else {
                    self
                }
            },
            PrivEvent::Join(writer_ok, child_exit) => {
                if self.phase is WriterStarted {
                    PrivilegedExec {
                        phase: PrivPhase::Finished(join_outcome(writer_ok, child_exit)),
                        ..self
                    }
                } else {
                    self
                }
            },
        }
    }

    /// A fresh machine, its spawn owed.
    pub fn new() -> (r: PrivilegedExec)
        ensures
            r == initial_privileged_exec(),
            r.wf(),
    {
        PrivilegedExec { phase: PrivPhase::Created, spawn_succeeded: false }
    }

    /// Books the spawn. On failure the machine is terminal at once: no
    /// writer is ever started for a child that never ran.
    pub fn on_spawn(&mut self, ok: bool)
        requires
            old(self).wf(),
            old(self).phase is Created,
        ensures
            *final(self) == old(self).step(PrivEvent::Spawn(ok)),
            final(self).wf(),
            ok ==> final(self).phase is Spawned,
            !ok ==> final(self).phase == PrivPhase::Finished(PrivOutcome::LaunchFailure),
    {
        if ok {
            self.phase = PrivPhase::Spawned;
            self.spawn_succeeded = true;
        } else {
            self.phase = PrivPhase::Finished(PrivOutcome::LaunchFailure);
        }
    }

    /// Books the start of the credential writer. It can be asked for only in
    /// the spawned phase: never before the spawn, never after a failed one.
    pub fn start_writer(&mut self)
        requires
            old(self).wf(),
            old(self).phase is Spawned,
        ensures
            *final(self) == old(self).step(PrivEvent::StartWriter),
            final(self).wf(),
            final(self).phase is WriterStarted,
    {
        self.phase = PrivPhase::WriterStarted;
    }

    /// Books both joins and decides the outcome.
    pub fn on_join(&mut self, writer_ok: bool, child_exit: Option<i32>)
        requires
            old(self).wf(),
            old(self).phase is WriterStarted,
        ensures
            *final(self) == old(self).step(PrivEvent::Join(writer_ok, child_exit)),
            final(self).wf(),
            final(self).phase == PrivPhase::Finished(join_outcome(writer_ok, child_exit)),
            !writer_ok ==> final(self).phase == PrivPhase::Finished(PrivOutcome::WriterFailure),
    {
        let outcome: PrivOutcome = if !writer_ok {
            PrivOutcome::WriterFailure
        } else {
            match child_exit {
                None => PrivOutcome::LaunchFailure,
                Some(code) => if code == 0 {
                    PrivOutcome::Success
                } else {
                    PrivOutcome::NonZero(code)
                },
            }
        };
        self.phase = PrivPhase::Finished(outcome);
    }
}

/// The machine run over a whole trace of events.
pub open spec fn run_privileged(m: PrivilegedExec, evs: Seq<PrivEvent>) -> PrivilegedExec
    decreases evs.len(),
{
    if evs.len() == 0 {
        m
    } else {
        run_privileged(m.step(evs[0]), evs.drop_first())
    }
}

/// One step keeps the machine well formed, and a terminal machine is fixed.
pub proof fn lemma_privileged_step_wf(m: PrivilegedExec, ev: PrivEvent)
    requires
        m.wf(),
    ensures
        m.step(ev).wf(),
        m.is_terminal() ==> m.step(ev) == m,
{
}

/// On every trace from the start, the writer runs only after a successful
/// spawn, and a writer failure is only ever reported for a child that was
/// spawned: no trace reaches the writer, or blames it, without the spawn.
pub proof fn lemma_writer_only_after_spawn(evs: Seq<PrivEvent>)
    ensures
        ({
            let end = run_privileged(initial_privileged_exec(), evs);
            &&& end.wf()
            &&& (end.phase is WriterStarted ==> end.spawn_succeeded)
            &&& (end.phase == PrivPhase::Finished(PrivOutcome::WriterFailure)
                ==> end.spawn_succeeded)
        }),
{
    lemma_run_privileged_wf(initial_privileged_exec(), evs);
}

/// Well-formedness holds along every trace.
pub proof fn lemma_run_privileged_wf(m: PrivilegedExec, evs: Seq<PrivEvent>)
    requires
        m.wf(),
    ensures
        run_privileged(m, evs).wf(),
    decreases evs.len(),
{
    if evs.len() > 0 {
        lemma_privileged_step_wf(m, evs[0]);
        lemma_run_privileged_wf(m.step(evs[0]), evs.drop_first());
    }
}

} // verus!
