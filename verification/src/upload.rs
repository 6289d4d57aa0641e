//! The upload recovery state machine: try the upsert once; on the one status
//! that means "artifact bytes not reachable yet" push the closure and try
//! exactly once more; any other failure, or a second miss, is terminal. The
//! exchanges and the push run outside; the machine decides, and is bounded to
//! two attempts and one push on every trace.

use vstd::prelude::*;

verus! {

use vstd::string::StringExecFns;
use crate::num::{int_dec_digits, i32_to_dec};
use crate::transport::{ParsedResponse, TransportError};

/// Why an upload attempt did not succeed.
#[derive(Debug)]
pub enum UploadReqError {
    /// A message for the operator: the server refused, or the exchange failed.
    Comment(String),
    /// The registry answered 404: it does not accept the record before the
    /// artifact bytes are reachable in the shared cache.
    StoreHashNotFound,
}

/// The message when the server accepted the record.
pub open spec fn upload_ok_chars(body: Seq<char>) -> Seq<char> {
    "Derivation uploaded successfully! (server response: "@ + body + ")"@
}

/// The message when the server refused with some status other than 200 or
/// 404: its code, its status message, and its body.
pub open spec fn upload_rejected_chars(code: int, message: Seq<char>, body: Seq<char>) -> Seq<char> {
    "ERROR: failed to upload derivation; "@ + int_dec_digits(code) + " "@ + message
    + "\n\t"@ + body
}

/// The message when the registry could not be reached at all.
pub open spec fn upload_unreachable_chars() -> Seq<char> {
    "ERROR: could not reach the registry"@
}

/// The message when the response status line could not be parsed.
pub open spec fn upload_protocol_chars() -> Seq<char> {
    "ERROR: malformed status line in the registry's response"@
}

/// Classifies the outcome of one upsert exchange. Status 200 is the one
/// success; 404 alone asks for a closure push; every other status, and every
/// transport failure, is a terminal comment. 404 is thereby distinguished
/// from all other non-200 codes.
pub fn make_upload_req(res: &Result<ParsedResponse, TransportError>) -> (r: Result<
    String,
    UploadReqError,
>)
    ensures
        r is Ok <==> (res matches Ok(p) && p.status.status_code == 200),
        res matches Ok(p) ==> {
            if p.status.status_code == 200 {
                r matches Ok(m) && m@ == upload_ok_chars(p.body@)
            } else if p.status.status_code == 404 {
                r matches Err(UploadReqError::StoreHashNotFound)
            } else {
                r matches Err(UploadReqError::Comment(m)) && m@ == upload_rejected_chars(
                    p.status.status_code as int,
                    p.status.status_message@,
                    p.body@,
                )
            }
        },
        res is Err ==> !(r matches Err(UploadReqError::StoreHashNotFound)),
        res matches Err(e) ==> (r matches Err(UploadReqError::Comment(m)) && m@ == (match e {
            TransportError::Unreachable => upload_unreachable_chars(),
            TransportError::Protocol => upload_protocol_chars(),
        })),
{
    match res {
        Ok(p) => {
            if p.status.success() {
                let mut m = "Derivation uploaded successfully! (server response: ".to_owned();
                m.append(p.body.as_str());
                m.append(")");
                proof {
                    assert(m@ =~= upload_ok_chars(p.body@));
                }
                Ok(m)
            } else if p.status.status_code == 404 {
                Err(UploadReqError::StoreHashNotFound)
            } else {
                let mut m = "ERROR: failed to upload derivation; ".to_owned();
                let code = i32_to_dec(p.status.status_code);
                m.append(code.as_str());
                m.append(" ");
                m.append(p.status.status_message.as_str());
                m.append("\n\t");
                m.append(p.body.as_str());
                proof {
                    assert(m@ =~= upload_rejected_chars(
                        p.status.status_code as int,
                        p.status.status_message@,
                        p.body@,
                    ));
                }
                Err(UploadReqError::Comment(m))
            }
        },
        Err(TransportError::Unreachable) => {
            Err(UploadReqError::Comment("ERROR: could not reach the registry".to_owned()))
        },
        Err(TransportError::Protocol) => {
            Err(UploadReqError::Comment(
                "ERROR: malformed status line in the registry's response".to_owned(),
            ))
        },
    }
}

/// One upsert exchange, reduced to what the machine branches on.
#[derive(Clone, Copy, Debug, PartialEq, Eq, Structural)]
pub enum UploadOutcomeKind {
    /// Status 200.
    Accepted,
    /// Status 404: the artifact is not reachable yet.
    Missing,
    /// Any other status, or a transport failure.
    Rejected,
}

/// Reduces a classified upload result to the kind the machine branches on.
pub fn outcome_kind(r: &Result<String, UploadReqError>) -> (k: UploadOutcomeKind)
    ensures
        k is Accepted <==> r is Ok,
        k is Missing <==> r matches Err(UploadReqError::StoreHashNotFound),
        k is Rejected <==> r matches Err(UploadReqError::Comment(_)),
{
    match r {
        Ok(_) => UploadOutcomeKind::Accepted,
        Err(UploadReqError::StoreHashNotFound) => UploadOutcomeKind::Missing,
        Err(UploadReqError::Comment(_)) => UploadOutcomeKind::Rejected,
    }
}

/// Why the machine stopped without success.
#[derive(Clone, Copy, Debug, PartialEq, Eq, Structural)]
pub enum UploadFailure {
    /// The server refused, or the exchange failed; the operator message came
    /// with the attempt's classification.
    Rejected,
    /// The closure push exited nonzero.
    PushFailed,
    /// The registry still answered 404 after the push: a distinct terminal
    /// failure, never a further attempt.
    StillMissing,
}

/// Where the upload stands.
#[derive(Clone, Copy, Debug, PartialEq, Eq, Structural)]
pub enum UploadState {
    /// The first upsert is owed.
    TryUpload,
    /// The first upsert answered 404: a closure push is owed.
    PushClosure,
    /// The push succeeded: the one retry is owed.
    RetryUpload,
    /// A 200 arrived.
    Success,
    /// Terminal failure.
    Fail(UploadFailure),
}

/// What the machine asks its driver to do next.
#[derive(Clone, Copy, Debug, PartialEq, Eq, Structural)]
pub enum UploadAction {
    /// Send the upsert request and report the exchange.
    Upload,
    /// Push the closure and report whether it exited zero.
    Push,
    /// Nothing: the machine is terminal.
    Done,
}

/// The upload machine: its state and how many attempts and pushes it has
/// spent.
#[derive(Clone, Copy, Debug, PartialEq, Eq, Structural)]
pub struct UploadMachine {
    pub state: UploadState,
    pub attempts: u8,
    pub pushes: u8,
}

/// What the machine is fed.
#[derive(Clone, Copy, Debug, PartialEq, Eq, Structural)]
pub enum UploadEvent {
    /// The classified outcome of one upsert exchange.
    Response(UploadOutcomeKind),
    /// Whether the closure push exited zero.
    Push(bool),
}

/// The machine as it starts.
pub open spec fn initial_upload_machine() -> UploadMachine {
    UploadMachine { state: UploadState::TryUpload, attempts: 0, pushes: 0 }
}

impl UploadMachine {
    /// The counters agree with the state.
    pub open spec fn wf(self) -> bool {
        &&& self.attempts <= 2
        &&& self.pushes <= 1
        &&& (self.state is TryUpload ==> self.attempts == 0 && self.pushes == 0)
        &&& (self.state is PushClosure ==> self.attempts == 1 && self.pushes == 0)
        &&& (self.state is RetryUpload ==> self.attempts == 1 && self.pushes == 1)
        &&& (self.state is Success || self.state is Fail ==> self.attempts >= 1)
    }

    /// Whether the machine has stopped.
    pub open spec fn is_terminal(self) -> bool {
        self.state is Success || self.state is Fail
    }

    /// The whole transition relation, as one function: an event that does not
    /// belong to the current state changes nothing.
    pub open spec fn step(self, ev: UploadEvent) -> UploadMachine {
        match ev {
            UploadEvent::Response(k) => {
                if self.state is TryUpload {
                    match k {
                        UploadOutcomeKind::Accepted => UploadMachine {
                            state: UploadState::Success,
                            attempts: (self.attempts + 1) as u8,
                            ..self
                        },
                        UploadOutcomeKind::Missing => UploadMachine {
                            state: UploadState::PushClosure,
                            attempts: (self.attempts + 1) as u8,
                            ..self
                        },
                        UploadOutcomeKind::Rejected => UploadMachine {
                            state: UploadState::Fail(UploadFailure::Rejected),
                            attempts: (self.attempts + 1) as u8,
                            ..self
                        },
                    }
                } else if self.state is RetryUpload {
                    match k {
                        UploadOutcomeKind::Accepted => UploadMachine {
                            state: UploadState::Success,
                            attempts: (self.attempts + 1) as u8,
                            ..self
                        },
                        UploadOutcomeKind::Missing => UploadMachine {
                            state: UploadState::Fail(UploadFailure::StillMissing),
                            attempts: (self.attempts + 1) as u8,
                            ..self
                        },
                        UploadOutcomeKind::Rejected => UploadMachine {
                            state: UploadState::Fail(UploadFailure::Rejected),
                            attempts: (self.attempts + 1) as u8,
                            ..self
                        },
                    }
                } else {
                    self
                }
            },
            UploadEvent::Push(ok) => {
                if self.state is PushClosure {
                    if ok {
                        UploadMachine {
                            state: UploadState::RetryUpload,
                            pushes: (self.pushes + 1) as u8,
                            ..self
                        }
                    } else {
                        UploadMachine { state: UploadState::Fail(UploadFailure::PushFailed), ..self }
                    }
                } else {
                    self
                }
            },
        }
    }

    /// A fresh machine, its first upsert owed.
    pub fn new() -> (r: UploadMachine)
        ensures
            r == initial_upload_machine(),
            r.wf(),
    {
        UploadMachine { state: UploadState::TryUpload, attempts: 0, pushes: 0 }
    }

    /// What the driver owes the machine next.
    pub fn next_action(&self) -> (a: UploadAction)
        ensures
            a is Upload <==> (self.state is TryUpload || self.state is RetryUpload),
            a is Push <==> self.state is PushClosure,
            a is Done <==> self.is_terminal(),
    {
        match self.state {
            UploadState::TryUpload => UploadAction::Upload,
            UploadState::RetryUpload => UploadAction::Upload,
            UploadState::PushClosure => UploadAction::Push,
            UploadState::Success => UploadAction::Done,
            UploadState::Fail(_) => UploadAction::Done,
        }
    }

    /// Feeds the machine the classified outcome of the upsert it asked for.
    pub fn on_upload_outcome(&mut self, k: UploadOutcomeKind)
        requires
            old(self).wf(),
            old(self).state is TryUpload || old(self).state is RetryUpload,
        ensures
            *final(self) == old(self).step(UploadEvent::Response(k)),
            final(self).wf(),
    {
        let next: UploadState = match (self.state, k) {
            (UploadState::TryUpload, UploadOutcomeKind::Accepted) => UploadState::Success,
            (UploadState::TryUpload, UploadOutcomeKind::Missing) => UploadState::PushClosure,
            (UploadState::TryUpload, UploadOutcomeKind::Rejected) => UploadState::Fail(
                UploadFailure::Rejected,
            ),
            (_, UploadOutcomeKind::Accepted) => UploadState::Success,
            (_, UploadOutcomeKind::Missing) => UploadState::Fail(UploadFailure::StillMissing),
            (_, UploadOutcomeKind::Rejected) => UploadState::Fail(UploadFailure::Rejected),
        };
        self.state = next;
        self.attempts = self.attempts + 1;
    }

    /// Feeds the machine the outcome of the push it asked for.
    pub fn on_push_outcome(&mut self, ok: bool)
        requires
            old(self).wf(),
            old(self).state is PushClosure,
        ensures
            *final(self) == old(self).step(UploadEvent::Push(ok)),
            final(self).wf(),
    {
        if ok {
            self.state = UploadState::RetryUpload;
            self.pushes = self.pushes + 1;
        } else {
            self.state = UploadState::Fail(UploadFailure::PushFailed);
        }
    }
}

/// The machine run over a whole trace of events.
pub open spec fn run_upload(m: UploadMachine, evs: Seq<UploadEvent>) -> UploadMachine
    decreases evs.len(),
{
    if evs.len() == 0 {
        m
    } else {
        run_upload(m.step(evs[0]), evs.drop_first())
    }
}

/// One step keeps the machine well formed, and a terminal machine is fixed:
/// no event moves it.
pub proof fn lemma_upload_step_wf(m: UploadMachine, ev: UploadEvent)
    requires
        m.wf(),
    ensures
        m.step(ev).wf(),
        m.is_terminal() ==> m.step(ev) == m,
{
}

/// On every trace from the start, the machine spends at most two upload
/// attempts and one push: there is no third attempt, whatever arrives.
pub proof fn lemma_upload_bounded(m: UploadMachine, evs: Seq<UploadEvent>)
    requires
        m.wf(),
    ensures
        run_upload(m, evs).wf(),
        run_upload(m, evs).attempts <= 2,
        run_upload(m, evs).pushes <= 1,
    decreases evs.len(),
{
    if evs.len() > 0 {
        lemma_upload_step_wf(m, evs[0]);
        lemma_upload_bounded(m.step(evs[0]), evs.drop_first());
    }
}

/// A terminal machine stays exactly as it is on every further trace.
pub proof fn lemma_upload_terminal_stable(m: UploadMachine, evs: Seq<UploadEvent>)
    requires
        m.wf(),
        m.is_terminal(),
    ensures
        run_upload(m, evs) == m,
    decreases evs.len(),
{
    if evs.len() > 0 {
        lemma_upload_step_wf(m, evs[0]);
        lemma_upload_terminal_stable(m.step(evs[0]), evs.drop_first());
    }
}

/// The recovery round trip: a first 404, a successful push, then a 200 end in
/// success after exactly two attempts and one push.
pub proof fn lemma_upload_retry_roundtrip()
    ensures
        ({
            let trace = seq![
                UploadEvent::Response(UploadOutcomeKind::Missing),
                UploadEvent::Push(true),
                UploadEvent::Response(UploadOutcomeKind::Accepted),
            ];
            let end = run_upload(initial_upload_machine(), trace);
            end.state is Success && end.attempts == 2 && end.pushes == 1
        }),
{
    let trace = seq![
        UploadEvent::Response(UploadOutcomeKind::Missing),
        UploadEvent::Push(true),
        UploadEvent::Response(UploadOutcomeKind::Accepted),
    ];
    let m0 = initial_upload_machine();
    let t1 = trace.drop_first();
    let t2 = t1.drop_first();
    let t3 = t2.drop_first();
    let m1 = m0.step(trace[0]);
    let m2 = m1.step(t1[0]);
    let m3 = m2.step(t2[0]);
    assert(run_upload(m0, trace) == run_upload(m1, t1));
    assert(run_upload(m1, t1) == run_upload(m2, t2));
    assert(run_upload(m2, t2) == run_upload(m3, t3));
    assert(t3.len() == 0);
    assert(run_upload(m3, t3) == m3);
    assert(m3.state is Success && m3.attempts == 2 && m3.pushes == 1);
}

/// A second 404 after the push is the distinct "still missing" failure, after
/// exactly two attempts, and every later event leaves the machine there: no
/// third attempt happens.
pub proof fn lemma_upload_still_missing(later: Seq<UploadEvent>)
    ensures
        ({
            let trace = seq![
                UploadEvent::Response(UploadOutcomeKind::Missing),
                UploadEvent::Push(true),
                UploadEvent::Response(UploadOutcomeKind::Missing),
            ];
            let end = run_upload(initial_upload_machine(), trace);
            &&& end.state == UploadState::Fail(UploadFailure::StillMissing)
            &&& end.attempts == 2
            &&& run_upload(end, later) == end
        }),
{
    let trace = seq![
        UploadEvent::Response(UploadOutcomeKind::Missing),
        UploadEvent::Push(true),
        UploadEvent::Response(UploadOutcomeKind::Missing),
    ];
    let m0 = initial_upload_machine();
    let t1 = trace.drop_first();
    let t2 = t1.drop_first();
    let t3 = t2.drop_first();
    let m1 = m0.step(trace[0]);
    let m2 = m1.step(t1[0]);
    let m3 = m2.step(t2[0]);
    assert(run_upload(m0, trace) == run_upload(m1, t1));
    assert(run_upload(m1, t1) == run_upload(m2, t2));
    assert(run_upload(m2, t2) == run_upload(m3, t3));
    assert(t3.len() == 0);
    assert(run_upload(m3, t3) == m3);
    assert(m3.state == UploadState::Fail(UploadFailure::StillMissing));
    assert(m3.attempts == 2);
    lemma_upload_terminal_stable(m3, later);
}

} // verus!
