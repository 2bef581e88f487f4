//! The laws of the session lifecycle, proved once and for all over
//! `run_model`.
//!
//! Each proof function here states one guarantee of the state machine for
//! every configuration and every admissible trace, not just for the traces
//! the tests replay.

use vstd::prelude::*;
use crate::envelope::EnvelopeModel;
use crate::errors::ClientError;
use crate::run::{absorb, failed_run, run_model, TransportEventModel};
use crate::transport::FaultModel;
use crate::websocket::{
    closed_machine, reconnecting_machine, registration_round, terminal, MachineModel,
    RegistrationModel, SubscriptionModel,
};

verus! {

/// The trace holds inbound envelopes only, no transport faults.
pub open spec fn frames_only(events: Seq<TransportEventModel>) -> bool {
    forall|i: int| 0 <= i < events.len() ==> (#[trigger] events[i]) is Frame
}

/// No revocation envelope anywhere in the trace.
pub open spec fn no_revocation(events: Seq<TransportEventModel>) -> bool {
    forall|i: int|
        0 <= i < events.len() ==> !((#[trigger] events[i]) matches TransportEventModel::Frame(
            EnvelopeModel::Revocation,
        ))
}

/// No malformed-envelope classification anywhere in the trace: every
/// frame is a well-formed envelope.
pub open spec fn no_malformed(events: Seq<TransportEventModel>) -> bool {
    forall|i: int|
        0 <= i < events.len() ==> !((#[trigger] events[i]) matches TransportEventModel::Frame(
            EnvelopeModel::Malformed,
        ))
}

/// Whether one event opens a session: a welcome, or the reconnect advisory
/// that is handled as one.
pub open spec fn activates(e: TransportEventModel) -> bool {
    ||| e matches TransportEventModel::Frame(EnvelopeModel::Welcome { .. })
    ||| e matches TransportEventModel::Frame(EnvelopeModel::Reconnect { .. })
}

/// Every notification in the trace comes after some session-opening event.
pub open spec fn no_notification_before_welcome(events: Seq<TransportEventModel>) -> bool {
    forall|i: int|
        0 <= i < events.len() && ((#[trigger] events[i]) matches TransportEventModel::Frame(
            EnvelopeModel::Notification { .. },
        )) ==> exists|j: int| 0 <= j < i && activates(#[trigger] events[j])
}

/// The inductive core: from a pending or active session, a trace of
/// envelopes with no revocation and no premature notification is processed
/// in full, with no error and no reconnect, and leaves the session pending
/// or active.
proof fn lemma_safe_trace_runs_forever(m: MachineModel, events: Seq<TransportEventModel>)
    requires
        m.session.status is Pending || m.session.status is Active,
        m.session.status is Pending ==> no_notification_before_welcome(events),
        frames_only(events),
        no_revocation(events),
        no_malformed(events),
    ensures
        run_model(m, events).error is None,
        run_model(m, events).reconnects == 0,
        run_model(m, events).machine.session.status is Pending || run_model(
            m,
            events,
        ).machine.session.status is Active,
        run_model(m, events).machine.subscriptions == m.subscriptions,
    decreases events.len(),
{
    if events.len() > 0 {
        let rest = events.skip(1);
        assert forall|i: int| 0 <= i < rest.len() implies (#[trigger] rest[i]) is Frame && !(
        rest[i] matches TransportEventModel::Frame(EnvelopeModel::Revocation)) && !(
        rest[i] matches TransportEventModel::Frame(EnvelopeModel::Malformed)) by {
            assert(rest[i] == events[i + 1]);
            assert(events[i + 1] is Frame);
            assert(!(events[i + 1] matches TransportEventModel::Frame(
                EnvelopeModel::Revocation,
            )));
            assert(!(events[i + 1] matches TransportEventModel::Frame(
                EnvelopeModel::Malformed,
            )));
        }
        assert(events[0] is Frame);
        match events[0] {
            TransportEventModel::Frame(env) => {
                match env {
                    EnvelopeModel::Welcome { session_id } => {
                        lemma_safe_trace_runs_forever(
                            MachineModel {
                                session: crate::websocket::SessionModel {
                                    id: session_id,
                                    status: crate::websocket::SessionStatus::Active,
                                },
                                subscriptions: m.subscriptions,
                            },
                            rest,
                        );
                    },
                    EnvelopeModel::Reconnect { session_id } => {
                        lemma_safe_trace_runs_forever(
                            MachineModel {
                                session: crate::websocket::SessionModel {
                                    id: session_id,
                                    status: crate::websocket::SessionStatus::Active,
                                },
                                subscriptions: m.subscriptions,
                            },
                            rest,
                        );
                    },
                    EnvelopeModel::Keepalive => {
                        if m.session.status is Pending {
                            lemma_quiet_head_keeps_order(events);
                        }
                        lemma_safe_trace_runs_forever(m, rest);
                    },
                    EnvelopeModel::Unknown => {
                        if m.session.status is Pending {
                            lemma_quiet_head_keeps_order(events);
                        }
                        lemma_safe_trace_runs_forever(m, rest);
                    },
                    EnvelopeModel::Notification { .. } => {
                        if m.session.status is Pending {
                            assert(exists|j: int| 0 <= j < 0 && activates(#[trigger] events[j]));
                            assert(false);
                        } else {
                            lemma_safe_trace_runs_forever(m, rest);
                        }
                    },
                    EnvelopeModel::Revocation => {
                        assert(false);
                    },
                    EnvelopeModel::Malformed => {
                        assert(false);
                    },
                }
            },
            TransportEventModel::Fault(..) => {
                assert(false);
            },
        }
    }
}

/// If the first event opens no session and every notification in the trace
/// comes after a session-opening event, the same holds of the tail.
proof fn lemma_quiet_head_keeps_order(events: Seq<TransportEventModel>)
    requires
        events.len() > 0,
        !activates(events[0]),
        no_notification_before_welcome(events),
    ensures
        no_notification_before_welcome(events.skip(1)),
{
    let rest = events.skip(1);
    assert forall|i: int|
        0 <= i < rest.len() && ((#[trigger] rest[i]) matches TransportEventModel::Frame(
            EnvelopeModel::Notification { .. },
        )) implies exists|j: int| 0 <= j < i && activates(#[trigger] rest[j]) by {
        assert(rest[i] == events[i + 1]);
        assert(exists|j: int| 0 <= j < i + 1 && activates(#[trigger] events[j]));
        let j = choose|j: int| 0 <= j < i + 1 && activates(#[trigger] events[j]);
        assert(j != 0);
        assert(rest[j - 1] == events[j]);
        assert(0 <= j - 1 < i && activates(rest[j - 1]));
    }
}

/// For every sequence of well-formed inbound envelopes containing no
/// revocation and no notification before a welcome, a fresh machine
/// processes the whole sequence without terminating: no error surfaces, no reconnect happens,
/// and the session stays usable, so the loop would simply keep waiting for
/// the next frame.
pub proof fn lemma_safe_envelopes_never_terminate(
    m: MachineModel,
    events: Seq<TransportEventModel>,
)
    requires
        m.session.status is Pending,
        frames_only(events),
        no_revocation(events),
        no_malformed(events),
        no_notification_before_welcome(events),
    ensures
        run_model(m, events).error is None,
        run_model(m, events).reconnects == 0,
        !terminal(run_model(m, events).machine),
        run_model(m, events).machine.subscriptions == m.subscriptions,
{
    lemma_safe_trace_runs_forever(m, events);
}

/// A welcome followed immediately by a revocation terminates the run with
/// the revocation error, after exactly one registration call per
/// configured subscription — each bound to the welcomed session — and none
/// after the revocation, and dispatches nothing.
pub proof fn lemma_welcome_then_revocation(m: MachineModel, session_id: Seq<char>)
    requires
        !terminal(m),
    ensures
        ({
            let events = seq![
                TransportEventModel::Frame(EnvelopeModel::Welcome { session_id }),
                TransportEventModel::Frame(EnvelopeModel::Revocation),
            ];
            let out = run_model(m, events);
            &&& out.error == Some(ClientError::Revoked)
            &&& out.registrations == registration_round(m.subscriptions, session_id)
            &&& out.registrations.len() == m.subscriptions.len()
            &&& out.dispatched == Seq::<Seq<char>>::empty()
            &&& out.machine.session.status is Revoked
        }),
{
    let events = seq![
        TransportEventModel::Frame(EnvelopeModel::Welcome { session_id }),
        TransportEventModel::Frame(EnvelopeModel::Revocation),
    ];
    let rest = events.skip(1);
    assert(events[0] == TransportEventModel::Frame(EnvelopeModel::Welcome { session_id }));
    assert(rest.len() == 1);
    assert(rest[0] == TransportEventModel::Frame(EnvelopeModel::Revocation));
    let calls = registration_round(m.subscriptions, session_id);
    let stepped = crate::websocket::step_model(m, EnvelopeModel::Welcome { session_id });
    let inner = run_model(stepped.0, rest);
    let stepped2 = crate::websocket::step_model(stepped.0, EnvelopeModel::Revocation);
    assert(inner == failed_run(stepped2.0, ClientError::Revoked));
    let out = run_model(m, events);
    assert(out == absorb(calls, Seq::<Seq<char>>::empty(), 0, inner));
    assert(out.registrations =~= calls);
    assert(out.dispatched =~= Seq::<Seq<char>>::empty());
}

/// One registration round issues exactly one call per configured
/// subscription, in configuration order, each carrying that subscription's
/// event type and principal and the session identifier of the welcome that
/// triggered the round.
pub proof fn lemma_registration_round_scoped(subs: Seq<SubscriptionModel>, session_id: Seq<char>)
    ensures
        registration_round(subs, session_id).len() == subs.len(),
        forall|i: int|
            0 <= i < subs.len() ==> (#[trigger] registration_round(subs, session_id)[i])
                == (RegistrationModel {
                event_type: subs[i].event_type,
                principal_id: subs[i].principal_id,
                session_id: session_id,
            }),
{
}

/// The one allow-listed transport fault is invisible to the rest of the
/// run: it costs exactly one reconnect, and the loop resumes processing
/// the remaining events with nothing else changed.
pub proof fn lemma_recoverable_reset_resumes(m: MachineModel, rest: Seq<TransportEventModel>)
    ensures
        ({
            let out = run_model(
                m,
                seq![TransportEventModel::Fault(FaultModel::ResetWithoutClosingHandshake)] + rest,
            );
            let resumed = run_model(reconnecting_machine(m), rest);
            &&& out.error == resumed.error
            &&& out.reconnects == 1 + resumed.reconnects
            &&& out.registrations == resumed.registrations
            &&& out.dispatched == resumed.dispatched
            &&& out.machine == resumed.machine
        }),
{
    let events = seq![TransportEventModel::Fault(FaultModel::ResetWithoutClosingHandshake)]
        + rest;
    assert(events[0] == TransportEventModel::Fault(FaultModel::ResetWithoutClosingHandshake));
    assert(events.skip(1) =~= rest);
    let resumed = run_model(reconnecting_machine(m), rest);
    assert(Seq::<RegistrationModel>::empty() + resumed.registrations =~= resumed.registrations);
    assert(Seq::<Seq<char>>::empty() + resumed.dispatched =~= resumed.dispatched);
}

/// Any other transport fault ends the run at once: the transport error
/// surfaces, the session closes, and nothing after the fault is processed
/// — no registration, no dispatch, no reconnect.
pub proof fn lemma_fatal_fault_halts(
    m: MachineModel,
    detail: Seq<char>,
    rest: Seq<TransportEventModel>,
)
    ensures
        ({
            let out = run_model(
                m,
                seq![TransportEventModel::Fault(FaultModel::Other { detail })] + rest,
            );
            &&& out == failed_run(closed_machine(m), ClientError::Transport)
            &&& out.error == Some(ClientError::Transport)
            &&& out.registrations == Seq::<RegistrationModel>::empty()
            &&& out.dispatched == Seq::<Seq<char>>::empty()
            &&& out.reconnects == 0
        }),
{
    let events = seq![TransportEventModel::Fault(FaultModel::Other { detail })] + rest;
    assert(events[0] == TransportEventModel::Fault(FaultModel::Other { detail }));
}

} // verus!
