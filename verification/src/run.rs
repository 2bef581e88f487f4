//! The cooperative event loop over the transport's frame sequence.
//!
//! `run_events` consumes a finite sequence of transport events — classified
//! frames interleaved with transport faults — exactly as the live driver
//! does: one event at a time, to completion, stopping at the first fatal
//! error.  A recoverable reset is survived by one silent reconnect; every
//! other fault, and every fatal answer of the state machine, ends the run.
//! The whole run is characterized by the spec function `run_model`.

use vstd::prelude::*;
use crate::envelope::{Envelope, EnvelopeModel};
use crate::errors::ClientError;
use crate::transport::{recoverable, FaultModel, TransportFault, is_recoverable_reset};
use crate::websocket::{
    closed_machine, reconnecting_machine, step_model, terminal, Action, ActionModel, MachineModel,
    RegistrationCall, RegistrationModel, SessionStatus, WebsocketClient,
};

verus! {

/// One observation of the transport: a classified frame, or a fault.
#[derive(Clone, Debug, PartialEq, Eq)]
pub enum TransportEvent {
    Frame(Envelope),
    Fault(TransportFault),
}

/// The mathematical image of a transport event.
pub enum TransportEventModel {
    Frame(EnvelopeModel),
    Fault(FaultModel),
}

impl View for TransportEvent {
    type V = TransportEventModel;

    open spec fn view(&self) -> TransportEventModel {
        match self {
            TransportEvent::Frame(e) => TransportEventModel::Frame(e@),
            TransportEvent::Fault(f) => TransportEventModel::Fault(f@),
        }
    }
}

impl DeepView for TransportEvent {
    type V = TransportEventModel;

    open spec fn deep_view(&self) -> TransportEventModel {
        self.view()
    }
}

/// Everything observable about one finished run: the machine as it ended,
/// the registration calls issued in order, the payloads handed to the
/// dispatcher in order, how often the transport silently reconnected, and
/// the fatal error if one ended the run.
#[derive(Clone, Debug)]
pub struct RunOutcome {
    pub client: WebsocketClient,
    pub registrations: Vec<RegistrationCall>,
    pub dispatched: Vec<String>,
    pub reconnects: usize,
    pub error: Option<ClientError>,
}

/// The mathematical image of a run.
pub struct RunModel {
    pub machine: MachineModel,
    pub registrations: Seq<RegistrationModel>,
    pub dispatched: Seq<Seq<char>>,
    pub reconnects: int,
    pub error: Option<ClientError>,
}

impl View for RunOutcome {
    type V = RunModel;

    open spec fn view(&self) -> RunModel {
        RunModel {
            machine: self.client@,
            registrations: self.registrations.deep_view(),
            dispatched: self.dispatched.deep_view(),
            reconnects: self.reconnects as int,
            error: self.error,
        }
    }
}

/// A run that ended with nothing left to process.
pub open spec fn finished_run(m: MachineModel) -> RunModel {
    RunModel {
        machine: m,
        registrations: Seq::empty(),
        dispatched: Seq::empty(),
        reconnects: 0,
        error: None,
    }
}

/// A run that just failed, before anything further happened.
pub open spec fn failed_run(m: MachineModel, e: ClientError) -> RunModel {
    RunModel {
        machine: m,
        registrations: Seq::empty(),
        dispatched: Seq::empty(),
        reconnects: 0,
        error: Some(e),
    }
}

/// Prefix one step's observations onto the rest of a run.
pub open spec fn absorb(
    regs: Seq<RegistrationModel>,
    disp: Seq<Seq<char>>,
    recon: int,
    rest: RunModel,
) -> RunModel {
    RunModel {
        machine: rest.machine,
        registrations: regs + rest.registrations,
        dispatched: disp + rest.dispatched,
        reconnects: recon + rest.reconnects,
        error: rest.error,
    }
}

/// The meaning of a whole run: process events front to back, stop at the
/// first fatal error, survive exactly the recoverable resets.
pub open spec fn run_model(m: MachineModel, events: Seq<TransportEventModel>) -> RunModel
    decreases events.len(),
{
    if events.len() == 0 {
        finished_run(m)
    } else {
        match events[0] {
            TransportEventModel::Fault(f) => if recoverable(f) {
                absorb(
                    Seq::empty(),
                    Seq::empty(),
                    1,
                    run_model(reconnecting_machine(m), events.skip(1)),
                )
            } else {
                failed_run(closed_machine(m), ClientError::Transport)
            },
            TransportEventModel::Frame(e) => {
                let stepped = step_model(m, e);
                match stepped.1 {
                    Err(err) => failed_run(stepped.0, err),
                    Ok(a) => {
                        let rest = run_model(stepped.0, events.skip(1));
                        match a {
                            ActionModel::NoOp => rest,
                            ActionModel::Register { calls } => absorb(
                                calls,
                                Seq::empty(),
                                0,
                                rest,
                            ),
                            ActionModel::Dispatch { payload } => absorb(
                                Seq::empty(),
                                seq![payload],
                                0,
                                rest,
                            ),
                        }
                    },
                }
            },
        }
    }
}

/// Prefixing twice is prefixing the concatenations once.
proof fn lemma_absorb_absorb(
    r1: Seq<RegistrationModel>,
    d1: Seq<Seq<char>>,
    n1: int,
    r2: Seq<RegistrationModel>,
    d2: Seq<Seq<char>>,
    n2: int,
    rest: RunModel,
)
    ensures
        absorb(r1, d1, n1, absorb(r2, d2, n2, rest)) == absorb(r1 + r2, d1 + d2, n1 + n2, rest),
{
    assert(r1 + (r2 + rest.registrations) =~= (r1 + r2) + rest.registrations);
    assert(d1 + (d2 + rest.dispatched) =~= (d1 + d2) + rest.dispatched);
}

/// Drive one client over a finite sequence of transport events, exactly as
/// `run_model` describes.  Registration rounds are recorded as issued and
/// modeled as accepted; a driver whose registration call fails reports it
/// through `WebsocketClient::registration_outcome` instead.
pub fn run_events(client: WebsocketClient, events: Vec<TransportEvent>) -> (out: RunOutcome)
    requires
        !terminal(client@),
    ensures
        out@ == run_model(client@, events.deep_view()),
{
    let ghost m0 = client@;
    let ghost evs0 = events.deep_view();
    let n0: usize = events.len();
    let mut remaining = events;
    let mut cur = client;
    let mut registrations: Vec<RegistrationCall> = Vec::new();
    let mut dispatched: Vec<String> = Vec::new();
    let mut reconnects: usize = 0;
    let mut error: Option<ClientError> = None;

    proof {
        assert(registrations.deep_view() =~= Seq::<RegistrationModel>::empty());
        assert(dispatched.deep_view() =~= Seq::<Seq<char>>::empty());
    }

    while remaining.len() > 0 && error.is_none()
        invariant
            evs0.len() == n0,
            remaining.len() <= n0,
            reconnects as int <= n0 - remaining.len(),
            error is None ==> !terminal(cur@),
            error is None ==> run_model(m0, evs0) == absorb(
                registrations.deep_view(),
                dispatched.deep_view(),
                reconnects as int,
                run_model(cur@, remaining.deep_view()),
            ),
            error matches Some(e) ==> run_model(m0, evs0) == (RunModel {
                machine: cur@,
                registrations: registrations.deep_view(),
                dispatched: dispatched.deep_view(),
                reconnects: reconnects as int,
                error: Some(e),
            }),
        decreases remaining.len(),
    {
        let ghost pre = cur@;
        let ghost dv_old = remaining.deep_view();
        let ghost regs_old = registrations.deep_view();
        let ghost disp_old = dispatched.deep_view();
        let ev = remaining.remove(0);
        proof {
            assert(remaining.deep_view() =~= dv_old.skip(1));
            assert(dv_old[0] == ev@);
        }
        let ghost dv_rest = remaining.deep_view();
        match ev {
            TransportEvent::Frame(env) => {
                let stepped = cur.step(env);
                match stepped {
                    Ok(action) => {
                        proof {
                            assert(run_model(pre, dv_old) == ({
                                let rest = run_model(cur@, dv_rest);
                                match action@ {
                                    ActionModel::NoOp => rest,
                                    ActionModel::Register { calls } => absorb(
                                        calls,
                                        Seq::empty(),
                                        0,
                                        rest,
                                    ),
                                    ActionModel::Dispatch { payload } => absorb(
                                        Seq::empty(),
                                        seq![payload],
                                        0,
                                        rest,
                                    ),
                                }
                            }));
                        }
                        match action {
                            Action::NoOp => {},
                            Action::Register { calls } => {
                                let ghost calls_dv = calls.deep_view();
                                let mut moved = calls;
                                registrations.append(&mut moved);
                                proof {
                                    assert(registrations.deep_view() =~= regs_old + calls_dv);
                                    lemma_absorb_absorb(
                                        regs_old,
                                        disp_old,
                                        reconnects as int,
                                        calls_dv,
                                        Seq::empty(),
                                        0,
                                        run_model(cur@, dv_rest),
                                    );
                                    assert(disp_old + Seq::<Seq<char>>::empty() =~= disp_old);
                                }
                            },
                            Action::Dispatch { payload } => {
                                let ghost p = payload@;
                                dispatched.push(payload);
                                proof {
                                    assert(dispatched.deep_view() =~= disp_old + seq![p]);
                                    lemma_absorb_absorb(
                                        regs_old,
                                        disp_old,
                                        reconnects as int,
                                        Seq::empty(),
                                        seq![p],
                                        0,
                                        run_model(cur@, dv_rest),
                                    );
                                    assert(regs_old + Seq::<RegistrationModel>::empty() =~= regs_old);
                                }
                            },
                        }
                    },
                    Err(e) => {
                        error = Some(e);
                        proof {
                            assert(run_model(pre, dv_old) == failed_run(cur@, e));
                            assert(regs_old + Seq::<RegistrationModel>::empty() =~= regs_old);
                            assert(disp_old + Seq::<Seq<char>>::empty() =~= disp_old);
                        }
                    },
                }
            },
            TransportEvent::Fault(fault) => {
                if is_recoverable_reset(&fault) {
                    cur.session.status = SessionStatus::Reconnecting;
                    reconnects = reconnects + 1;
                    proof {
                        assert(cur@ == reconnecting_machine(pre));
                        assert(run_model(pre, dv_old) == absorb(
                            Seq::empty(),
                            Seq::empty(),
                            1,
                            run_model(cur@, dv_rest),
                        ));
                        lemma_absorb_absorb(
                            regs_old,
                            disp_old,
                            (reconnects - 1) as int,
                            Seq::empty(),
                            Seq::empty(),
                            1,
                            run_model(cur@, dv_rest),
                        );
                        assert(regs_old + Seq::<RegistrationModel>::empty() =~= regs_old);
                        assert(disp_old + Seq::<Seq<char>>::empty() =~= disp_old);
                    }
                } else {
                    cur.session.status = SessionStatus::Closed;
                    error = Some(ClientError::Transport);
                    proof {
                        assert(cur@ == closed_machine(pre));
                        assert(run_model(pre, dv_old) == failed_run(cur@, ClientError::Transport));
                        assert(regs_old + Seq::<RegistrationModel>::empty() =~= regs_old);
                        assert(disp_old + Seq::<Seq<char>>::empty() =~= disp_old);
                    }
                }
            },
        }
    }

    proof {
        if error is None {
            assert(remaining.deep_view() =~= Seq::<TransportEventModel>::empty());
            assert(run_model(cur@, remaining.deep_view()) == finished_run(cur@));
            assert(registrations.deep_view() + Seq::<RegistrationModel>::empty()
                =~= registrations.deep_view());
            assert(dispatched.deep_view() + Seq::<Seq<char>>::empty() =~= dispatched.deep_view());
        }
    }
    RunOutcome { client: cur, registrations, dispatched, reconnects, error }
}

} // verus!
