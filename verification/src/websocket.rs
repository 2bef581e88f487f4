//! The session state machine: the sole owner of "is this session still
//! usable" truth.
//!
//! `WebsocketClient::step` consumes one classified envelope and decides the
//! next session value together with the action the driver must perform:
//! register every configured subscription against a fresh session, dispatch
//! a notification payload, or do nothing.  The session is replaced
//! wholesale on every welcome and reconnect advisory; it is never patched
//! in place.

use vstd::prelude::*;
use crate::envelope::{Envelope, EnvelopeModel};
use crate::errors::ClientError;
use crate::events::EventType;

verus! {

/// Where a session stands in its lifecycle.
#[derive(Clone, Copy, Debug, PartialEq, Eq, Structural)]
pub enum SessionStatus {
    /// No welcome has been received yet on this connection.
    Pending,
    /// The upstream welcomed us and the session identifier is known.
    Active,
    /// The transport is being re-established after a recoverable reset;
    /// the session is unusable until the next welcome.
    Reconnecting,
    /// The upstream withdrew authorization; terminal.
    Revoked,
    /// A fatal error ended the client run; terminal.
    Closed,
}

/// One logical handshake epoch with the upstream service.
#[derive(Clone, Debug, PartialEq, Eq)]
pub struct Session {
    pub id: String,
    pub status: SessionStatus,
}

/// The mathematical image of a session.
pub struct SessionModel {
    pub id: Seq<char>,
    pub status: SessionStatus,
}

impl View for Session {
    type V = SessionModel;

    open spec fn view(&self) -> SessionModel {
        SessionModel { id: self.id@, status: self.status }
    }
}

/// A client-side declaration of intent to receive one event type for one
/// principal.  Immutable configuration, fixed before the run starts.
#[derive(Clone, Debug, PartialEq, Eq)]
pub struct SubscriptionRequest {
    pub event_type: EventType,
    pub principal_id: String,
}

/// The mathematical image of a subscription request.
pub struct SubscriptionModel {
    pub event_type: EventType,
    pub principal_id: Seq<char>,
}

impl View for SubscriptionRequest {
    type V = SubscriptionModel;

    open spec fn view(&self) -> SubscriptionModel {
        SubscriptionModel { event_type: self.event_type, principal_id: self.principal_id@ }
    }
}

impl DeepView for SubscriptionRequest {
    type V = SubscriptionModel;

    open spec fn deep_view(&self) -> SubscriptionModel {
        self.view()
    }
}

/// One outbound subscription-registration call the driver must perform,
/// bound to the session it registers against.
#[derive(Clone, Debug, PartialEq, Eq)]
pub struct RegistrationCall {
    pub event_type: EventType,
    pub principal_id: String,
    pub session_id: String,
}

/// The mathematical image of a registration call.
pub struct RegistrationModel {
    pub event_type: EventType,
    pub principal_id: Seq<char>,
    pub session_id: Seq<char>,
}

impl View for RegistrationCall {
    type V = RegistrationModel;

    open spec fn view(&self) -> RegistrationModel {
        RegistrationModel {
            event_type: self.event_type,
            principal_id: self.principal_id@,
            session_id: self.session_id@,
        }
    }
}

impl DeepView for RegistrationCall {
    type V = RegistrationModel;

    open spec fn deep_view(&self) -> RegistrationModel {
        self.view()
    }
}

/// What the driver must do after one step.
#[derive(Clone, Debug, PartialEq, Eq)]
pub enum Action {
    /// Nothing: keepalives and unknown message kinds are silent.
    NoOp,
    /// Perform these registration calls, in order; any failure is fatal.
    Register { calls: Vec<RegistrationCall> },
    /// Hand this payload to the catalog adapter and then the dispatcher.
    Dispatch { payload: String },
}

/// The mathematical image of an action.
pub enum ActionModel {
    NoOp,
    Register { calls: Seq<RegistrationModel> },
    Dispatch { payload: Seq<char> },
}

impl View for Action {
    type V = ActionModel;

    open spec fn view(&self) -> ActionModel {
        match self {
            Action::NoOp => ActionModel::NoOp,
            Action::Register { calls } => ActionModel::Register { calls: calls.deep_view() },
            Action::Dispatch { payload } => ActionModel::Dispatch { payload: payload@ },
        }
    }
}

/// The session state machine together with its static configuration.
#[derive(Clone, Debug)]
pub struct WebsocketClient {
    pub session: Session,
    pub subscriptions: Vec<SubscriptionRequest>,
}

/// The mathematical image of the whole machine.
pub struct MachineModel {
    pub session: SessionModel,
    pub subscriptions: Seq<SubscriptionModel>,
}

impl View for WebsocketClient {
    type V = MachineModel;

    open spec fn view(&self) -> MachineModel {
        MachineModel { session: self.session@, subscriptions: self.subscriptions.deep_view() }
    }
}

/// A terminal machine never processes another envelope.
pub open spec fn terminal(m: MachineModel) -> bool {
    m.session.status is Revoked || m.session.status is Closed
}

/// The machine after a fatal condition: the session is closed, the
/// configuration kept.
pub open spec fn closed_machine(m: MachineModel) -> MachineModel {
    MachineModel {
        session: SessionModel { id: m.session.id, status: SessionStatus::Closed },
        subscriptions: m.subscriptions,
    }
}

/// The machine while the transport reconnects after a recoverable reset:
/// the session identifier is kept, but the session is not usable until the
/// next welcome arrives.
pub open spec fn reconnecting_machine(m: MachineModel) -> MachineModel {
    MachineModel {
        session: SessionModel { id: m.session.id, status: SessionStatus::Reconnecting },
        subscriptions: m.subscriptions,
    }
}

/// One full registration round: one call per configured subscription, each
/// carrying that subscription's event type and principal and the given
/// session identifier.
pub open spec fn registration_round(subs: Seq<SubscriptionModel>, session_id: Seq<char>) -> Seq<
    RegistrationModel,
> {
    Seq::new(
        subs.len(),
        |i: int| RegistrationModel {
            event_type: subs[i].event_type,
            principal_id: subs[i].principal_id,
            session_id: session_id,
        },
    )
}

/// The transition function of the state machine: from a machine and one
/// envelope to the next machine and either an action or a fatal error.
pub open spec fn step_model(m: MachineModel, e: EnvelopeModel) -> (MachineModel, Result<
    ActionModel,
    ClientError,
>) {
    match e {
        EnvelopeModel::Welcome { session_id } => (
            MachineModel {
                session: SessionModel { id: session_id, status: SessionStatus::Active },
                subscriptions: m.subscriptions,
            },
            Ok(ActionModel::Register { calls: registration_round(m.subscriptions, session_id) }),
        ),
        EnvelopeModel::Keepalive => (m, Ok(ActionModel::NoOp)),
        EnvelopeModel::Notification { payload } => if m.session.status is Active {
            (m, Ok(ActionModel::Dispatch { payload }))
        } else {
            (closed_machine(m), Err(ClientError::Protocol))
        },
        EnvelopeModel::Revocation => (
            MachineModel {
                session: SessionModel { id: m.session.id, status: SessionStatus::Revoked },
                subscriptions: m.subscriptions,
            },
            Err(ClientError::Revoked),
        ),
        EnvelopeModel::Reconnect { session_id } => (
            MachineModel {
                session: SessionModel { id: session_id, status: SessionStatus::Active },
                subscriptions: m.subscriptions,
            },
            Ok(ActionModel::Register { calls: registration_round(m.subscriptions, session_id) }),
        ),
        EnvelopeModel::Unknown => (m, Ok(ActionModel::NoOp)),
        EnvelopeModel::Malformed => (closed_machine(m), Err(ClientError::Protocol)),
    }
}

/// The mathematical image of a step's return value.
pub open spec fn step_result_model(r: Result<Action, ClientError>) -> Result<
    ActionModel,
    ClientError,
> {
    match r {
        Ok(a) => Ok(a@),
        Err(e) => Err(e),
    }
}

/// Build one registration round as executable calls.
fn registration_round_exec(subs: &Vec<SubscriptionRequest>, session_id: &String) -> (calls: Vec<
    RegistrationCall,
>)
    ensures
        calls.deep_view() == registration_round(subs.deep_view(), session_id@),
{
    let ghost target = registration_round(subs.deep_view(), session_id@);
    let mut calls: Vec<RegistrationCall> = Vec::new();
    let mut i: usize = 0;
    while i < subs.len()
        invariant
            i <= subs.len(),
            calls.len() == i,
            target == registration_round(subs.deep_view(), session_id@),
            forall|j: int| 0 <= j < i ==> calls.deep_view()[j] == target[j],
        decreases subs.len() - i,
    {
        let sub = &subs[i];
        calls.push(
            RegistrationCall {
                event_type: sub.event_type,
                principal_id: sub.principal_id.clone(),
                session_id: session_id.clone(),
            },
        );
        i = i + 1;
    }
    proof {
        assert(calls.deep_view() =~= target);
    }
    calls
}

impl WebsocketClient {
    /// A fresh client: no session yet, no subscriptions configured.
    pub fn new() -> (c: Self)
        ensures
            c@.session.status is Pending,
            c@.session.id == Seq::<char>::empty(),
            c@.subscriptions == Seq::<SubscriptionModel>::empty(),
    {
        let c = WebsocketClient {
            session: Session { id: String::new(), status: SessionStatus::Pending },
            subscriptions: Vec::new(),
        };
        proof {
            assert(c@.subscriptions =~= Seq::<SubscriptionModel>::empty());
        }
        c
    }

    /// Add one subscription request to the static configuration.  One
    /// entry per event type the application cares to observe.
    pub fn add_subscription(&mut self, sub: SubscriptionRequest)
        ensures
            final(self)@.session == old(self)@.session,
            final(self)@.subscriptions == old(self)@.subscriptions.push(sub@),
    {
        self.subscriptions.push(sub);
        proof {
            assert(self@.subscriptions =~= old(self)@.subscriptions.push(sub@));
        }
    }

    /// Whether the machine is in a terminal state.
    pub fn is_terminal(&self) -> (r: bool)
        ensures
            r == terminal(self@),
    {
        match self.session.status {
            SessionStatus::Revoked => true,
            SessionStatus::Closed => true,
            _ => false,
        }
    }

    /// Consume one envelope and return the action the driver must perform,
    /// or the fatal error that ends the run.  The machine follows
    /// `step_model` exactly.
    pub fn step(&mut self, env: Envelope) -> (r: Result<Action, ClientError>)
        requires
            !terminal(old(self)@),
        ensures
            final(self)@ == step_model(old(self)@, env@).0,
            step_result_model(r) == step_model(old(self)@, env@).1,
    {
        match env {
            Envelope::Welcome { session_id } => {
                let calls = registration_round_exec(&self.subscriptions, &session_id);
                self.session = Session { id: session_id, status: SessionStatus::Active };
                Ok(Action::Register { calls })
            },
            Envelope::Keepalive => Ok(Action::NoOp),
            Envelope::Notification { payload } => {
                match self.session.status {
                    SessionStatus::Active => Ok(Action::Dispatch { payload }),
                    _ => {
                        self.session.status = SessionStatus::Closed;
                        Err(ClientError::Protocol)
                    },
                }
            },
            Envelope::Revocation => {
                self.session.status = SessionStatus::Revoked;
                Err(ClientError::Revoked)
            },
            Envelope::Reconnect { session_id } => {
                let calls = registration_round_exec(&self.subscriptions, &session_id);
                self.session = Session { id: session_id, status: SessionStatus::Active };
                Ok(Action::Register { calls })
            },
            Envelope::Unknown => Ok(Action::NoOp),
            Envelope::Malformed => {
                self.session.status = SessionStatus::Closed;
                Err(ClientError::Protocol)
            },
        }
    }

    /// Classify one raw text frame and consume the resulting envelope: the
    /// frame codec followed by one step of the state machine.
    pub fn process_frame(&mut self, text: &str) -> (r: Result<Action, ClientError>)
        requires
            !terminal(old(self)@),
        ensures
            final(self)@ == step_model(old(self)@, crate::codec::frame_classification(text@)).0,
            step_result_model(r) == step_model(
                old(self)@,
                crate::codec::frame_classification(text@),
            ).1,
    {
        let env = crate::codec::classify_frame(text);
        self.step(env)
    }

    /// Record the outcome of a registration round the driver performed.  A
    /// session with incomplete subscriptions is invalid, so any failure
    /// closes the session and is fatal for the whole run.
    pub fn registration_outcome(&mut self, ok: bool) -> (r: Result<(), ClientError>)
        requires
            !terminal(old(self)@),
        ensures
            ok ==> final(self)@ == old(self)@ && r is Ok,
            !ok ==> final(self)@ == closed_machine(old(self)@) && r == Err::<(), ClientError>(
                ClientError::Registration,
            ),
    {
        if ok {
            Ok(())
        } else {
            self.session.status = SessionStatus::Closed;
            Err(ClientError::Registration)
        }
    }
}

} // verus!
