//! The lifecycle of one connection.
//!
//! A session moves through `Connecting`, `Authenticating`, `Subscribing`,
//! `Active`, `Draining` and `Closed`. The engine decides; the driver acts.
//! For each event the driver reports, [`WebSocketService::handle_socket`]
//! moves the session on and answers with the one action to carry out next.
//!
//! Hooks are paired: `on_disconnect` is asked for exactly once in every
//! session in which `on_connect` was asked for, whether the session ended
//! because the connect hook refused, because the subscriptions could not be
//! resolved, or because a pump stopped. A session that never authenticated
//! sees neither hook.

use vstd::prelude::*;

verus! {

/// The six phases of a session.
#[derive(Clone, Copy, PartialEq, Eq, Debug, Structural)]
pub enum SessionPhase {
    Connecting,
    Authenticating,
    Subscribing,
    Active,
    Draining,
    Closed,
}

/// One of the two tasks that move frames while a session is active.
#[derive(Clone, Copy, PartialEq, Eq, Debug, Structural)]
pub enum Pump {
    /// Reads frames from the transport and dispatches them.
    Inbound,
    /// Drains the subscriptions and writes to the transport.
    Outbound,
}

impl Pump {
    /// The pump that is not this one.
    pub open spec fn other(self) -> Pump {
        match self {
            Pump::Inbound => Pump::Outbound,
            Pump::Outbound => Pump::Inbound,
        }
    }

    /// The pump that is not this one.
    pub fn counterpart(self) -> (pump: Pump)
        ensures
            pump == self.other(),
    {
        match self {
            Pump::Inbound => Pump::Outbound,
            Pump::Outbound => Pump::Inbound,
        }
    }
}

/// Where a session stands, with what it has learned so far.
#[derive(Clone, Copy, PartialEq, Eq, Debug, Structural)]
#[allow(inconsistent_fields)]
pub enum Stage {
    /// The transport upgrade is awaited.
    Connecting,
    /// The token is being verified.
    Authenticating,
    /// The connect hook is running for the authenticated user.
    Greeting { user_id: u128 },
    /// The user's topics are being resolved.
    Resolving { user_id: u128 },
    /// Both pumps run.
    Active { user_id: u128 },
    /// One pump has ended; `running` is the one still to stop.
    Draining { user_id: u128, running: Pump },
    /// Terminal. `user_id` is the user the session served, if it ever
    /// authenticated.
    Closed { user_id: Option<u128> },
}

impl Stage {
    /// The phase this stage belongs to.
    pub open spec fn phase(self) -> SessionPhase {
        match self {
            Stage::Connecting => SessionPhase::Connecting,
            Stage::Authenticating => SessionPhase::Authenticating,
            Stage::Greeting { .. } => SessionPhase::Subscribing,
            Stage::Resolving { .. } => SessionPhase::Subscribing,
            Stage::Active { .. } => SessionPhase::Active,
            Stage::Draining { .. } => SessionPhase::Draining,
            Stage::Closed { .. } => SessionPhase::Closed,
        }
    }

    /// The authenticated user, once there is one.
    pub open spec fn user(self) -> Option<u128> {
        match self {
            Stage::Connecting => None,
            Stage::Authenticating => None,
            Stage::Greeting { user_id } => Some(user_id),
            Stage::Resolving { user_id } => Some(user_id),
            Stage::Active { user_id } => Some(user_id),
            Stage::Draining { user_id, .. } => Some(user_id),
            Stage::Closed { user_id } => user_id,
        }
    }
}

/// The per-connection state: the connection's identifier and its stage.
#[derive(Clone, Copy, PartialEq, Eq, Debug, Structural)]
pub struct ClientSession {
    pub client_id: u128,
    pub stage: Stage,
}

/// The query of the upgrade request, which carries the bearer token.
#[derive(Debug, Clone, PartialEq, Eq)]
pub struct WsQuery {
    pub token: String,
}

/// What the driver reports to the engine.
#[derive(Debug, Clone, PartialEq, Eq)]
pub enum SessionEvent {
    /// The transport was upgraded; `token` is the bearer token, if the
    /// request carried one.
    Upgraded { token: Option<String> },
    /// Token verification returned: the user, or `None` on failure.
    Authenticated { user_id: Option<u128> },
    /// The connect hook returned.
    Greeted { accepted: bool },
    /// Subscription resolution returned: the keys, or `None` on failure.
    Resolved { keys: Option<Vec<u128>> },
    /// A pump ended, by itself or because it was cancelled.
    PumpEnded { pump: Pump },
}

/// What the engine asks the driver to do next.
#[derive(Debug, Clone, PartialEq, Eq)]
pub enum SessionAction {
    /// Verify this token.
    Authenticate { token: String },
    /// Close the transport; no hook is called.
    Refuse,
    /// Call the connect hook.
    Connect { client_id: u128, user_id: u128 },
    /// Resolve the topics this user receives.
    ResolveSubscriptions { user_id: u128 },
    /// Subscribe to each key and start both pumps.
    StartPumps { user_id: u128, keys: Vec<u128> },
    /// Cancel this pump.
    CancelPump { pump: Pump },
    /// Call the disconnect hook and close the transport.
    Disconnect { client_id: u128 },
    /// The event does not apply at this stage; do nothing.
    Ignore,
}

/// An action without its payload.
#[derive(Clone, Copy, PartialEq, Eq, Debug, Structural)]
pub enum ActionKind {
    Authenticate,
    Refuse,
    Connect,
    ResolveSubscriptions,
    StartPumps,
    CancelPump,
    Disconnect,
    Ignore,
}

impl SessionAction {
    /// Which action this is.
    pub open spec fn spec_kind(&self) -> ActionKind {
        match self {
            SessionAction::Authenticate { .. } => ActionKind::Authenticate,
            SessionAction::Refuse => ActionKind::Refuse,
            SessionAction::Connect { .. } => ActionKind::Connect,
            SessionAction::ResolveSubscriptions { .. } => ActionKind::ResolveSubscriptions,
            SessionAction::StartPumps { .. } => ActionKind::StartPumps,
            SessionAction::CancelPump { .. } => ActionKind::CancelPump,
            SessionAction::Disconnect { .. } => ActionKind::Disconnect,
            SessionAction::Ignore => ActionKind::Ignore,
        }
    }

    /// Which action this is.
    #[verifier::when_used_as_spec(spec_kind)]
    pub fn kind(&self) -> (kind: ActionKind)
        ensures
            kind == self.spec_kind(),
    {
        match self {
            SessionAction::Authenticate { .. } => ActionKind::Authenticate,
            SessionAction::Refuse => ActionKind::Refuse,
            SessionAction::Connect { .. } => ActionKind::Connect,
            SessionAction::ResolveSubscriptions { .. } => ActionKind::ResolveSubscriptions,
            SessionAction::StartPumps { .. } => ActionKind::StartPumps,
            SessionAction::CancelPump { .. } => ActionKind::CancelPump,
            SessionAction::Disconnect { .. } => ActionKind::Disconnect,
            SessionAction::Ignore => ActionKind::Ignore,
        }
    }
}

impl SessionEvent {
    /// The event that opens a session: the upgrade, with the token of the
    /// request's query if there was one.
    pub fn upgraded(query: Option<WsQuery>) -> (event: SessionEvent)
        ensures
            event == (SessionEvent::Upgraded {
                token: match query {
                    Some(q) => Some(q.token),
                    None => None,
                },
            }),
    {
        match query {
            Some(q) => SessionEvent::Upgraded { token: Some(q.token) },
            None => SessionEvent::Upgraded { token: None },
        }
    }
}

/// The transition relation: the session after `event`, and the action that
/// `event` calls for. An event that does not belong to the current stage
/// leaves the session as it is and calls for nothing.
pub open spec fn next(session: ClientSession, event: SessionEvent) -> (ClientSession, SessionAction) {
    let id = session.client_id;
    let stay = (session, SessionAction::Ignore);
    match session.stage {
        Stage::Connecting => match event {
            SessionEvent::Upgraded { token: Some(token) } => (
                ClientSession { client_id: id, stage: Stage::Authenticating },
                SessionAction::Authenticate { token },
            ),
            SessionEvent::Upgraded { token: None } => (
                ClientSession { client_id: id, stage: Stage::Closed { user_id: None } },
                SessionAction::Refuse,
            ),
            _ => stay,
        },
        Stage::Authenticating => match event {
            SessionEvent::Authenticated { user_id: Some(user_id) } => (
                ClientSession { client_id: id, stage: Stage::Greeting { user_id } },
                SessionAction::Connect { client_id: id, user_id },
            ),
            SessionEvent::Authenticated { user_id: None } => (
                ClientSession { client_id: id, stage: Stage::Closed { user_id: None } },
                SessionAction::Refuse,
            ),
            _ => stay,
        },
        Stage::Greeting { user_id } => match event {
            SessionEvent::Greeted { accepted: true } => (
                ClientSession { client_id: id, stage: Stage::Resolving { user_id } },
                SessionAction::ResolveSubscriptions { user_id },
            ),
            SessionEvent::Greeted { accepted: false } => (
                ClientSession { client_id: id, stage: Stage::Closed { user_id: Some(user_id) } },
                SessionAction::Disconnect { client_id: id },
            ),
            _ => stay,
        },
        Stage::Resolving { user_id } => match event {
            SessionEvent::Resolved { keys: Some(keys) } => (
                ClientSession { client_id: id, stage: Stage::Active { user_id } },
                SessionAction::StartPumps { user_id, keys },
            ),
            SessionEvent::Resolved { keys: None } => (
                ClientSession { client_id: id, stage: Stage::Closed { user_id: Some(user_id) } },
                SessionAction::Disconnect { client_id: id },
            ),
            _ => stay,
        },
        Stage::Active { user_id } => match event {
            SessionEvent::PumpEnded { pump } => (
                ClientSession {
                    client_id: id,
                    stage: Stage::Draining { user_id, running: pump.other() },
                },
                SessionAction::CancelPump { pump: pump.other() },
            ),
            _ => stay,
        },
        Stage::Draining { user_id, running } => match event {
            SessionEvent::PumpEnded { pump } => if pump == running {
                (
                    ClientSession { client_id: id, stage: Stage::Closed { user_id: Some(user_id) } },
                    SessionAction::Disconnect { client_id: id },
                )
            } else {
                stay
            },
            _ => stay,
        },
        Stage::Closed { .. } => stay,
    }
}

impl ClientSession {
    /// A session that awaits its upgrade.
    pub open spec fn initial(client_id: u128) -> ClientSession {
        ClientSession { client_id, stage: Stage::Connecting }
    }

    /// A session that awaits its upgrade.
    pub fn new(client_id: u128) -> (session: ClientSession)
        ensures
            session == ClientSession::initial(client_id),
    {
        ClientSession { client_id, stage: Stage::Connecting }
    }

    /// The phase the session is in.
    pub fn phase(&self) -> (phase: SessionPhase)
        ensures
            phase == self.stage.phase(),
    {
        match self.stage {
            Stage::Connecting => SessionPhase::Connecting,
            Stage::Authenticating => SessionPhase::Authenticating,
            Stage::Greeting { .. } => SessionPhase::Subscribing,
            Stage::Resolving { .. } => SessionPhase::Subscribing,
            Stage::Active { .. } => SessionPhase::Active,
            Stage::Draining { .. } => SessionPhase::Draining,
            Stage::Closed { .. } => SessionPhase::Closed,
        }
    }

    /// The authenticated user, once there is one.
    pub fn user_id(&self) -> (user: Option<u128>)
        ensures
            user == self.stage.user(),
    {
        match self.stage {
            Stage::Connecting => None,
            Stage::Authenticating => None,
            Stage::Greeting { user_id } => Some(user_id),
            Stage::Resolving { user_id } => Some(user_id),
            Stage::Active { user_id } => Some(user_id),
            Stage::Draining { user_id, .. } => Some(user_id),
            Stage::Closed { user_id } => user_id,
        }
    }

    /// Whether the session has reached its terminal stage.
    pub fn is_closed(&self) -> (closed: bool)
        ensures
            closed == (self.stage.phase() == SessionPhase::Closed),
    {
        match self.stage {
            Stage::Closed { .. } => true,
            _ => false,
        }
    }
}

/// The engine that drives connections.
#[derive(Debug, Clone, Copy)]
pub struct WebSocketService;

impl WebSocketService {
    /// Moves `session` on by one event and returns the action to carry out.
    pub fn handle_socket(session: &mut ClientSession, event: SessionEvent) -> (action: SessionAction)
        ensures
            (*final(session), action) == next(*old(session), event),
    {
        let id = session.client_id;
        match session.stage {
            Stage::Connecting => match event {
                SessionEvent::Upgraded { token: Some(token) } => {
                    session.stage = Stage::Authenticating;
                    SessionAction::Authenticate { token }
                },
                SessionEvent::Upgraded { token: None } => {
                    session.stage = Stage::Closed { user_id: None };
                    SessionAction::Refuse
                },
                _ => SessionAction::Ignore,
            },
            Stage::Authenticating => match event {
                SessionEvent::Authenticated { user_id: Some(user_id) } => {
                    session.stage = Stage::Greeting { user_id };
                    SessionAction::Connect { client_id: id, user_id }
                },
                SessionEvent::Authenticated { user_id: None } => {
                    session.stage = Stage::Closed { user_id: None };
                    SessionAction::Refuse
                },
                _ => SessionAction::Ignore,
            },
            Stage::Greeting { user_id } => match event {
                SessionEvent::Greeted { accepted } => {
                    if accepted {
                        session.stage = Stage::Resolving { user_id };
                        SessionAction::ResolveSubscriptions { user_id }
                    } else {
                        session.stage = Stage::Closed { user_id: Some(user_id) };
                        SessionAction::Disconnect { client_id: id }
                    }
                },
                _ => SessionAction::Ignore,
            },
            Stage::Resolving { user_id } => match event {
                SessionEvent::Resolved { keys: Some(keys) } => {
                    session.stage = Stage::Active { user_id };
                    SessionAction::StartPumps { user_id, keys }
                },
                SessionEvent::Resolved { keys: None } => {
                    session.stage = Stage::Closed { user_id: Some(user_id) };
                    SessionAction::Disconnect { client_id: id }
                },
                _ => SessionAction::Ignore,
            },
            Stage::Active { user_id } => match event {
                SessionEvent::PumpEnded { pump } => {
                    let running = pump.counterpart();
                    session.stage = Stage::Draining { user_id, running };
                    SessionAction::CancelPump { pump: running }
                },
                _ => SessionAction::Ignore,
            },
            Stage::Draining { user_id, running } => match event {
                SessionEvent::PumpEnded { pump } => {
                    if pump == running {
                        session.stage = Stage::Closed { user_id: Some(user_id) };
                        SessionAction::Disconnect { client_id: id }
                    } else {
                        SessionAction::Ignore
                    }
                },
                _ => SessionAction::Ignore,
            },
            Stage::Closed { .. } => SessionAction::Ignore,
        }
    }
}

} // verus!
