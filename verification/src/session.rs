//! The session negotiator and the per-connection serving loop's decision
//! core.
//!
//! A session is a two-state machine, `Uninitialized` to `Ready`. The
//! initialization handshake records the client's declaration, answers with
//! the server's own, and moves the session to `Ready`. A tool call that
//! arrives while the session is still `Uninitialized` is rejected with a
//! structured `ProtocolViolation` failure and leaves the state unchanged —
//! it is never queued. Introspection is answered in any state, straight
//! from the registry.

use crate::dispatch::DispatchStep;
use crate::dispatch::DispatchStepV;
use crate::dispatch::ServerConfig;
use crate::dispatch::ServerConfigV;
use crate::dispatch::ToolCallRequest;
use crate::dispatch::ToolCallRequestV;
use crate::dispatch::spec_fail_step;
use crate::dispatch::spec_plan;
use crate::registry::CapabilityInfo;
use crate::registry::CapabilityInfoV;
use crate::registry::CapabilityV;
use crate::registry::Registry;
use crate::registry::spec_info_of;
use crate::result::ErrorCode;
use crate::result::ToolCallResult;
use crate::result::ToolFailure;
use crate::schema::clone_strings;
use vstd::prelude::*;

verus! {

/// What the client declares at initialization.
pub struct InitializeParams {
    pub protocol_version: String,
    pub client_name: String,
    pub client_version: String,
    pub client_capabilities: Vec<String>,
}

/// Mathematical image of [`InitializeParams`].
pub struct InitializeParamsV {
    pub protocol_version: Seq<char>,
    pub client_name: Seq<char>,
    pub client_version: Seq<char>,
    pub client_capabilities: Seq<Seq<char>>,
}

impl View for InitializeParams {
    type V = InitializeParamsV;

    open spec fn view(&self) -> InitializeParamsV {
        InitializeParamsV {
            protocol_version: self.protocol_version@,
            client_name: self.client_name@,
            client_version: self.client_version@,
            client_capabilities: self.client_capabilities.deep_view(),
        }
    }
}

/// What the server declares back: its protocol version, a static statement
/// of its purpose, and the negotiable description of every capability.
pub struct ServerDeclaration {
    pub protocol_version: String,
    pub instructions: String,
    pub tools: Vec<CapabilityInfo>,
}

/// Mathematical image of a [`ServerDeclaration`].
pub struct ServerDeclarationV {
    pub protocol_version: Seq<char>,
    pub instructions: Seq<char>,
    pub tools: Seq<CapabilityInfoV>,
}

impl View for ServerDeclaration {
    type V = ServerDeclarationV;

    open spec fn view(&self) -> ServerDeclarationV {
        ServerDeclarationV {
            protocol_version: self.protocol_version@,
            instructions: self.instructions@,
            tools: self.tools.deep_view(),
        }
    }
}

/// What one session records at negotiation; read-only thereafter, scoped to
/// its one connection.
pub struct SessionInfo {
    pub protocol_version: String,
    pub client_capabilities: Vec<String>,
    pub server_tool_names: Vec<String>,
    pub instructions: String,
}

/// Mathematical image of a [`SessionInfo`].
pub struct SessionInfoV {
    pub protocol_version: Seq<char>,
    pub client_capabilities: Seq<Seq<char>>,
    pub server_tool_names: Seq<Seq<char>>,
    pub instructions: Seq<char>,
}

impl View for SessionInfo {
    type V = SessionInfoV;

    open spec fn view(&self) -> SessionInfoV {
        SessionInfoV {
            protocol_version: self.protocol_version@,
            client_capabilities: self.client_capabilities.deep_view(),
            server_tool_names: self.server_tool_names.deep_view(),
            instructions: self.instructions@,
        }
    }
}

/// The negotiator's state: nothing before the handshake, the recorded
/// session information after it.
pub enum SessionState {
    Uninitialized,
    Ready(SessionInfo),
}

/// Mathematical image of a [`SessionState`].
pub enum SessionStateV {
    Uninitialized,
    Ready(SessionInfoV),
}

impl View for SessionState {
    type V = SessionStateV;

    open spec fn view(&self) -> SessionStateV {
        match self {
            SessionState::Uninitialized => SessionStateV::Uninitialized,
            SessionState::Ready(info) => SessionStateV::Ready(info@),
        }
    }
}

/// One decoded protocol message, as the transport hands it in.
pub enum IncomingMessage {
    Initialize(InitializeParams),
    ListTools,
    ToolCall(ToolCallRequest),
}

/// Mathematical image of an [`IncomingMessage`].
pub enum IncomingMessageV {
    Initialize(InitializeParamsV),
    ListTools,
    ToolCall(ToolCallRequestV),
}

impl View for IncomingMessage {
    type V = IncomingMessageV;

    open spec fn view(&self) -> IncomingMessageV {
        match self {
            IncomingMessage::Initialize(p) => IncomingMessageV::Initialize(p@),
            IncomingMessage::ListTools => IncomingMessageV::ListTools,
            IncomingMessage::ToolCall(req) => IncomingMessageV::ToolCall(req@),
        }
    }
}

impl DeepView for IncomingMessage {
    type V = IncomingMessageV;

    open spec fn deep_view(&self) -> IncomingMessageV {
        self.view()
    }
}

/// The reply one message is answered with.
pub enum SessionReply {
    Initialized(ServerDeclaration),
    Tools(Vec<CapabilityInfo>),
    Call(DispatchStep),
}

/// Mathematical image of a [`SessionReply`].
pub enum SessionReplyV {
    Initialized(ServerDeclarationV),
    Tools(Seq<CapabilityInfoV>),
    Call(DispatchStepV),
}

impl View for SessionReply {
    type V = SessionReplyV;

    open spec fn view(&self) -> SessionReplyV {
        match self {
            SessionReply::Initialized(d) => SessionReplyV::Initialized(d@),
            SessionReply::Tools(infos) => SessionReplyV::Tools(infos.deep_view()),
            SessionReply::Call(s) => SessionReplyV::Call(s@),
        }
    }
}

impl DeepView for SessionReply {
    type V = SessionReplyV;

    open spec fn deep_view(&self) -> SessionReplyV {
        self.view()
    }
}

/// The names of the registered capabilities, in registration order.
pub open spec fn spec_tool_names(caps: Seq<CapabilityV>) -> Seq<Seq<char>> {
    caps.map_values(|c: CapabilityV| c.name)
}

/// The introspection listing the registry gives rise to.
pub open spec fn spec_tool_infos(caps: Seq<CapabilityV>) -> Seq<CapabilityInfoV> {
    caps.map_values(|c: CapabilityV| spec_info_of(c))
}

/// The protocol version this server declares.
pub open spec fn spec_protocol_version() -> Seq<char> {
    "2024-11-05"@
}

/// The static statement of this server's purpose.
pub open spec fn spec_instructions() -> Seq<char> {
    "This server provides a time and weather tools."@
}

/// The declaration the server answers negotiation and introspection with:
/// derived from the registry's content plus its static self-description.
pub open spec fn spec_get_info(caps: Seq<CapabilityV>) -> ServerDeclarationV {
    ServerDeclarationV {
        protocol_version: spec_protocol_version(),
        instructions: spec_instructions(),
        tools: spec_tool_infos(caps),
    }
}

/// The session information recorded when a client initializes.
pub open spec fn spec_session_info(
    caps: Seq<CapabilityV>,
    params: InitializeParamsV,
) -> SessionInfoV {
    SessionInfoV {
        protocol_version: params.protocol_version,
        client_capabilities: params.client_capabilities,
        server_tool_names: spec_tool_names(caps),
        instructions: spec_instructions(),
    }
}

/// One step of the session state machine: the new state and the reply, for
/// any message in any state.
pub open spec fn spec_step(
    caps: Seq<CapabilityV>,
    config: ServerConfigV,
    state: SessionStateV,
    msg: IncomingMessageV,
) -> (SessionStateV, SessionReplyV) {
    match msg {
        IncomingMessageV::Initialize(p) => (
            SessionStateV::Ready(spec_session_info(caps, p)),
            SessionReplyV::Initialized(spec_get_info(caps)),
        ),
        IncomingMessageV::ListTools => (state, SessionReplyV::Tools(spec_tool_infos(caps))),
        IncomingMessageV::ToolCall(req) => match state {
            SessionStateV::Uninitialized => (
                state,
                SessionReplyV::Call(
                    spec_fail_step(
                        ErrorCode::ProtocolViolation,
                        "Tool call received before initialization completed"@,
                    ),
                ),
            ),
            SessionStateV::Ready(_) => (
                state,
                SessionReplyV::Call(spec_plan(caps, config, req)),
            ),
        },
    }
}

/// Answer introspection: the server's declaration, straight from the
/// registry.
pub fn get_info(reg: &Registry) -> (d: ServerDeclaration)
    ensures
        d@ == spec_get_info(reg@),
{
    let tools = reg.list();
    proof {
        assert(tools.deep_view() =~= spec_tool_infos(reg@));
    }
    ServerDeclaration {
        protocol_version: "2024-11-05".to_owned(),
        instructions: "This server provides a time and weather tools.".to_owned(),
        tools,
    }
}

/// One connection's negotiator.
pub struct Session {
    state: SessionState,
}

impl View for Session {
    type V = SessionStateV;

    closed spec fn view(&self) -> SessionStateV {
        self.state@
    }
}

impl Session {
    /// A fresh session, before any handshake.
    pub fn new() -> (s: Session)
        ensures
            s@ == SessionStateV::Uninitialized,
    {
        Session { state: SessionState::Uninitialized }
    }

    /// Perform the initialization handshake: record the client's
    /// declaration, move to `Ready`, and answer with the server's own.
    pub fn initialize(&mut self, reg: &Registry, params: &InitializeParams) -> (d:
        ServerDeclaration)
        ensures
            final(self)@ == SessionStateV::Ready(spec_session_info(reg@, params@)),
            d@ == spec_get_info(reg@),
    {
        let server_tool_names = reg.tool_names();
        let info = SessionInfo {
            protocol_version: params.protocol_version.clone(),
            client_capabilities: clone_strings(&params.client_capabilities),
            server_tool_names,
            instructions: "This server provides a time and weather tools.".to_owned(),
        };
        self.state = SessionState::Ready(info);
        get_info(reg)
    }

    /// Handle one protocol message: exactly the step the session state
    /// machine prescribes, deterministic in the state and the message.
    pub fn handle_message(
        &mut self,
        reg: &Registry,
        config: &ServerConfig,
        msg: &IncomingMessage,
    ) -> (r: SessionReply)
        ensures
            final(self)@ == spec_step(reg@, config@, old(self)@, msg@).0,
            r@ == spec_step(reg@, config@, old(self)@, msg@).1,
    {
        match msg {
            IncomingMessage::Initialize(p) => SessionReply::Initialized(self.initialize(reg, p)),
            IncomingMessage::ListTools => {
                let tools = reg.list();
                proof {
                    assert(tools.deep_view() =~= spec_tool_infos(reg@));
                }
                SessionReply::Tools(tools)
            },
            IncomingMessage::ToolCall(req) => match &self.state {
                SessionState::Uninitialized => SessionReply::Call(
                    DispatchStep::Done(
                        ToolCallResult::Failure(
                            ToolFailure::new(
                                ErrorCode::ProtocolViolation,
                                "Tool call received before initialization completed",
                            ),
                        ),
                    ),
                ),
                SessionState::Ready(_) => SessionReply::Call(
                    crate::dispatch::plan_dispatch(reg, config, req),
                ),
            },
        }
    }
}

/// The replies one connection's serving loop produces for a sequence of
/// messages, handled strictly in order, and the state it ends in.
pub open spec fn spec_run(
    caps: Seq<CapabilityV>,
    config: ServerConfigV,
    state: SessionStateV,
    msgs: Seq<IncomingMessageV>,
) -> (Seq<SessionReplyV>, SessionStateV)
    decreases msgs.len(),
{
    if msgs.len() == 0 {
        (Seq::<SessionReplyV>::empty(), state)
    } else {
        let stepped = spec_step(caps, config, state, msgs[0]);
        let rest = spec_run(caps, config, stepped.0, msgs.skip(1));
        (seq![stepped.1] + rest.0, rest.1)
    }
}

/// Run one connection's serving loop over a sequence of already-received
/// messages: handle each in order and collect the replies. Within one
/// connection, replies come in the order the requests came; the reply at
/// each index answers the message at the same index.
pub fn serve_messages(
    reg: &Registry,
    config: &ServerConfig,
    session: &mut Session,
    msgs: &Vec<IncomingMessage>,
) -> (rs: Vec<SessionReply>)
    ensures
        rs.deep_view() == spec_run(reg@, config@, old(session)@, msgs.deep_view()).0,
        final(session)@ == spec_run(reg@, config@, old(session)@, msgs.deep_view()).1,
        rs@.len() == msgs@.len(),
{
    let ghost msgsv = msgs.deep_view();
    let ghost s0 = session@;
    let mut rs: Vec<SessionReply> = Vec::new();
    let mut i: usize = 0;
    proof {
        assert(msgsv.skip(0) =~= msgsv);
        assert(rs.deep_view() =~= Seq::<SessionReplyV>::empty());
    }
    while i < msgs.len()
        invariant
            0 <= i <= msgs@.len(),
            msgsv == msgs.deep_view(),
            msgsv.len() == msgs@.len(),
            rs@.len() == i,
            spec_run(reg@, config@, s0, msgsv).0 == rs.deep_view() + spec_run(
                reg@,
                config@,
                session@,
                msgsv.skip(i as int),
            ).0,
            spec_run(reg@, config@, s0, msgsv).1 == spec_run(
                reg@,
                config@,
                session@,
                msgsv.skip(i as int),
            ).1,
        decreases msgs@.len() - i,
    {
        let ghost pre_state = session@;
        let ghost pre_deep = rs.deep_view();
        proof {
            assert(msgsv.skip(i as int)[0] == msgsv[i as int]);
            assert(msgsv[i as int] == msgs@[i as int].deep_view());
        }
        let r = session.handle_message(reg, config, &msgs[i]);
        let ghost prev = rs@;
        rs.push(r);
        proof {
            assert forall|j: int| 0 <= j < rs@.len() implies (#[trigger] rs.deep_view()[j]) == (
            if j < prev.len() {
                pre_deep[j]
            } else {
                r@
            }) by {
                assert(rs.deep_view()[j] == rs@[j].deep_view());
                if j < prev.len() {
                    assert(rs@[j] == prev[j]);
                    assert(pre_deep[j] == prev[j].deep_view());
                }
            }
            assert(rs.deep_view() =~= pre_deep + seq![r@]);
            assert(msgsv.skip(i as int).skip(1) =~= msgsv.skip(i as int + 1));
            let stepped = spec_step(reg@, config@, pre_state, msgsv[i as int]);
            assert(stepped.0 == session@ && stepped.1 == r@);
            assert(spec_run(reg@, config@, pre_state, msgsv.skip(i as int)).0 == seq![r@]
                + spec_run(reg@, config@, session@, msgsv.skip(i as int + 1)).0);
            assert((pre_deep + seq![r@]) + spec_run(
                reg@,
                config@,
                session@,
                msgsv.skip(i as int + 1),
            ).0 =~= pre_deep + (seq![r@] + spec_run(
                reg@,
                config@,
                session@,
                msgsv.skip(i as int + 1),
            ).0));
        }
        i = i + 1;
    }
    proof {
        assert(msgsv.skip(i as int) =~= Seq::<IncomingMessageV>::empty());
        assert(spec_run(reg@, config@, session@, msgsv.skip(i as int)).0
            =~= Seq::<SessionReplyV>::empty());
        assert(spec_run(reg@, config@, s0, msgsv).0 =~= rs.deep_view());
    }
    rs
}

/// Law: a tool call that arrives while the session is still uninitialized
/// is answered with a final `ProtocolViolation` failure — no handler runs,
/// no outbound call is made — and the negotiator's state is unchanged.
pub proof fn lemma_tool_call_before_init(
    caps: Seq<CapabilityV>,
    config: ServerConfigV,
    req: ToolCallRequestV,
)
    ensures
        spec_step(caps, config, SessionStateV::Uninitialized, IncomingMessageV::ToolCall(req)).0
            == SessionStateV::Uninitialized,
        spec_step(caps, config, SessionStateV::Uninitialized, IncomingMessageV::ToolCall(req)).1
            == SessionReplyV::Call(
            spec_fail_step(
                ErrorCode::ProtocolViolation,
                "Tool call received before initialization completed"@,
            ),
        ),
{
}

} // verus!
