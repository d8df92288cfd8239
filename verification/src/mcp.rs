//! The message dispatcher and its tool registry.
//!
//! The dispatcher keeps nothing between requests: every request is answered
//! from the registry and the execution backend alone, in whatever order the
//! requests come. Each request gets exactly one response, with the request's
//! own correlation identifier. Where the backend needs a process to be run,
//! the dispatcher hands out the call and [`MCPServer::complete`] makes the
//! response from how the process ended; a failure of the process becomes an
//! error response like any other.

pub mod arguments;
pub mod codec;
pub mod registry;
pub mod types;

use vstd::prelude::*;
use crate::mcp::arguments::{command_for, command_of, lemma_registered_tools_have_commands};
use crate::mcp::registry::{ToolRegistry, catalog, is_registered};
pub use crate::mcp::types::{
    CallToolParams, CallToolParamsView, CallToolResult, CallToolResultView, ClientCapabilities,
    ClientInfo, ClientInfoView, ErrorView, InitializeParams, InitializeParamsView,
    InitializeResult, InitializeResultView, ListToolsResult, ListToolsResultView,
    LoggingCapability, MCPError, MCPMessage, MCPResponse, MessageView, PromptsCapability,
    RequestId, RequestIdView, ResourcesCapability, ResponseView, RootsCapability,
    SamplingCapability, ServerCapabilities, ServerInfo, ServerInfoView, Tool, ToolContent,
    ToolContentView, ToolView, ToolsCapability, content_views, tool_views,
};
use crate::p4::mock::{lemma_mock_reply_is_not_empty, mock_reply};
use crate::p4::{
    Execution, ExecutionError, ExecutionErrorView, ExecutionView, Invocation, InvocationView,
    P4Handler, ProcessOutcome, conclusion_of, conclusion_view, execution_of,
};

verus! {

/// The code of the error that answers a call of an unknown tool.
pub const UNKNOWN_TOOL: i32 = -32602;

/// The code of the error that answers a call whose command failed.
pub const EXECUTION_FAILED: i32 = -32603;

/// A tool call that waits for its process to be run.
#[derive(Debug, Clone, PartialEq, Eq)]
pub struct PendingCall {
    pub id: RequestId,
    pub invocation: Invocation,
}

pub struct PendingCallView {
    pub id: RequestIdView,
    pub invocation: InvocationView,
}

impl View for PendingCall {
    type V = PendingCallView;

    open spec fn view(&self) -> PendingCallView {
        PendingCallView { id: self.id@, invocation: self.invocation@ }
    }
}

/// What the dispatcher makes of a request: the response, or the process
/// that has to run before there is one.
#[derive(Debug, Clone, PartialEq)]
pub enum Dispatch {
    Reply(MCPResponse),
    Spawn(PendingCall),
}

pub enum DispatchView {
    Reply(ResponseView),
    Spawn(PendingCallView),
}

impl View for Dispatch {
    type V = DispatchView;

    open spec fn view(&self) -> DispatchView {
        match *self {
            Dispatch::Reply(response) => DispatchView::Reply(response@),
            Dispatch::Spawn(call) => DispatchView::Spawn(call@),
        }
    }
}

impl DispatchView {
    /// The correlation identifier that the response carries or will carry.
    pub open spec fn id(self) -> RequestIdView {
        match self {
            DispatchView::Reply(response) => response.id(),
            DispatchView::Spawn(call) => call.id,
        }
    }
}

/// The result of every initialize request: the protocol version, support
/// for tools and nothing else, and the server's identity.
pub open spec fn initialize_result() -> InitializeResultView {
    InitializeResultView {
        protocol_version: "2024-11-05"@,
        capabilities: ServerCapabilities {
            logging: None,
            prompts: None,
            resources: None,
            tools: Some(ToolsCapability { list_changed: false }),
        },
        server_info: ServerInfoView { name: "p4-mcp"@, version: "0.1.0"@ },
    }
}

/// The result of a tool call that gave a text: one text block.
pub open spec fn text_result(text: Seq<char>) -> CallToolResultView {
    CallToolResultView { content: seq![ToolContentView::Text { text }] }
}

/// The error that answers a call of a tool that the registry does not have.
pub open spec fn unknown_tool_error(name: Seq<char>) -> ErrorView {
    ErrorView { code: UNKNOWN_TOOL, message: "Unknown tool: "@ + name, data: None }
}

/// The error that answers a call whose command failed, with the text that
/// the failure left.
pub open spec fn execution_error(error: ExecutionErrorView) -> ErrorView {
    ErrorView {
        code: EXECUTION_FAILED,
        message: match error {
            ExecutionErrorView::ToolFailed(text) => "p4 command failed: "@ + text,
            ExecutionErrorView::SpawnFailed(text) => "Failed to run p4: "@ + text,
        },
        data: None,
    }
}

/// The response to a tool call whose command has come to a result.
pub open spec fn response_of(
    id: RequestIdView,
    result: Result<Seq<char>, ExecutionErrorView>,
) -> ResponseView {
    match result {
        Ok(text) => ResponseView::CallToolResult { id, result: text_result(text) },
        Err(error) => ResponseView::Error { id, error: execution_error(error) },
    }
}

/// What a server with the given strategy makes of a request.
pub open spec fn dispatch_of(mock_mode: bool, message: MessageView) -> DispatchView {
    match message {
        MessageView::Initialize { id, params } => DispatchView::Reply(
            ResponseView::InitializeResult { id, result: initialize_result() },
        ),
        MessageView::ListTools { id } => DispatchView::Reply(
            ResponseView::ListToolsResult { id, result: ListToolsResultView { tools: catalog() } },
        ),
        MessageView::CallTool { id, params } => match command_of(params.name, params.arguments) {
            Some(command) => match execution_of(mock_mode, command) {
                ExecutionView::Done(text) => DispatchView::Reply(response_of(id, Ok(text))),
                ExecutionView::Spawn(invocation) => DispatchView::Spawn(
                    PendingCallView { id, invocation },
                ),
            },
            None => DispatchView::Reply(
                ResponseView::Error { id, error: unknown_tool_error(params.name) },
            ),
        },
        MessageView::Ping { id } => DispatchView::Reply(ResponseView::Pong { id }),
    }
}

/// The response to a pending call whose process has ended.
pub open spec fn completion_of(call: PendingCallView, outcome: ProcessOutcome) -> ResponseView {
    response_of(call.id, conclusion_of(outcome))
}

/// What the server makes of a sequence of requests: of each its own, in the
/// order of the requests.
pub open spec fn dispatches_of(mock_mode: bool, messages: Seq<MessageView>) -> Seq<DispatchView> {
    Seq::new(messages.len(), |i: int| dispatch_of(mock_mode, messages[i]))
}

/// The views of a list of requests, in order.
pub open spec fn message_views(messages: Seq<MCPMessage>) -> Seq<MessageView> {
    Seq::new(messages.len(), |i: int| messages[i]@)
}

/// The views of a list of dispatches, in order.
pub open spec fn dispatch_views(dispatches: Seq<Dispatch>) -> Seq<DispatchView> {
    Seq::new(dispatches.len(), |i: int| dispatches[i]@)
}

/// Every request gets one answer, and the answer carries the request's own
/// correlation identifier, whether it is given at once or after a process.
pub proof fn lemma_dispatch_keeps_id(mock_mode: bool, message: MessageView)
    ensures
        dispatch_of(mock_mode, message).id() == message.id(),
{
}

/// The answer to a pending call carries the call's correlation identifier,
/// however the process ended.
pub proof fn lemma_completion_keeps_id(call: PendingCallView, outcome: ProcessOutcome)
    ensures
        completion_of(call, outcome).id() == call.id,
{
}

/// Under the mock strategy, a call of a registered tool is answered with a
/// tool result that holds exactly one text block, and the text is not empty.
pub proof fn lemma_registered_call_gives_text(id: RequestIdView, params: CallToolParamsView)
    requires
        is_registered(params.name),
    ensures
        ({
            let text = mock_reply(command_of(params.name, params.arguments)->0);
            &&& dispatch_of(true, MessageView::CallTool { id, params }) == DispatchView::Reply(
                ResponseView::CallToolResult { id, result: text_result(text) },
            )
            &&& text_result(text).content.len() == 1
            &&& text_result(text).content[0] == (ToolContentView::Text { text })
            &&& text.len() > 0
        }),
{
    lemma_registered_tools_have_commands(params.name, params.arguments);
    lemma_mock_reply_is_not_empty(command_of(params.name, params.arguments)->0);
}

/// A call of a tool that the registry does not have is answered with an
/// error of code -32602 whose message ends with the tool's name as it was
/// given.
pub proof fn lemma_unregistered_call_gives_error(
    mock_mode: bool,
    id: RequestIdView,
    params: CallToolParamsView,
)
    requires
        !is_registered(params.name),
    ensures
        ({
            let error = unknown_tool_error(params.name);
            &&& dispatch_of(mock_mode, MessageView::CallTool { id, params }) == DispatchView::Reply(
                ResponseView::Error { id, error },
            )
            &&& error.code == -32602
            &&& error.message == "Unknown tool: "@ + params.name
            &&& error.message.subrange(
                error.message.len() - params.name.len(),
                error.message.len() as int,
            ) == params.name
        }),
{
    lemma_registered_tools_have_commands(params.name, params.arguments);
    let message = "Unknown tool: "@ + params.name;
    assert(message.subrange(message.len() - params.name.len(), message.len() as int)
        =~= params.name);
}

/// Requests handled in sequence are answered in sequence: there are as many
/// answers as requests, and the answer in each place carries the
/// correlation identifier of the request in that place.
pub proof fn lemma_answers_keep_order(mock_mode: bool, messages: Seq<MessageView>)
    ensures
        dispatches_of(mock_mode, messages).len() == messages.len(),
        forall|i: int|
            0 <= i < messages.len() ==> (#[trigger] dispatches_of(mock_mode, messages)[i]).id()
                == messages[i].id(),
{
}

/// The server: the registry and the execution backend, both fixed when the
/// server is made.
pub struct MCPServer {
    tools: ToolRegistry,
    p4_handler: P4Handler,
}

impl MCPServer {
    /// Whether the server's backend answers with canned text.
    pub closed spec fn is_mock(&self) -> bool {
        self.p4_handler.is_mock()
    }

    /// The tools that the server's registry holds.
    pub closed spec fn tools(&self) -> Seq<ToolView> {
        self.tools@
    }

    /// Makes a server with the catalog's tools and the chosen strategy.
    pub fn new(mock_mode: bool) -> (r: MCPServer)
        ensures
            r.is_mock() == mock_mode,
            r.tools() == catalog(),
    {
        MCPServer { tools: ToolRegistry::new(), p4_handler: P4Handler::new(mock_mode) }
    }

    /// The response to a tool call whose command has come to a result: the
    /// text in one text block, or the failure as an error.
    pub fn respond(id: RequestId, result: Result<String, ExecutionError>) -> (r: MCPResponse)
        ensures
            r@ == response_of(id@, conclusion_view(result)),
    {
        match result {
            Ok(text) => {
                let mut content: Vec<ToolContent> = Vec::new();
                content.push(ToolContent::Text { text });
                assert(content_views(content@) =~= seq![ToolContentView::Text { text: text@ }]);
                MCPResponse::CallToolResult { id, result: CallToolResult { content } }
            },
            Err(error) => {
                let message = match error {
                    ExecutionError::ToolFailed(text) => {
                        let mut message = "p4 command failed: ".to_string();
                        message.append(text.as_str());
                        message
                    },
                    ExecutionError::SpawnFailed(text) => {
                        let mut message = "Failed to run p4: ".to_string();
                        message.append(text.as_str());
                        message
                    },
                };
                MCPResponse::Error {
                    id,
                    error: MCPError { code: EXECUTION_FAILED, message, data: None },
                }
            },
        }
    }

    /// Answers one request, or says which process must run before it can be
    /// answered. The server is left as it was.
    ///
    /// A call of a tool that the registry does not have is answered with an
    /// error that names the tool. Every other request succeeds.
    pub fn handle_message(&mut self, message: MCPMessage) -> (r: Dispatch)
        ensures
            *final(self) == *old(self),
            r@ == dispatch_of(old(self).is_mock(), message@),
            r@.id() == message@.id(),
    {
        match message {
            MCPMessage::Initialize { id, params } => Dispatch::Reply(
                MCPResponse::InitializeResult {
                    id,
                    result: InitializeResult {
                        protocol_version: "2024-11-05".to_string(),
                        capabilities: ServerCapabilities {
                            logging: None,
                            prompts: None,
                            resources: None,
                            tools: Some(ToolsCapability { list_changed: false }),
                        },
                        server_info: ServerInfo {
                            name: "p4-mcp".to_string(),
                            version: "0.1.0".to_string(),
                        },
                    },
                },
            ),
            MCPMessage::ListTools { id } => Dispatch::Reply(
                MCPResponse::ListToolsResult {
                    id,
                    result: ListToolsResult { tools: self.tools.list() },
                },
            ),
            MCPMessage::CallTool { id, params } => {
                proof {
                    lemma_registered_tools_have_commands(params.name@, params@.arguments);
                }
                let command = if self.tools.contains(params.name.as_str()) {
                    command_for(params.name.as_str(), &params.arguments)
                } else {
                    None
                };
                match command {
                    Some(command) => match self.p4_handler.execute(command) {
                        Execution::Done(text) => Dispatch::Reply(MCPServer::respond(id, Ok(text))),
                        Execution::Spawn(invocation) => Dispatch::Spawn(
                            PendingCall { id, invocation },
                        ),
                    },
                    None => {
                        let mut message = "Unknown tool: ".to_string();
                        message.append(params.name.as_str());
                        Dispatch::Reply(
                            MCPResponse::Error {
                                id,
                                error: MCPError { code: UNKNOWN_TOOL, message, data: None },
                            },
                        )
                    },
                }
            },
            MCPMessage::Ping { id } => Dispatch::Reply(MCPResponse::Pong { id }),
        }
    }

    /// Answers a pending call once its process has ended: with the
    /// process's output if it succeeded, and with an error that carries its
    /// diagnostics if it failed or could not be started.
    pub fn complete(&self, call: PendingCall, outcome: ProcessOutcome) -> (r: MCPResponse)
        ensures
            r@ == completion_of(call@, outcome),
            r@.id() == call@.id,
    {
        MCPServer::respond(call.id, P4Handler::conclude(outcome))
    }

    /// Answers requests one after another, in the order given.
    pub fn handle_all(&mut self, messages: Vec<MCPMessage>) -> (r: Vec<Dispatch>)
        ensures
            *final(self) == *old(self),
            dispatch_views(r@) == dispatches_of(old(self).is_mock(), message_views(messages@)),
    {
        let ghost start = *self;
        let ghost all = message_views(messages@);
        let mut r: Vec<Dispatch> = Vec::new();
        for message in it: messages
            invariant
                it.seq() == messages@,
                r.len() == it.index(),
                *self == start,
                all == message_views(messages@),
                dispatch_views(r@) == dispatches_of(start.is_mock(), all).take(it.index() as int),
        {
            let ghost before = r@;
            let ghost i = it.index() as int;
            assert(all[i] == message@);
            let dispatch = self.handle_message(message);
            r.push(dispatch);
            assert(dispatch_views(r@) =~= dispatch_views(before).push(dispatch@));
            assert(dispatch_views(r@) =~= dispatches_of(start.is_mock(), all).take(i + 1));
        }
        assert(dispatches_of(start.is_mock(), all).take(messages@.len() as int)
            =~= dispatches_of(start.is_mock(), all));
        r
    }
}

} // verus!
