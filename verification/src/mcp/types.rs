//! The protocol's messages and responses, with their mathematical views.
//!
//! A correlation identifier is kept in the form it arrived in: a JSON string
//! stays a string and a JSON integer stays an integer, so that a response
//! carries back exactly what the request brought.

use vstd::prelude::*;
use crate::json::{Json, json_of};

verus! {

/// The client's correlation identifier.
#[derive(Debug, Clone, PartialEq, Eq)]
pub enum RequestId {
    Number(i64),
    Text(String),
}

pub enum RequestIdView {
    Number(i64),
    Text(Seq<char>),
}

impl View for RequestId {
    type V = RequestIdView;

    open spec fn view(&self) -> RequestIdView {
        match *self {
            RequestId::Number(n) => RequestIdView::Number(n),
            RequestId::Text(text) => RequestIdView::Text(text@),
        }
    }
}

#[derive(Debug, Clone, PartialEq)]
pub enum MCPMessage {
    Initialize { id: RequestId, params: InitializeParams },
    ListTools { id: RequestId },
    CallTool { id: RequestId, params: CallToolParams },
    Ping { id: RequestId },
}

pub enum MessageView {
    Initialize { id: RequestIdView, params: InitializeParamsView },
    ListTools { id: RequestIdView },
    CallTool { id: RequestIdView, params: CallToolParamsView },
    Ping { id: RequestIdView },
}

impl View for MCPMessage {
    type V = MessageView;

    open spec fn view(&self) -> MessageView {
        match *self {
            MCPMessage::Initialize { id, params } => MessageView::Initialize {
                id: id@,
                params: params@,
            },
            MCPMessage::ListTools { id } => MessageView::ListTools { id: id@ },
            MCPMessage::CallTool { id, params } => MessageView::CallTool {
                id: id@,
                params: params@,
            },
            MCPMessage::Ping { id } => MessageView::Ping { id: id@ },
        }
    }
}

impl MessageView {
    /// The correlation identifier that the message carries.
    pub open spec fn id(self) -> RequestIdView {
        match self {
            MessageView::Initialize { id, .. } => id,
            MessageView::ListTools { id } => id,
            MessageView::CallTool { id, .. } => id,
            MessageView::Ping { id } => id,
        }
    }
}

#[derive(Debug, Clone, PartialEq)]
pub enum MCPResponse {
    InitializeResult { id: RequestId, result: InitializeResult },
    ListToolsResult { id: RequestId, result: ListToolsResult },
    CallToolResult { id: RequestId, result: CallToolResult },
    Pong { id: RequestId },
    Error { id: RequestId, error: MCPError },
}

pub enum ResponseView {
    InitializeResult { id: RequestIdView, result: InitializeResultView },
    ListToolsResult { id: RequestIdView, result: ListToolsResultView },
    CallToolResult { id: RequestIdView, result: CallToolResultView },
    Pong { id: RequestIdView },
    Error { id: RequestIdView, error: ErrorView },
}

impl View for MCPResponse {
    type V = ResponseView;

    open spec fn view(&self) -> ResponseView {
        match *self {
            MCPResponse::InitializeResult { id, result } => ResponseView::InitializeResult {
                id: id@,
                result: result@,
            },
            MCPResponse::ListToolsResult { id, result } => ResponseView::ListToolsResult {
                id: id@,
                result: result@,
            },
            MCPResponse::CallToolResult { id, result } => ResponseView::CallToolResult {
                id: id@,
                result: result@,
            },
            MCPResponse::Pong { id } => ResponseView::Pong { id: id@ },
            MCPResponse::Error { id, error } => ResponseView::Error { id: id@, error: error@ },
        }
    }
}

impl ResponseView {
    /// The correlation identifier that the response carries.
    pub open spec fn id(self) -> RequestIdView {
        match self {
            ResponseView::InitializeResult { id, .. } => id,
            ResponseView::ListToolsResult { id, .. } => id,
            ResponseView::CallToolResult { id, .. } => id,
            ResponseView::Pong { id } => id,
            ResponseView::Error { id, .. } => id,
        }
    }
}

#[derive(Debug, Clone, PartialEq)]
pub struct InitializeParams {
    pub protocol_version: String,
    pub capabilities: ClientCapabilities,
    pub client_info: ClientInfo,
}

pub struct InitializeParamsView {
    pub protocol_version: Seq<char>,
    pub capabilities: ClientCapabilities,
    pub client_info: ClientInfoView,
}

impl View for InitializeParams {
    type V = InitializeParamsView;

    open spec fn view(&self) -> InitializeParamsView {
        InitializeParamsView {
            protocol_version: self.protocol_version@,
            capabilities: self.capabilities,
            client_info: self.client_info@,
        }
    }
}

#[derive(Debug, Clone, Copy, PartialEq, Eq)]
pub struct ClientCapabilities {
    pub roots: Option<RootsCapability>,
    pub sampling: Option<SamplingCapability>,
}

#[derive(Debug, Clone, Copy, PartialEq, Eq)]
pub struct RootsCapability {
    pub list_changed: bool,
}

#[derive(Debug, Clone, Copy, PartialEq, Eq)]
pub struct SamplingCapability {}

#[derive(Debug, Clone, PartialEq, Eq)]
pub struct ClientInfo {
    pub name: String,
    pub version: String,
}

pub struct ClientInfoView {
    pub name: Seq<char>,
    pub version: Seq<char>,
}

impl View for ClientInfo {
    type V = ClientInfoView;

    open spec fn view(&self) -> ClientInfoView {
        ClientInfoView { name: self.name@, version: self.version@ }
    }
}

#[derive(Debug, Clone, PartialEq, Eq)]
pub struct InitializeResult {
    pub protocol_version: String,
    pub capabilities: ServerCapabilities,
    pub server_info: ServerInfo,
}

pub struct InitializeResultView {
    pub protocol_version: Seq<char>,
    pub capabilities: ServerCapabilities,
    pub server_info: ServerInfoView,
}

impl View for InitializeResult {
    type V = InitializeResultView;

    open spec fn view(&self) -> InitializeResultView {
        InitializeResultView {
            protocol_version: self.protocol_version@,
            capabilities: self.capabilities,
            server_info: self.server_info@,
        }
    }
}

#[derive(Debug, Clone, Copy, PartialEq, Eq)]
pub struct ServerCapabilities {
    pub logging: Option<LoggingCapability>,
    pub prompts: Option<PromptsCapability>,
    pub resources: Option<ResourcesCapability>,
    pub tools: Option<ToolsCapability>,
}

impl Default for ServerCapabilities {
    /// The server that advertises nothing.
    fn default() -> (r: ServerCapabilities)
        ensures
            r == (ServerCapabilities { logging: None, prompts: None, resources: None, tools: None }),
    {
        ServerCapabilities { logging: None, prompts: None, resources: None, tools: None }
    }
}

#[derive(Debug, Clone, Copy, PartialEq, Eq)]
pub struct LoggingCapability {}

#[derive(Debug, Clone, Copy, PartialEq, Eq)]
pub struct PromptsCapability {
    pub list_changed: bool,
}

#[derive(Debug, Clone, Copy, PartialEq, Eq)]
pub struct ResourcesCapability {
    pub subscribe: bool,
    pub list_changed: bool,
}

#[derive(Debug, Clone, Copy, PartialEq, Eq)]
pub struct ToolsCapability {
    pub list_changed: bool,
}

#[derive(Debug, Clone, PartialEq, Eq)]
pub struct ServerInfo {
    pub name: String,
    pub version: String,
}

pub struct ServerInfoView {
    pub name: Seq<char>,
    pub version: Seq<char>,
}

impl View for ServerInfo {
    type V = ServerInfoView;

    open spec fn view(&self) -> ServerInfoView {
        ServerInfoView { name: self.name@, version: self.version@ }
    }
}

#[derive(Debug, Clone, PartialEq)]
pub struct ListToolsResult {
    pub tools: Vec<Tool>,
}

pub struct ListToolsResultView {
    pub tools: Seq<ToolView>,
}

/// The views of a list of tool descriptors, in order.
pub open spec fn tool_views(tools: Seq<Tool>) -> Seq<ToolView> {
    Seq::new(tools.len(), |i: int| tools[i]@)
}

impl View for ListToolsResult {
    type V = ListToolsResultView;

    open spec fn view(&self) -> ListToolsResultView {
        ListToolsResultView { tools: tool_views(self.tools@) }
    }
}

/// A tool descriptor: its name, what it does, and the shape of its
/// parameters as a JSON schema.
#[derive(Debug, Clone, PartialEq)]
pub struct Tool {
    pub name: String,
    pub description: String,
    pub input_schema: serde_json::Value,
}

pub struct ToolView {
    pub name: Seq<char>,
    pub description: Seq<char>,
    pub input_schema: Json,
}

impl View for Tool {
    type V = ToolView;

    open spec fn view(&self) -> ToolView {
        ToolView {
            name: self.name@,
            description: self.description@,
            input_schema: json_of(self.input_schema),
        }
    }
}

#[derive(Debug, Clone, PartialEq)]
pub struct CallToolParams {
    pub name: String,
    pub arguments: serde_json::Value,
}

pub struct CallToolParamsView {
    pub name: Seq<char>,
    pub arguments: Json,
}

impl View for CallToolParams {
    type V = CallToolParamsView;

    open spec fn view(&self) -> CallToolParamsView {
        CallToolParamsView { name: self.name@, arguments: json_of(self.arguments) }
    }
}

#[derive(Debug, Clone, PartialEq, Eq)]
pub struct CallToolResult {
    pub content: Vec<ToolContent>,
}

pub struct CallToolResultView {
    pub content: Seq<ToolContentView>,
}

/// The views of a list of content blocks, in order.
pub open spec fn content_views(content: Seq<ToolContent>) -> Seq<ToolContentView> {
    Seq::new(content.len(), |i: int| content[i]@)
}

impl View for CallToolResult {
    type V = CallToolResultView;

    open spec fn view(&self) -> CallToolResultView {
        CallToolResultView { content: content_views(self.content@) }
    }
}

#[derive(Debug, Clone, PartialEq, Eq)]
pub enum ToolContent {
    Text { text: String },
    Image { data: String, mime_type: String },
}

pub enum ToolContentView {
    Text { text: Seq<char> },
    Image { data: Seq<char>, mime_type: Seq<char> },
}

impl View for ToolContent {
    type V = ToolContentView;

    open spec fn view(&self) -> ToolContentView {
        match *self {
            ToolContent::Text { text } => ToolContentView::Text { text: text@ },
            ToolContent::Image { data, mime_type } => ToolContentView::Image {
                data: data@,
                mime_type: mime_type@,
            },
        }
    }
}

#[derive(Debug, Clone, PartialEq)]
pub struct MCPError {
    pub code: i32,
    pub message: String,
    pub data: Option<serde_json::Value>,
}

pub struct ErrorView {
    pub code: i32,
    pub message: Seq<char>,
    pub data: Option<Json>,
}

impl View for MCPError {
    type V = ErrorView;

    open spec fn view(&self) -> ErrorView {
        ErrorView {
            code: self.code,
            message: self.message@,
            data: match self.data {
                Some(value) => Some(json_of(value)),
                None => None,
            },
        }
    }
}

} // verus!
