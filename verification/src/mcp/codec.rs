//! The wire format: how requests are read from JSON and how requests and
//! responses are written as JSON.
//!
//! A request is an object with a `method`, an `id` and, for `initialize` and
//! `tools/call`, `params`. Members that the format does not name are passed
//! over. A response is an object with the request's `id` and either a
//! `result` or an `error`; an answer to a ping has the `id` alone. An
//! optional part that is absent is written as `null`, and read as absent
//! from `null` or from nothing.

use vstd::prelude::*;
use crate::json::{
    Json, JsonNumber, json_items, json_member, json_of, json_parse, json_text, object_insert,
    parse_value, value_array, value_as_bool, value_as_i64, value_as_str, value_bool,
    value_empty_object, value_get, value_integer, value_is_null, value_is_object, value_null,
    value_text, write_value,
};
use crate::mcp::types::{
    CallToolParams, CallToolParamsView, CallToolResult, CallToolResultView, ClientCapabilities,
    ClientInfo, ClientInfoView, ErrorView, InitializeParams, InitializeParamsView,
    InitializeResult, InitializeResultView, ListToolsResult, ListToolsResultView, MCPError,
    MCPMessage, MCPResponse, MessageView, RequestId, RequestIdView, ResponseView,
    RootsCapability, SamplingCapability, ServerCapabilities, ServerInfoView, Tool, ToolContent,
    ToolContentView, ToolView,
};
use crate::mcp::arguments::{text_arg, text_argument};
use crate::p4::commands::optional_text;
use crate::text::str_eq;

verus! {

/// An object with one member.
pub open spec fn object1(k1: Seq<char>, v1: Json) -> Json {
    Json::Object(Map::empty().insert(k1, v1))
}

/// An object with two members.
pub open spec fn object2(k1: Seq<char>, v1: Json, k2: Seq<char>, v2: Json) -> Json {
    Json::Object(Map::empty().insert(k1, v1).insert(k2, v2))
}

/// An object with three members.
pub open spec fn object3(
    k1: Seq<char>,
    v1: Json,
    k2: Seq<char>,
    v2: Json,
    k3: Seq<char>,
    v3: Json,
) -> Json {
    Json::Object(Map::empty().insert(k1, v1).insert(k2, v2).insert(k3, v3))
}

/// The JSON of a correlation identifier: a number or a string, as it is.
pub open spec fn id_json(id: RequestIdView) -> Json {
    match id {
        RequestIdView::Number(n) => Json::Number(JsonNumber::Integer(n as int)),
        RequestIdView::Text(text) => Json::Text(text),
    }
}

/// The JSON of a capability that says whether lists change, or `null`.
pub open spec fn list_changed_json(list_changed: Option<bool>) -> Json {
    match list_changed {
        Some(flag) => object1("listChanged"@, Json::Bool(flag)),
        None => Json::Null,
    }
}

/// The JSON of a capability without settings, or `null`.
pub open spec fn presence_json(present: bool) -> Json {
    if present {
        Json::Object(Map::empty())
    } else {
        Json::Null
    }
}

/// Whether lists change under an optional roots capability.
pub open spec fn roots_flag(roots: Option<RootsCapability>) -> Option<bool> {
    match roots {
        Some(capability) => Some(capability.list_changed),
        None => None,
    }
}

/// The JSON of a client's capabilities.
pub open spec fn client_capabilities_json(capabilities: ClientCapabilities) -> Json {
    object2(
        "roots"@,
        list_changed_json(roots_flag(capabilities.roots)),
        "sampling"@,
        presence_json(capabilities.sampling is Some),
    )
}

/// The JSON of a client's name and version.
pub open spec fn client_info_json(info: ClientInfoView) -> Json {
    object2("name"@, Json::Text(info.name), "version"@, Json::Text(info.version))
}

/// The JSON of the parameters of an initialize request.
pub open spec fn initialize_params_json(params: InitializeParamsView) -> Json {
    object3(
        "protocolVersion"@,
        Json::Text(params.protocol_version),
        "capabilities"@,
        client_capabilities_json(params.capabilities),
        "clientInfo"@,
        client_info_json(params.client_info),
    )
}

/// The JSON of the parameters of a tool call.
pub open spec fn call_tool_params_json(params: CallToolParamsView) -> Json {
    object2("name"@, Json::Text(params.name), "arguments"@, params.arguments)
}

/// The JSON of a request.
pub open spec fn message_json(message: MessageView) -> Json {
    match message {
        MessageView::Initialize { id, params } => object3(
            "method"@,
            Json::Text("initialize"@),
            "id"@,
            id_json(id),
            "params"@,
            initialize_params_json(params),
        ),
        MessageView::ListTools { id } => object2(
            "method"@,
            Json::Text("tools/list"@),
            "id"@,
            id_json(id),
        ),
        MessageView::CallTool { id, params } => object3(
            "method"@,
            Json::Text("tools/call"@),
            "id"@,
            id_json(id),
            "params"@,
            call_tool_params_json(params),
        ),
        MessageView::Ping { id } => object2("method"@, Json::Text("ping"@), "id"@, id_json(id)),
    }
}

/// The JSON of the server's capabilities: each one its settings, or `null`.
pub open spec fn server_capabilities_json(capabilities: ServerCapabilities) -> Json {
    Json::Object(
        Map::empty().insert("logging"@, presence_json(capabilities.logging is Some)).insert(
            "prompts"@,
            list_changed_json(
                match capabilities.prompts {
                    Some(prompts) => Some(prompts.list_changed),
                    None => None,
                },
            ),
        ).insert(
            "resources"@,
            match capabilities.resources {
                Some(resources) => object2(
                    "subscribe"@,
                    Json::Bool(resources.subscribe),
                    "listChanged"@,
                    Json::Bool(resources.list_changed),
                ),
                None => Json::Null,
            },
        ).insert(
            "tools"@,
            list_changed_json(
                match capabilities.tools {
                    Some(tools) => Some(tools.list_changed),
                    None => None,
                },
            ),
        ),
    )
}

/// The JSON of the server's name and version.
pub open spec fn server_info_json(info: ServerInfoView) -> Json {
    object2("name"@, Json::Text(info.name), "version"@, Json::Text(info.version))
}

/// The JSON of the result of an initialize request.
pub open spec fn initialize_result_json(result: InitializeResultView) -> Json {
    object3(
        "protocolVersion"@,
        Json::Text(result.protocol_version),
        "capabilities"@,
        server_capabilities_json(result.capabilities),
        "serverInfo"@,
        server_info_json(result.server_info),
    )
}

/// The JSON of a tool descriptor.
pub open spec fn tool_json(tool: ToolView) -> Json {
    object3(
        "name"@,
        Json::Text(tool.name),
        "description"@,
        Json::Text(tool.description),
        "inputSchema"@,
        tool.input_schema,
    )
}

/// The JSON of a list of tools, in its order.
pub open spec fn list_tools_result_json(result: ListToolsResultView) -> Json {
    object1("tools"@, Json::Array(Seq::new(result.tools.len(), |i: int| tool_json(result.tools[i]))))
}

/// The JSON of a content block, tagged with its type.
pub open spec fn content_json(content: ToolContentView) -> Json {
    match content {
        ToolContentView::Text { text } => object2(
            "type"@,
            Json::Text("text"@),
            "text"@,
            Json::Text(text),
        ),
        ToolContentView::Image { data, mime_type } => object3(
            "type"@,
            Json::Text("image"@),
            "data"@,
            Json::Text(data),
            "mimeType"@,
            Json::Text(mime_type),
        ),
    }
}

/// The JSON of the result of a tool call: its content blocks, in order.
pub open spec fn call_tool_result_json(result: CallToolResultView) -> Json {
    object1(
        "content"@,
        Json::Array(Seq::new(result.content.len(), |i: int| content_json(result.content[i]))),
    )
}

/// The JSON of an error; data that is absent is written as `null`.
pub open spec fn error_json(error: ErrorView) -> Json {
    object3(
        "code"@,
        Json::Number(JsonNumber::Integer(error.code as int)),
        "message"@,
        Json::Text(error.message),
        "data"@,
        match error.data {
            Some(data) => data,
            None => Json::Null,
        },
    )
}

/// The JSON of a response.
pub open spec fn response_json(response: ResponseView) -> Json {
    match response {
        ResponseView::InitializeResult { id, result } => object2(
            "id"@,
            id_json(id),
            "result"@,
            initialize_result_json(result),
        ),
        ResponseView::ListToolsResult { id, result } => object2(
            "id"@,
            id_json(id),
            "result"@,
            list_tools_result_json(result),
        ),
        ResponseView::CallToolResult { id, result } => object2(
            "id"@,
            id_json(id),
            "result"@,
            call_tool_result_json(result),
        ),
        ResponseView::Pong { id } => object1("id"@, id_json(id)),
        ResponseView::Error { id, error } => object2("id"@, id_json(id), "error"@, error_json(error)),
    }
}

fn id_value(id: &RequestId) -> (r: serde_json::Value)
    ensures
        json_of(r) == id_json(id@),
{
    match id {
        RequestId::Number(n) => value_integer(*n),
        RequestId::Text(text) => value_text(text.as_str()),
    }
}

fn list_changed_value(list_changed: Option<bool>) -> (r: serde_json::Value)
    ensures
        json_of(r) == list_changed_json(list_changed),
{
    match list_changed {
        Some(flag) => {
            let mut r = value_empty_object();
            object_insert(&mut r, "listChanged", value_bool(flag));
            r
        },
        None => value_null(),
    }
}

fn presence_value(present: bool) -> (r: serde_json::Value)
    ensures
        json_of(r) == presence_json(present),
{
    if present {
        value_empty_object()
    } else {
        value_null()
    }
}

fn named_value(name: &str, version: &str) -> (r: serde_json::Value)
    ensures
        json_of(r) == object2("name"@, Json::Text(name@), "version"@, Json::Text(version@)),
{
    let mut r = value_empty_object();
    object_insert(&mut r, "name", value_text(name));
    object_insert(&mut r, "version", value_text(version));
    r
}

fn initialize_params_value(params: &InitializeParams) -> (r: serde_json::Value)
    ensures
        json_of(r) == initialize_params_json(params@),
{
    let mut capabilities = value_empty_object();
    let roots = match params.capabilities.roots {
        Some(capability) => Some(capability.list_changed),
        None => None,
    };
    object_insert(&mut capabilities, "roots", list_changed_value(roots));
    object_insert(
        &mut capabilities,
        "sampling",
        presence_value(params.capabilities.sampling.is_some()),
    );
    let mut r = value_empty_object();
    object_insert(&mut r, "protocolVersion", value_text(params.protocol_version.as_str()));
    object_insert(&mut r, "capabilities", capabilities);
    object_insert(
        &mut r,
        "clientInfo",
        named_value(params.client_info.name.as_str(), params.client_info.version.as_str()),
    );
    r
}

/// Writes a request as a JSON value.
pub fn message_value(message: &MCPMessage) -> (r: serde_json::Value)
    ensures
        json_of(r) == message_json(message@),
{
    let mut r = value_empty_object();
    match message {
        MCPMessage::Initialize { id, params } => {
            object_insert(&mut r, "method", value_text("initialize"));
            object_insert(&mut r, "id", id_value(id));
            object_insert(&mut r, "params", initialize_params_value(params));
        },
        MCPMessage::ListTools { id } => {
            object_insert(&mut r, "method", value_text("tools/list"));
            object_insert(&mut r, "id", id_value(id));
        },
        MCPMessage::CallTool { id, params } => {
            let mut call = value_empty_object();
            object_insert(&mut call, "name", value_text(params.name.as_str()));
            object_insert(&mut call, "arguments", params.arguments.clone());
            object_insert(&mut r, "method", value_text("tools/call"));
            object_insert(&mut r, "id", id_value(id));
            object_insert(&mut r, "params", call);
        },
        MCPMessage::Ping { id } => {
            object_insert(&mut r, "method", value_text("ping"));
            object_insert(&mut r, "id", id_value(id));
        },
    }
    r
}

fn server_capabilities_value(capabilities: &ServerCapabilities) -> (r: serde_json::Value)
    ensures
        json_of(r) == server_capabilities_json(*capabilities),
{
    let prompts = match capabilities.prompts {
        Some(prompts) => Some(prompts.list_changed),
        None => None,
    };
    let resources = match capabilities.resources {
        Some(resources) => {
            let mut value = value_empty_object();
            object_insert(&mut value, "subscribe", value_bool(resources.subscribe));
            object_insert(&mut value, "listChanged", value_bool(resources.list_changed));
            value
        },
        None => value_null(),
    };
    let tools = match capabilities.tools {
        Some(tools) => Some(tools.list_changed),
        None => None,
    };
    let mut r = value_empty_object();
    object_insert(&mut r, "logging", presence_value(capabilities.logging.is_some()));
    object_insert(&mut r, "prompts", list_changed_value(prompts));
    object_insert(&mut r, "resources", resources);
    object_insert(&mut r, "tools", list_changed_value(tools));
    r
}

fn initialize_result_value(result: &InitializeResult) -> (r: serde_json::Value)
    ensures
        json_of(r) == initialize_result_json(result@),
{
    let mut r = value_empty_object();
    object_insert(&mut r, "protocolVersion", value_text(result.protocol_version.as_str()));
    object_insert(&mut r, "capabilities", server_capabilities_value(&result.capabilities));
    object_insert(
        &mut r,
        "serverInfo",
        named_value(result.server_info.name.as_str(), result.server_info.version.as_str()),
    );
    r
}

fn tool_value(tool: &Tool) -> (r: serde_json::Value)
    ensures
        json_of(r) == tool_json(tool@),
{
    let mut r = value_empty_object();
    object_insert(&mut r, "name", value_text(tool.name.as_str()));
    object_insert(&mut r, "description", value_text(tool.description.as_str()));
    object_insert(&mut r, "inputSchema", tool.input_schema.clone());
    r
}

fn list_tools_result_value(result: &ListToolsResult) -> (r: serde_json::Value)
    ensures
        json_of(r) == list_tools_result_json(result@),
{
    let mut items: Vec<serde_json::Value> = Vec::new();
    let mut i: usize = 0;
    while i < result.tools.len()
        invariant
            i <= result.tools.len(),
            items.len() == i,
            forall|j: int| 0 <= j < i ==> json_of(#[trigger] items@[j]) == tool_json(result.tools@[j]@),
        decreases result.tools.len() - i,
    {
        items.push(tool_value(&result.tools[i]));
        i += 1;
    }
    assert(json_items(items@) =~= Seq::new(
        result@.tools.len(),
        |i: int| tool_json(result@.tools[i]),
    ));
    let mut r = value_empty_object();
    object_insert(&mut r, "tools", value_array(items));
    r
}

/// Writes a content block as a JSON value.
pub fn content_value(content: &ToolContent) -> (r: serde_json::Value)
    ensures
        json_of(r) == content_json(content@),
{
    let mut r = value_empty_object();
    match content {
        ToolContent::Text { text } => {
            object_insert(&mut r, "type", value_text("text"));
            object_insert(&mut r, "text", value_text(text.as_str()));
        },
        ToolContent::Image { data, mime_type } => {
            object_insert(&mut r, "type", value_text("image"));
            object_insert(&mut r, "data", value_text(data.as_str()));
            object_insert(&mut r, "mimeType", value_text(mime_type.as_str()));
        },
    }
    r
}

fn call_tool_result_value(result: &CallToolResult) -> (r: serde_json::Value)
    ensures
        json_of(r) == call_tool_result_json(result@),
{
    let mut items: Vec<serde_json::Value> = Vec::new();
    let mut i: usize = 0;
    while i < result.content.len()
        invariant
            i <= result.content.len(),
            items.len() == i,
            forall|j: int|
                0 <= j < i ==> json_of(#[trigger] items@[j]) == content_json(result.content@[j]@),
        decreases result.content.len() - i,
    {
        items.push(content_value(&result.content[i]));
        i += 1;
    }
    assert(json_items(items@) =~= Seq::new(
        result@.content.len(),
        |i: int| content_json(result@.content[i]),
    ));
    let mut r = value_empty_object();
    object_insert(&mut r, "content", value_array(items));
    r
}

fn error_value(error: &MCPError) -> (r: serde_json::Value)
    ensures
        json_of(r) == error_json(error@),
{
    let data = match &error.data {
        Some(data) => data.clone(),
        None => value_null(),
    };
    let mut r = value_empty_object();
    object_insert(&mut r, "code", value_integer(error.code as i64));
    object_insert(&mut r, "message", value_text(error.message.as_str()));
    object_insert(&mut r, "data", data);
    r
}

/// Writes a response as a JSON value.
pub fn response_value(response: &MCPResponse) -> (r: serde_json::Value)
    ensures
        json_of(r) == response_json(response@),
{
    let mut r = value_empty_object();
    match response {
        MCPResponse::InitializeResult { id, result } => {
            object_insert(&mut r, "id", id_value(id));
            object_insert(&mut r, "result", initialize_result_value(result));
        },
        MCPResponse::ListToolsResult { id, result } => {
            object_insert(&mut r, "id", id_value(id));
            object_insert(&mut r, "result", list_tools_result_value(result));
        },
        MCPResponse::CallToolResult { id, result } => {
            object_insert(&mut r, "id", id_value(id));
            object_insert(&mut r, "result", call_tool_result_value(result));
        },
        MCPResponse::Pong { id } => {
            object_insert(&mut r, "id", id_value(id));
        },
        MCPResponse::Error { id, error } => {
            object_insert(&mut r, "id", id_value(id));
            object_insert(&mut r, "error", error_value(error));
        },
    }
    r
}

/// The correlation identifier of a request: its `id`, if that is a string
/// or a whole number that fits 64 bits with a sign.
pub open spec fn decode_id(message: Json) -> Option<RequestIdView> {
    match json_member(message, "id"@) {
        Some(Json::Text(text)) => Some(RequestIdView::Text(text)),
        Some(Json::Number(JsonNumber::Integer(n))) => if i64::MIN <= n <= i64::MAX {
            Some(RequestIdView::Number(n as i64))
        } else {
            None
        },
        _ => None,
    }
}

/// The roots capability among a client's capabilities. The outer `None`
/// says that what is there cannot be read.
pub open spec fn decode_roots(capabilities: Json) -> Option<Option<RootsCapability>> {
    match json_member(capabilities, "roots"@) {
        None => Some(None),
        Some(Json::Null) => Some(None),
        Some(roots) => match json_member(roots, "listChanged"@) {
            Some(Json::Bool(flag)) => Some(Some(RootsCapability { list_changed: flag })),
            _ => None,
        },
    }
}

/// The sampling capability among a client's capabilities. The outer `None`
/// says that what is there cannot be read.
pub open spec fn decode_sampling(capabilities: Json) -> Option<Option<SamplingCapability>> {
    match json_member(capabilities, "sampling"@) {
        None => Some(None),
        Some(Json::Null) => Some(None),
        Some(Json::Object(_)) => Some(Some(SamplingCapability {  })),
        _ => None,
    }
}

/// The capabilities among the parameters of an initialize request: an
/// object whose optional parts can be read.
pub open spec fn decode_capabilities(params: Json) -> Option<ClientCapabilities> {
    match json_member(params, "capabilities"@) {
        Some(capabilities) => match (decode_roots(capabilities), decode_sampling(capabilities)) {
            (Some(roots), Some(sampling)) => if capabilities is Object {
                Some(ClientCapabilities { roots, sampling })
            } else {
                None
            },
            _ => None,
        },
        None => None,
    }
}

/// The client's name and version among the parameters of an initialize
/// request.
pub open spec fn decode_client_info(params: Json) -> Option<ClientInfoView> {
    match json_member(params, "clientInfo"@) {
        Some(info) => match (text_argument(info, "name"@), text_argument(info, "version"@)) {
            (Some(name), Some(version)) => Some(ClientInfoView { name, version }),
            _ => None,
        },
        None => None,
    }
}

/// The parameters of an initialize request.
pub open spec fn decode_initialize_params(message: Json) -> Option<InitializeParamsView> {
    match json_member(message, "params"@) {
        Some(params) => match (
            text_argument(params, "protocolVersion"@),
            decode_capabilities(params),
            decode_client_info(params),
        ) {
            (Some(protocol_version), Some(capabilities), Some(client_info)) => Some(
                InitializeParamsView { protocol_version, capabilities, client_info },
            ),
            _ => None,
        },
        None => None,
    }
}

/// The parameters of a tool call: the tool's name and the argument bag,
/// whatever the bag holds.
pub open spec fn decode_call_params(message: Json) -> Option<CallToolParamsView> {
    match json_member(message, "params"@) {
        Some(params) => match (text_argument(params, "name"@), json_member(params, "arguments"@)) {
            (Some(name), Some(arguments)) => Some(CallToolParamsView { name, arguments }),
            _ => None,
        },
        None => None,
    }
}

/// The request that a JSON value stands for, if it stands for one: an
/// object whose `method` is one of the four methods, whose `id` is a
/// correlation identifier, and whose `params` are those of the method.
pub open spec fn decode_message(message: Json) -> Option<MessageView> {
    match (text_argument(message, "method"@), decode_id(message)) {
        (Some(method), Some(id)) => if method == "initialize"@ {
            match decode_initialize_params(message) {
                Some(params) => Some(MessageView::Initialize { id, params }),
                None => None,
            }
        } else if method == "tools/list"@ {
            Some(MessageView::ListTools { id })
        } else if method == "tools/call"@ {
            match decode_call_params(message) {
                Some(params) => Some(MessageView::CallTool { id, params }),
                None => None,
            }
        } else if method == "ping"@ {
            Some(MessageView::Ping { id })
        } else {
            None
        },
        _ => None,
    }
}

/// Why a line gave no request.
#[derive(Debug, Clone, Copy, PartialEq, Eq)]
pub enum DecodeError {
    /// The line is not JSON.
    Malformed,
    /// The line is JSON, but not a request.
    Unrecognized,
}

/// The request that a line of text stands for, or why it stands for none.
pub open spec fn parse_of(line: Seq<char>) -> Result<MessageView, DecodeError> {
    match json_parse(line) {
        Some(json) => match decode_message(json) {
            Some(message) => Ok(message),
            None => Err(DecodeError::Unrecognized),
        },
        None => Err(DecodeError::Malformed),
    }
}

fn id_of(message: &serde_json::Value) -> (r: Option<RequestId>)
    ensures
        match r {
            Some(id) => decode_id(json_of(*message)) == Some(id@),
            None => decode_id(json_of(*message)) is None,
        },
{
    match value_get(message, "id") {
        Some(id) => match value_as_str(id) {
            Some(text) => Some(RequestId::Text(text.to_string())),
            None => match value_as_i64(id) {
                Some(n) => Some(RequestId::Number(n)),
                None => None,
            },
        },
        None => None,
    }
}

fn capabilities_of(params: &serde_json::Value) -> (r: Option<ClientCapabilities>)
    ensures
        r == decode_capabilities(json_of(*params)),
{
    let capabilities = match value_get(params, "capabilities") {
        Some(capabilities) => capabilities,
        None => {
            return None;
        },
    };
    if !value_is_object(capabilities) {
        return None;
    }
    let roots = match value_get(capabilities, "roots") {
        Some(roots) => {
            if value_is_null(roots) {
                None
            } else {
                match value_get(roots, "listChanged") {
                    Some(flag) => match value_as_bool(flag) {
                        Some(list_changed) => Some(RootsCapability { list_changed }),
                        None => {
                            return None;
                        },
                    },
                    None => {
                        return None;
                    },
                }
            }
        },
        None => None,
    };
    let sampling = match value_get(capabilities, "sampling") {
        Some(sampling) => {
            if value_is_null(sampling) {
                None
            } else if value_is_object(sampling) {
                Some(SamplingCapability {  })
            } else {
                return None;
            }
        },
        None => None,
    };
    Some(ClientCapabilities { roots, sampling })
}

fn client_info_of(params: &serde_json::Value) -> (r: Option<ClientInfo>)
    ensures
        match r {
            Some(info) => decode_client_info(json_of(*params)) == Some(info@),
            None => decode_client_info(json_of(*params)) is None,
        },
{
    match value_get(params, "clientInfo") {
        Some(info) => match text_arg(info, "name") {
            Some(name) => match text_arg(info, "version") {
                Some(version) => Some(ClientInfo { name, version }),
                None => None,
            },
            None => None,
        },
        None => None,
    }
}

fn initialize_params_of(message: &serde_json::Value) -> (r: Option<InitializeParams>)
    ensures
        match r {
            Some(params) => decode_initialize_params(json_of(*message)) == Some(params@),
            None => decode_initialize_params(json_of(*message)) is None,
        },
{
    match value_get(message, "params") {
        Some(params) => match text_arg(params, "protocolVersion") {
            Some(protocol_version) => match capabilities_of(params) {
                Some(capabilities) => match client_info_of(params) {
                    Some(client_info) => Some(
                        InitializeParams { protocol_version, capabilities, client_info },
                    ),
                    None => None,
                },
                None => None,
            },
            None => None,
        },
        None => None,
    }
}

fn call_params_of(message: &serde_json::Value) -> (r: Option<CallToolParams>)
    ensures
        match r {
            Some(params) => decode_call_params(json_of(*message)) == Some(params@),
            None => decode_call_params(json_of(*message)) is None,
        },
{
    match value_get(message, "params") {
        Some(params) => match text_arg(params, "name") {
            Some(name) => match value_get(params, "arguments") {
                Some(arguments) => Some(CallToolParams { name, arguments: arguments.clone() }),
                None => None,
            },
            None => None,
        },
        None => None,
    }
}

/// Reads a request from a JSON value.
pub fn message_from_value(value: &serde_json::Value) -> (r: Option<MCPMessage>)
    ensures
        match r {
            Some(message) => decode_message(json_of(*value)) == Some(message@),
            None => decode_message(json_of(*value)) is None,
        },
{
    let method = match text_arg(value, "method") {
        Some(method) => method,
        None => {
            return None;
        },
    };
    let id = match id_of(value) {
        Some(id) => id,
        None => {
            return None;
        },
    };
    if str_eq(method.as_str(), "initialize") {
        match initialize_params_of(value) {
            Some(params) => Some(MCPMessage::Initialize { id, params }),
            None => None,
        }
    } else if str_eq(method.as_str(), "tools/list") {
        Some(MCPMessage::ListTools { id })
    } else if str_eq(method.as_str(), "tools/call") {
        match call_params_of(value) {
            Some(params) => Some(MCPMessage::CallTool { id, params }),
            None => None,
        }
    } else if str_eq(method.as_str(), "ping") {
        Some(MCPMessage::Ping { id })
    } else {
        None
    }
}

/// Reads a request from one line of text.
pub fn parse_message(line: &str) -> (r: Result<MCPMessage, DecodeError>)
    ensures
        match r {
            Ok(message) => parse_of(line@) == Ok::<MessageView, DecodeError>(message@),
            Err(error) => parse_of(line@) == Err::<MessageView, DecodeError>(error),
        },
{
    match parse_value(line) {
        Ok(value) => match message_from_value(&value) {
            Some(message) => Ok(message),
            None => Err(DecodeError::Unrecognized),
        },
        Err(_) => Err(DecodeError::Malformed),
    }
}

/// Writes a request as one line of text, where the JSON writer gives one.
pub fn encode_message(message: &MCPMessage) -> (r: Option<String>)
    ensures
        optional_text(r) == json_text(message_json(message@)),
{
    match write_value(&message_value(message)) {
        Ok(text) => Some(text),
        Err(_) => None,
    }
}

/// Writes a response as one line of text, where the JSON writer gives one.
pub fn encode_response(response: &MCPResponse) -> (r: Option<String>)
    ensures
        optional_text(r) == json_text(response_json(response@)),
{
    match write_value(&response_value(response)) {
        Ok(text) => Some(text),
        Err(_) => None,
    }
}

/// Writing a request and reading it back gives the request: its method,
/// its identifier and all its parameters.
pub proof fn lemma_decode_inverts_encode(message: MessageView)
    ensures
        decode_message(message_json(message)) == Some(message),
{
    reveal_strlit("method");
    reveal_strlit("id");
    reveal_strlit("params");
    reveal_strlit("protocolVersion");
    reveal_strlit("capabilities");
    reveal_strlit("clientInfo");
    reveal_strlit("name");
    reveal_strlit("version");
    reveal_strlit("arguments");
    reveal_strlit("roots");
    reveal_strlit("sampling");
    reveal_strlit("listChanged");
    reveal_strlit("initialize");
    reveal_strlit("tools/list");
    reveal_strlit("tools/call");
    reveal_strlit("ping");
    assert("method"@.len() == 6 && "id"@.len() == 2 && "params"@.len() == 6);
    assert("method"@[0] == 'm' && "params"@[0] == 'p');
    assert("protocolVersion"@.len() == 15 && "capabilities"@.len() == 12 && "clientInfo"@.len()
        == 10);
    assert("name"@.len() == 4 && "version"@.len() == 7 && "arguments"@.len() == 9);
    assert("roots"@.len() == 5 && "sampling"@.len() == 8);
    assert("initialize"@.len() == 10 && "tools/list"@.len() == 10 && "tools/call"@.len() == 10
        && "ping"@.len() == 4);
    assert("initialize"@[0] == 'i' && "tools/list"@[0] == 't' && "tools/call"@[0] == 't');
    assert("tools/list"@[6] == 'l' && "tools/call"@[6] == 'c');
    let json = message_json(message);
    assert(json_member(json, "id"@) == Some(id_json(message.id())));
    assert(decode_id(json) == Some(message.id()));
    match message {
        MessageView::Initialize { id, params } => {
            let p = initialize_params_json(params);
            assert(json_member(json, "params"@) == Some(p));
            let c = client_capabilities_json(params.capabilities);
            assert(json_member(p, "capabilities"@) == Some(c));
            assert(decode_roots(c) == Some(params.capabilities.roots));
            assert(decode_sampling(c) == Some(params.capabilities.sampling));
            assert(decode_capabilities(p) == Some(params.capabilities));
            assert(decode_client_info(p) == Some(params.client_info));
            assert(decode_initialize_params(json) == Some(params));
        },
        MessageView::ListTools { id } => {},
        MessageView::CallTool { id, params } => {
            let p = call_tool_params_json(params);
            assert(json_member(json, "params"@) == Some(p));
            assert(decode_call_params(json) == Some(params));
        },
        MessageView::Ping { id } => {},
    }
}

} // verus!
