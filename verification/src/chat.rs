use crate::json::Json;
use crate::model::ModelIden;
use vstd::prelude::*;

verus! {

/// Token accounting reported by a provider.
#[derive(Debug, Clone, Copy, PartialEq, Eq, Structural)]
pub struct Usage {
    pub prompt_tokens: Option<u32>,
    pub completion_tokens: Option<u32>,
    pub total_tokens: Option<u32>,
}

impl Usage {
    pub fn none() -> (u: Usage)
        ensures
            u == (Usage { prompt_tokens: None, completion_tokens: None, total_tokens: None }),
    {
        Usage { prompt_tokens: None, completion_tokens: None, total_tokens: None }
    }
}

/// One tool call issued by a model.
#[derive(Debug)]
pub struct ToolCall {
    pub call_id: String,
    pub fn_name: String,
    pub fn_arguments: Json,
}

/// The answer a tool hands back for one call.
#[derive(Debug, Clone)]
pub struct ToolResponse {
    pub call_id: String,
    pub content: String,
}

impl ToolResponse {
    pub fn new(call_id: String, content: String) -> (r: ToolResponse)
        ensures
            r.call_id == call_id,
            r.content == content,
    {
        ToolResponse { call_id, content }
    }
}

/// One message of the uniform chat shape.
#[derive(Debug)]
pub enum ChatMessage {
    User { content: String },
    Assistant { content: String },
    ToolCalls(Vec<ToolCall>),
    ToolResponse(ToolResponse),
}

impl ChatMessage {
    pub fn user(content: String) -> (m: ChatMessage)
        ensures
            m == (ChatMessage::User { content }),
    {
        ChatMessage::User { content }
    }

    pub fn assistant(content: String) -> (m: ChatMessage)
        ensures
            m == (ChatMessage::Assistant { content }),
    {
        ChatMessage::Assistant { content }
    }

    pub fn from_tool_calls(calls: Vec<ToolCall>) -> (m: ChatMessage)
        ensures
            m == ChatMessage::ToolCalls(calls),
    {
        ChatMessage::ToolCalls(calls)
    }

    pub fn from_tool_response(response: ToolResponse) -> (m: ChatMessage)
        ensures
            m == ChatMessage::ToolResponse(response),
    {
        ChatMessage::ToolResponse(response)
    }
}

/// A tool definition offered to the model.
#[derive(Debug)]
pub struct Tool {
    pub name: String,
    pub description: Option<String>,
    pub schema: Option<Json>,
}

impl Tool {
    pub fn new(name: String) -> (t: Tool)
        ensures
            t.name == name,
            t.description is None,
            t.schema is None,
    {
        Tool { name, description: None, schema: None }
    }

    pub fn with_description(self, description: String) -> (t: Tool)
        ensures
            t.name == self.name,
            t.description == Some(description),
            t.schema == self.schema,
    {
        Tool { description: Some(description), ..self }
    }

    pub fn with_schema(self, schema: Json) -> (t: Tool)
        ensures
            t.name == self.name,
            t.description == self.description,
            t.schema == Some(schema),
    {
        Tool { schema: Some(schema), ..self }
    }
}

/// The uniform chat request: an optional system prompt, ordered messages,
/// and tool definitions.
#[derive(Debug)]
pub struct ChatRequest {
    pub system: Option<String>,
    pub messages: Vec<ChatMessage>,
    pub tools: Vec<Tool>,
}

impl ChatRequest {
    pub fn new(messages: Vec<ChatMessage>) -> (r: ChatRequest)
        ensures
            r.system is None,
            r.messages == messages,
            r.tools@.len() == 0,
    {
        ChatRequest { system: None, messages, tools: Vec::new() }
    }

    pub fn from_messages(messages: Vec<ChatMessage>) -> (r: ChatRequest)
        ensures
            r.system is None,
            r.messages == messages,
            r.tools@.len() == 0,
    {
        ChatRequest::new(messages)
    }

    pub fn from_user(content: String) -> (r: ChatRequest)
        ensures
            r.system is None,
            r.messages@.len() == 1,
            r.messages@[0] == (ChatMessage::User { content }),
            r.tools@.len() == 0,
    {
        let mut messages: Vec<ChatMessage> = Vec::new();
        messages.push(ChatMessage::User { content });
        ChatRequest::new(messages)
    }

    pub fn with_system(self, system: String) -> (r: ChatRequest)
        ensures
            r.system == Some(system),
            r.messages == self.messages,
            r.tools == self.tools,
    {
        ChatRequest { system: Some(system), ..self }
    }

    pub fn append_message(self, message: ChatMessage) -> (r: ChatRequest)
        ensures
            r.system == self.system,
            r.messages@ == self.messages@.push(message),
            r.tools == self.tools,
    {
        let ChatRequest { system, mut messages, tools } = self;
        messages.push(message);
        ChatRequest { system, messages, tools }
    }

    pub fn with_tools(self, tools: Vec<Tool>) -> (r: ChatRequest)
        ensures
            r.system == self.system,
            r.messages == self.messages,
            r.tools == tools,
    {
        ChatRequest { tools, ..self }
    }
}

/// The uniform chat response: text segments, optional reasoning content,
/// tool calls issued, token usage, and the identity that served it.
#[derive(Debug)]
pub struct ChatResponse {
    pub content: Vec<String>,
    pub reasoning_content: Option<String>,
    pub tool_calls: Vec<ToolCall>,
    pub usage: Usage,
    pub model_iden: ModelIden,
}

impl ChatResponse {
    /// The first text segment of the response, if any.
    pub fn first_text(&self) -> (r: Option<&String>)
        ensures
            match r {
                Some(s) => self.content@.len() > 0 && *s == self.content@[0],
                None => self.content@.len() == 0,
            },
    {
        if self.content.len() > 0 {
            Some(&self.content[0])
        } else {
            None
        }
    }
}

} // verus!
