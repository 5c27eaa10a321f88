//! The chat-completion endpoint: request and response schema.
//!
//! Closed enum families map to fixed wire tokens (total encoding,
//! partial decoding); messages serialize as flat objects with an
//! injected `role` discriminant; `ToolChoice` has a bespoke shape,
//! a bare string for two variants and a nested object for the third.

use vstd::prelude::*;
use crate::json::{Json, JsonValue, ObjBuilder, str_eq, spec_obj_get, seq_views};
use crate::error::{BuildError, BuildErrorV, DecodeError, DecodeErrorV};

verus! {

broadcast use crate::json::lemma_json_view_arr, crate::json::lemma_json_view_obj,
    crate::json::lemma_seq_views_push, crate::json::lemma_entries_view_push;

// ---------------------------------------------------------------------------
// Wire enum codec: closed families and their fixed external tokens.
// ---------------------------------------------------------------------------

/// Model identifiers accepted by the chat-completion endpoint.
#[derive(Debug, Clone, Copy, PartialEq, Eq, Structural)]
pub enum ChatCompleteModel {
    Gpt3Turbo,
    Gpt3TurboInstruct,
    Gpt4Turbo,
    Gpt4TurboVision,
}

pub open spec fn spec_chat_model_wire(m: ChatCompleteModel) -> Seq<char> {
    match m {
        ChatCompleteModel::Gpt3Turbo => "gpt-3.5-turbo-1106"@,
        ChatCompleteModel::Gpt3TurboInstruct => "gpt-3.5-turbo-instruct"@,
        ChatCompleteModel::Gpt4Turbo => "gpt-4-1106-preview"@,
        ChatCompleteModel::Gpt4TurboVision => "gpt-4-vision-preview"@,
    }
}

pub open spec fn spec_chat_model_of(t: Seq<char>) -> Option<ChatCompleteModel> {
    if t == "gpt-3.5-turbo-1106"@ {
        Some(ChatCompleteModel::Gpt3Turbo)
    } else if t == "gpt-3.5-turbo-instruct"@ {
        Some(ChatCompleteModel::Gpt3TurboInstruct)
    } else if t == "gpt-4-1106-preview"@ {
        Some(ChatCompleteModel::Gpt4Turbo)
    } else if t == "gpt-4-vision-preview"@ {
        Some(ChatCompleteModel::Gpt4TurboVision)
    } else {
        None
    }
}

impl ChatCompleteModel {
    /// The external token of this variant; encoding is total.
    pub fn wire_name(&self) -> (r: &'static str)
        ensures
            r@ == spec_chat_model_wire(*self),
    {
        match self {
            ChatCompleteModel::Gpt3Turbo => "gpt-3.5-turbo-1106",
            ChatCompleteModel::Gpt3TurboInstruct => "gpt-3.5-turbo-instruct",
            ChatCompleteModel::Gpt4Turbo => "gpt-4-1106-preview",
            ChatCompleteModel::Gpt4TurboVision => "gpt-4-vision-preview",
        }
    }

    /// The inverse partial mapping, defined only over recognized tokens.
    pub fn from_wire(t: &str) -> (r: Option<ChatCompleteModel>)
        ensures
            r == spec_chat_model_of(t@),
    {
        if str_eq(t, "gpt-3.5-turbo-1106") {
            Some(ChatCompleteModel::Gpt3Turbo)
        } else if str_eq(t, "gpt-3.5-turbo-instruct") {
            Some(ChatCompleteModel::Gpt3TurboInstruct)
        } else if str_eq(t, "gpt-4-1106-preview") {
            Some(ChatCompleteModel::Gpt4Turbo)
        } else if str_eq(t, "gpt-4-vision-preview") {
            Some(ChatCompleteModel::Gpt4TurboVision)
        } else {
            None
        }
    }
}

impl Default for ChatCompleteModel {
    fn default() -> (r: Self)
        ensures
            r == ChatCompleteModel::Gpt3Turbo,
    {
        ChatCompleteModel::Gpt3Turbo
    }
}

/// Decoding a token of any family recovers the variant it encodes.
pub proof fn lemma_chat_model_roundtrip(m: ChatCompleteModel)
    ensures
        spec_chat_model_of(spec_chat_model_wire(m)) == Some(m),
{
    reveal_strlit("gpt-3.5-turbo-1106");
    reveal_strlit("gpt-3.5-turbo-instruct");
    reveal_strlit("gpt-4-1106-preview");
    reveal_strlit("gpt-4-vision-preview");
    assert("gpt-3.5-turbo-1106"@.len() == 18);
    assert("gpt-3.5-turbo-instruct"@.len() == 22);
    assert("gpt-4-1106-preview"@.len() == 18);
    assert("gpt-4-vision-preview"@.len() == 20);
    assert("gpt-3.5-turbo-instruct"@ != "gpt-3.5-turbo-1106"@);
    assert("gpt-4-1106-preview"@[4] != "gpt-3.5-turbo-1106"@[4]);
    assert("gpt-4-1106-preview"@ != "gpt-3.5-turbo-1106"@);
    assert("gpt-4-1106-preview"@ != "gpt-3.5-turbo-instruct"@);
    assert("gpt-4-vision-preview"@ != "gpt-3.5-turbo-1106"@);
    assert("gpt-4-vision-preview"@ != "gpt-3.5-turbo-instruct"@);
    assert("gpt-4-vision-preview"@ != "gpt-4-1106-preview"@);
}

/// The format the model is told to answer in.
#[derive(Debug, Clone, Copy, PartialEq, Eq, Structural)]
pub enum ChatResponseFormat {
    Text,
    Json,
}

pub open spec fn spec_chat_format_wire(f: ChatResponseFormat) -> Seq<char> {
    match f {
        ChatResponseFormat::Text => "text"@,
        ChatResponseFormat::Json => "json_object"@,
    }
}

pub open spec fn spec_chat_format_of(t: Seq<char>) -> Option<ChatResponseFormat> {
    if t == "text"@ {
        Some(ChatResponseFormat::Text)
    } else if t == "json_object"@ {
        Some(ChatResponseFormat::Json)
    } else {
        None
    }
}

impl ChatResponseFormat {
    pub fn wire_name(&self) -> (r: &'static str)
        ensures
            r@ == spec_chat_format_wire(*self),
    {
        match self {
            ChatResponseFormat::Text => "text",
            ChatResponseFormat::Json => "json_object",
        }
    }

    pub fn from_wire(t: &str) -> (r: Option<ChatResponseFormat>)
        ensures
            r == spec_chat_format_of(t@),
    {
        if str_eq(t, "text") {
            Some(ChatResponseFormat::Text)
        } else if str_eq(t, "json_object") {
            Some(ChatResponseFormat::Json)
        } else {
            None
        }
    }
}

impl Default for ChatResponseFormat {
    fn default() -> (r: Self)
        ensures
            r == ChatResponseFormat::Json,
    {
        ChatResponseFormat::Json
    }
}

pub proof fn lemma_chat_format_roundtrip(f: ChatResponseFormat)
    ensures
        spec_chat_format_of(spec_chat_format_wire(f)) == Some(f),
{
    reveal_strlit("text");
    reveal_strlit("json_object");
    assert("text"@.len() == 4);
    assert("json_object"@.len() == 11);
    assert("json_object"@ != "text"@);
}

/// The kind of a tool; the API currently defines functions only.
#[derive(Debug, Clone, Copy, PartialEq, Eq, Structural)]
pub enum ToolType {
    Function,
}

pub open spec fn spec_tool_type_wire(t: ToolType) -> Seq<char> {
    match t {
        ToolType::Function => "function"@,
    }
}

pub open spec fn spec_tool_type_of(t: Seq<char>) -> Option<ToolType> {
    if t == "function"@ {
        Some(ToolType::Function)
    } else {
        None
    }
}

impl ToolType {
    pub fn wire_name(&self) -> (r: &'static str)
        ensures
            r@ == spec_tool_type_wire(*self),
    {
        "function"
    }

    pub fn from_wire(t: &str) -> (r: Option<ToolType>)
        ensures
            r == spec_tool_type_of(t@),
    {
        if str_eq(t, "function") {
            Some(ToolType::Function)
        } else {
            None
        }
    }
}

impl Default for ToolType {
    fn default() -> (r: Self)
        ensures
            r == ToolType::Function,
    {
        ToolType::Function
    }
}

pub proof fn lemma_tool_type_roundtrip(t: ToolType)
    ensures
        spec_tool_type_of(spec_tool_type_wire(t)) == Some(t),
{
}

/// Why the model stopped generating tokens.
#[derive(Debug, Clone, Copy, PartialEq, Eq, Structural)]
pub enum FinishReason {
    Stop,
    Length,
    ContentFilter,
    ToolCalls,
}

pub open spec fn spec_finish_reason_wire(f: FinishReason) -> Seq<char> {
    match f {
        FinishReason::Stop => "stop"@,
        FinishReason::Length => "length"@,
        FinishReason::ContentFilter => "content_filter"@,
        FinishReason::ToolCalls => "tool_calls"@,
    }
}

pub open spec fn spec_finish_reason_of(t: Seq<char>) -> Option<FinishReason> {
    if t == "stop"@ {
        Some(FinishReason::Stop)
    } else if t == "length"@ {
        Some(FinishReason::Length)
    } else if t == "content_filter"@ {
        Some(FinishReason::ContentFilter)
    } else if t == "tool_calls"@ {
        Some(FinishReason::ToolCalls)
    } else {
        None
    }
}

impl FinishReason {
    pub fn wire_name(&self) -> (r: &'static str)
        ensures
            r@ == spec_finish_reason_wire(*self),
    {
        match self {
            FinishReason::Stop => "stop",
            FinishReason::Length => "length",
            FinishReason::ContentFilter => "content_filter",
            FinishReason::ToolCalls => "tool_calls",
        }
    }

    pub fn from_wire(t: &str) -> (r: Option<FinishReason>)
        ensures
            r == spec_finish_reason_of(t@),
    {
        if str_eq(t, "stop") {
            Some(FinishReason::Stop)
        } else if str_eq(t, "length") {
            Some(FinishReason::Length)
        } else if str_eq(t, "content_filter") {
            Some(FinishReason::ContentFilter)
        } else if str_eq(t, "tool_calls") {
            Some(FinishReason::ToolCalls)
        } else {
            None
        }
    }
}

impl Default for FinishReason {
    fn default() -> (r: Self)
        ensures
            r == FinishReason::Stop,
    {
        FinishReason::Stop
    }
}

pub proof fn lemma_finish_reason_roundtrip(f: FinishReason)
    ensures
        spec_finish_reason_of(spec_finish_reason_wire(f)) == Some(f),
{
    reveal_strlit("stop");
    reveal_strlit("length");
    reveal_strlit("content_filter");
    reveal_strlit("tool_calls");
    assert("stop"@.len() == 4);
    assert("length"@.len() == 6);
    assert("content_filter"@.len() == 14);
    assert("tool_calls"@.len() == 10);
    assert("length"@ != "stop"@);
    assert("content_filter"@ != "stop"@);
    assert("content_filter"@ != "length"@);
    assert("tool_calls"@ != "stop"@);
    assert("tool_calls"@ != "length"@);
    assert("tool_calls"@ != "content_filter"@);
}

// ---------------------------------------------------------------------------
// Polymorphic tool model.
// ---------------------------------------------------------------------------

/// Controls which (if any) function is called by the model. `None` and
/// `Auto` appear on the wire as bare strings; `Function` as a nested
/// object — the shape differs per variant.
#[derive(Debug, Clone)]
pub enum ToolChoice {
    NoTool,
    Auto,
    Function { name: String },
}

pub open spec fn spec_tool_choice_json(tc: ToolChoice) -> Json {
    match tc {
        ToolChoice::NoTool => Json::Str("none"@),
        ToolChoice::Auto => Json::Str("auto"@),
        ToolChoice::Function { name } => Json::Obj(
            seq![
                ("type"@, Json::Str("function"@)),
                ("function"@, Json::Obj(seq![("name"@, Json::Str(name@))])),
            ],
        ),
    }
}

impl Default for ToolChoice {
    fn default() -> (r: Self)
        ensures
            r is NoTool,
    {
        ToolChoice::NoTool
    }
}

impl ToolChoice {
    pub fn to_json(&self) -> (r: JsonValue)
        ensures
            r@ == spec_tool_choice_json(*self),
    {
        match self {
            ToolChoice::NoTool => JsonValue::Str(String::from_str("none")),
            ToolChoice::Auto => JsonValue::Str(String::from_str("auto")),
            ToolChoice::Function { name } => {
                let ib = ObjBuilder::new().field("name", JsonValue::Str(name.clone()));
                let ob = ObjBuilder::new().field(
                    "type",
                    JsonValue::Str(String::from_str("function")),
                ).field("function", ib.finish());
                let r = ob.finish();
                proof {
                    assert(ob@ =~= seq![
                        ("type"@, Json::Str("function"@)),
                        ("function"@, Json::Obj(seq![("name"@, Json::Str(name@))])),
                    ]);
                    assert(r@ == spec_tool_choice_json(*self));
                }
                r
            },
        }
    }
}

/// A function invocation emitted by the model; `arguments` is a
/// string-encoded blob the caller is responsible for parsing.
#[derive(Debug, Clone)]
pub struct FunctionCall {
    pub name: String,
    pub arguments: String,
}

pub open spec fn spec_function_call_json(fc: FunctionCall) -> Json {
    Json::Obj(
        seq![("name"@, Json::Str(fc.name@)), ("arguments"@, Json::Str(fc.arguments@))],
    )
}

impl FunctionCall {
    pub fn to_json(&self) -> (r: JsonValue)
        ensures
            r@ == spec_function_call_json(*self),
    {
        let b = ObjBuilder::new().field("name", JsonValue::Str(self.name.clone())).field(
            "arguments",
            JsonValue::Str(self.arguments.clone()),
        );
        let r = b.finish();
        proof {
            assert(b@ =~= seq![
                ("name"@, Json::Str(self.name@)),
                ("arguments"@, Json::Str(self.arguments@)),
            ]);
            assert(r@ == spec_function_call_json(*self));
        }
        r
    }
}

/// A model-emitted request to invoke a named function.
#[derive(Debug, Clone)]
pub struct ToolCall {
    pub id: String,
    pub tool_type: ToolType,
    pub function: FunctionCall,
}

pub open spec fn spec_tool_call_json(tc: ToolCall) -> Json {
    Json::Obj(
        seq![
            ("id"@, Json::Str(tc.id@)),
            ("type"@, Json::Str(spec_tool_type_wire(tc.tool_type))),
            ("function"@, spec_function_call_json(tc.function)),
        ],
    )
}

impl ToolCall {
    pub fn to_json(&self) -> (r: JsonValue)
        ensures
            r@ == spec_tool_call_json(*self),
    {
        let b = ObjBuilder::new().field("id", JsonValue::Str(self.id.clone())).field(
            "type",
            JsonValue::Str(String::from_str(self.tool_type.wire_name())),
        ).field("function", self.function.to_json());
        let r = b.finish();
        proof {
            assert(b@ =~= seq![
                ("id"@, Json::Str(self.id@)),
                ("type"@, Json::Str(spec_tool_type_wire(self.tool_type))),
                ("function"@, spec_function_call_json(self.function)),
            ]);
            assert(r@ == spec_tool_call_json(*self));
        }
        r
    }
}

/// Describes a callable function: a name, an optional description and
/// a JSON-Schema-shaped parameter specification, carried opaquely.
#[derive(Debug)]
pub struct FunctionInfo {
    pub description: Option<String>,
    pub name: String,
    pub parameters: JsonValue,
}

pub open spec fn spec_function_info_json(fi: FunctionInfo) -> Json {
    Json::Obj(
        (match fi.description {
            Some(d) => seq![("description"@, Json::Str(d@))],
            None => Seq::empty(),
        }) + seq![("name"@, Json::Str(fi.name@)), ("parameters"@, fi.parameters@)],
    )
}

impl FunctionInfo {
    pub fn to_json(&self) -> (r: JsonValue)
        ensures
            r@ == spec_function_info_json(*self),
    {
        let b = ObjBuilder::new();
        let b = match &self.description {
            Some(d) => b.field("description", JsonValue::Str(d.clone())),
            None => b,
        };
        let b = b.field("name", JsonValue::Str(self.name.clone())).field(
            "parameters",
            self.parameters.deep_clone(),
        );
        let r = b.finish();
        proof {
            assert(b@ =~= (match self.description {
                Some(d) => seq![("description"@, Json::Str(d@))],
                None => Seq::empty(),
            }) + seq![("name"@, Json::Str(self.name@)), ("parameters"@, self.parameters@)]);
            assert(r@ == spec_function_info_json(*self));
        }
        r
    }
}

/// A tool the model may call.
#[derive(Debug)]
pub struct Tool {
    pub tool_type: ToolType,
    pub function: FunctionInfo,
}

pub open spec fn spec_tool_json(t: Tool) -> Json {
    Json::Obj(
        seq![
            ("type"@, Json::Str(spec_tool_type_wire(t.tool_type))),
            ("function"@, spec_function_info_json(t.function)),
        ],
    )
}

impl Tool {
    pub fn to_json(&self) -> (r: JsonValue)
        ensures
            r@ == spec_tool_json(*self),
    {
        let b = ObjBuilder::new().field(
            "type",
            JsonValue::Str(String::from_str(self.tool_type.wire_name())),
        ).field("function", self.function.to_json());
        let r = b.finish();
        proof {
            assert(b@ =~= seq![
                ("type"@, Json::Str(spec_tool_type_wire(self.tool_type))),
                ("function"@, spec_function_info_json(self.function)),
            ]);
            assert(r@ == spec_tool_json(*self));
        }
        r
    }
}

// ---------------------------------------------------------------------------
// Polymorphic message model.
// ---------------------------------------------------------------------------

/// A message from the system.
#[derive(Debug, Clone)]
pub struct SystemMessage {
    pub content: String,
    pub name: Option<String>,
}

/// A message from a user.
#[derive(Debug, Clone)]
pub struct UserMessage {
    pub content: String,
    pub name: Option<String>,
}

/// A message from the assistant; the only variant the API returns.
#[derive(Debug, Clone)]
pub struct AssistantMessage {
    pub content: String,
    pub name: Option<String>,
    pub tool_calls: Vec<ToolCall>,
}

/// A message answering a prior tool call.
#[derive(Debug, Clone)]
pub struct ToolMessage {
    pub content: String,
    pub tool_call_id: String,
}

/// A conversation turn, discriminated on the wire by a `role` member
/// derived from the variant tag, never stored separately.
#[derive(Debug, Clone)]
pub enum ChatCompletionMessage {
    System(SystemMessage),
    User(UserMessage),
    Assistant(AssistantMessage),
    Tool(ToolMessage),
}

/// An optional participant name's members: nothing when absent.
pub open spec fn spec_name_members(name: Option<String>) -> Seq<(Seq<char>, Json)> {
    match name {
        Some(n) => seq![("name"@, Json::Str(n@))],
        None => Seq::empty(),
    }
}

pub open spec fn spec_tool_calls_json(s: Seq<ToolCall>) -> Seq<Json> {
    Seq::new(s.len(), |i: int| spec_tool_call_json(s[i]))
}

/// Each variant serializes as a flat object: its own fields after an
/// injected `role` token; optional members are omitted, never null.
pub open spec fn spec_message_json(m: ChatCompletionMessage) -> Json {
    match m {
        ChatCompletionMessage::System(sm) => Json::Obj(
            seq![("role"@, Json::Str("system"@)), ("content"@, Json::Str(sm.content@))]
                + spec_name_members(sm.name),
        ),
        ChatCompletionMessage::User(um) => Json::Obj(
            seq![("role"@, Json::Str("user"@)), ("content"@, Json::Str(um.content@))]
                + spec_name_members(um.name),
        ),
        ChatCompletionMessage::Assistant(am) => Json::Obj(
            seq![("role"@, Json::Str("assistant"@)), ("content"@, Json::Str(am.content@))]
                + spec_name_members(am.name) + (if am.tool_calls@.len() == 0 {
                Seq::empty()
            } else {
                seq![("tool_calls"@, Json::Arr(spec_tool_calls_json(am.tool_calls@)))]
            }),
        ),
        ChatCompletionMessage::Tool(tm) => Json::Obj(
            seq![
                ("role"@, Json::Str("tool"@)),
                ("content"@, Json::Str(tm.content@)),
                ("tool_call_id"@, Json::Str(tm.tool_call_id@)),
            ],
        ),
    }
}

/// `None` for an empty participant name, `Some` of it otherwise.
pub open spec fn spec_name_of(n: Seq<char>) -> Option<Seq<char>> {
    if n.len() == 0 {
        None
    } else {
        Some(n)
    }
}

pub open spec fn name_view(o: Option<String>) -> Option<Seq<char>> {
    match o {
        Some(s) => Some(s@),
        None => None,
    }
}

impl ChatCompletionMessage {
    /// A system message; an empty participant name means no name.
    pub fn new_system(content: &str, name: &str) -> (r: ChatCompletionMessage)
        ensures
            r matches ChatCompletionMessage::System(sm) && sm.content@ == content@
                && name_view(sm.name) == spec_name_of(name@),
    {
        ChatCompletionMessage::System(
            SystemMessage { content: String::from_str(content), name: Self::get_name(name) },
        )
    }

    /// A user message; an empty participant name means no name.
    pub fn new_user(content: &str, name: &str) -> (r: ChatCompletionMessage)
        ensures
            r matches ChatCompletionMessage::User(um) && um.content@ == content@
                && name_view(um.name) == spec_name_of(name@),
    {
        ChatCompletionMessage::User(
            UserMessage { content: String::from_str(content), name: Self::get_name(name) },
        )
    }

    fn get_name(name: &str) -> (r: Option<String>)
        ensures
            name_view(r) == spec_name_of(name@),
    {
        if name.unicode_len() == 0 {
            None
        } else {
            Some(String::from_str(name))
        }
    }

    pub fn to_json(&self) -> (r: JsonValue)
        ensures
            r@ == spec_message_json(*self),
    {
        match self {
            ChatCompletionMessage::System(sm) => {
                let b = ObjBuilder::new().field(
                    "role",
                    JsonValue::Str(String::from_str("system")),
                ).field("content", JsonValue::Str(sm.content.clone()));
                let b = match &sm.name {
                    Some(n) => b.field("name", JsonValue::Str(n.clone())),
                    None => b,
                };
                let r = b.finish();
                proof {
                    assert(b@ =~= seq![
                        ("role"@, Json::Str("system"@)),
                        ("content"@, Json::Str(sm.content@)),
                    ] + spec_name_members(sm.name));
                    assert(r@ == spec_message_json(*self));
                }
                r
            },
            ChatCompletionMessage::User(um) => {
                let b = ObjBuilder::new().field(
                    "role",
                    JsonValue::Str(String::from_str("user")),
                ).field("content", JsonValue::Str(um.content.clone()));
                let b = match &um.name {
                    Some(n) => b.field("name", JsonValue::Str(n.clone())),
                    None => b,
                };
                let r = b.finish();
                proof {
                    assert(b@ =~= seq![
                        ("role"@, Json::Str("user"@)),
                        ("content"@, Json::Str(um.content@)),
                    ] + spec_name_members(um.name));
                    assert(r@ == spec_message_json(*self));
                }
                r
            },
            ChatCompletionMessage::Assistant(am) => {
                let b = ObjBuilder::new().field(
                    "role",
                    JsonValue::Str(String::from_str("assistant")),
                ).field("content", JsonValue::Str(am.content.clone()));
                let b = match &am.name {
                    Some(n) => b.field("name", JsonValue::Str(n.clone())),
                    None => b,
                };
                let b = if am.tool_calls.len() > 0 {
                    b.field("tool_calls", tool_calls_to_json(&am.tool_calls))
                } else {
                    b
                };
                let r = b.finish();
                proof {
                    assert(b@ =~= seq![
                        ("role"@, Json::Str("assistant"@)),
                        ("content"@, Json::Str(am.content@)),
                    ] + spec_name_members(am.name) + (if am.tool_calls@.len() == 0 {
                        Seq::empty()
                    } else {
                        seq![("tool_calls"@, Json::Arr(spec_tool_calls_json(am.tool_calls@)))]
                    }));
                    assert(r@ == spec_message_json(*self));
                }
                r
            },
            ChatCompletionMessage::Tool(tm) => {
                let b = ObjBuilder::new().field(
                    "role",
                    JsonValue::Str(String::from_str("tool")),
                ).field("content", JsonValue::Str(tm.content.clone())).field(
                    "tool_call_id",
                    JsonValue::Str(tm.tool_call_id.clone()),
                );
                let r = b.finish();
                proof {
                    assert(b@ =~= seq![
                        ("role"@, Json::Str("tool"@)),
                        ("content"@, Json::Str(tm.content@)),
                        ("tool_call_id"@, Json::Str(tm.tool_call_id@)),
                    ]);
                    assert(r@ == spec_message_json(*self));
                }
                r
            },
        }
    }
}

fn tool_calls_to_json(tcs: &Vec<ToolCall>) -> (r: JsonValue)
    ensures
        r@ == Json::Arr(spec_tool_calls_json(tcs@)),
{
    let mut items: Vec<JsonValue> = Vec::new();
    let n = tcs.len();
    let mut i: usize = 0;
    while i < n
        invariant
            n == tcs@.len(),
            0 <= i <= n,
            seq_views(items@) == spec_tool_calls_json(tcs@.take(i as int)),
        decreases n - i,
    {
        let c = tcs[i].to_json();
        let ghost prior = items@;
        items.push(c);
        proof {
            crate::json::lemma_seq_views_push(prior, c);
            assert(seq_views(items@) =~= spec_tool_calls_json(tcs@.take(i + 1 as int)));
        }
        i += 1;
    }
    let r = JsonValue::Arr(items);
    proof {
        assert(tcs@.take(n as int) =~= tcs@);
        crate::json::lemma_json_view_arr(r->Arr_0);
    }
    r
}

// ---------------------------------------------------------------------------
// The chat-completion request and its validating builder.
// ---------------------------------------------------------------------------

/// The `response_format` wire object: `{"type": <token>}`.
#[derive(Debug, Clone, Copy)]
pub struct ChatResponseFormatObject {
    pub format_type: ChatResponseFormat,
}

pub open spec fn spec_format_object_json(f: ChatResponseFormatObject) -> Json {
    Json::Obj(seq![("type"@, Json::Str(spec_chat_format_wire(f.format_type)))])
}

impl ChatResponseFormatObject {
    pub fn to_json(&self) -> (r: JsonValue)
        ensures
            r@ == spec_format_object_json(*self),
    {
        let b = ObjBuilder::new().field(
            "type",
            JsonValue::Str(String::from_str(self.format_type.wire_name())),
        );
        let r = b.finish();
        proof {
            assert(b@ =~= seq![("type"@, Json::Str(spec_chat_format_wire(self.format_type)))]);
            assert(r@ == spec_format_object_json(*self));
        }
        r
    }
}

/// A finalized chat-completion request. Only the builder constructs
/// one; absent optional fields never reach the wire.
#[derive(Debug)]
pub struct ChatCompletionRequest {
    pub messages: Vec<ChatCompletionMessage>,
    pub model: Option<ChatCompleteModel>,
    pub max_tokens: Option<usize>,
    pub n: Option<usize>,
    pub response_format: Option<ChatResponseFormatObject>,
    pub seed: Option<String>,
    pub stop: Option<String>,
    pub stream: Option<bool>,
    pub tools: Vec<Tool>,
    pub tool_choice: Option<ToolChoice>,
    pub user: Option<String>,
}

pub open spec fn spec_messages_json(s: Seq<ChatCompletionMessage>) -> Seq<Json> {
    Seq::new(s.len(), |i: int| spec_message_json(s[i]))
}

pub open spec fn spec_tools_json(s: Seq<Tool>) -> Seq<Json> {
    Seq::new(s.len(), |i: int| spec_tool_json(s[i]))
}

pub open spec fn opt_str_member(key: Seq<char>, v: Option<String>) -> Seq<(Seq<char>, Json)> {
    match v {
        Some(s) => seq![(key, Json::Str(s@))],
        None => Seq::empty(),
    }
}

pub open spec fn opt_num_member(key: Seq<char>, v: Option<usize>) -> Seq<(Seq<char>, Json)> {
    match v {
        Some(x) => seq![(key, Json::Num(x as u64))],
        None => Seq::empty(),
    }
}

pub open spec fn spec_model_member(v: Option<ChatCompleteModel>) -> Seq<(Seq<char>, Json)> {
    match v {
        Some(m) => seq![("model"@, Json::Str(spec_chat_model_wire(m)))],
        None => Seq::empty(),
    }
}

pub open spec fn spec_format_member(v: Option<ChatResponseFormatObject>) -> Seq<
    (Seq<char>, Json),
> {
    match v {
        Some(f) => seq![("response_format"@, spec_format_object_json(f))],
        None => Seq::empty(),
    }
}

pub open spec fn spec_stream_member(v: Option<bool>) -> Seq<(Seq<char>, Json)> {
    match v {
        Some(b) => seq![("stream"@, Json::Bool(b))],
        None => Seq::empty(),
    }
}

/// Tools are omitted entirely when the collection is empty, never
/// serialized as `[]`.
pub open spec fn spec_tools_members(tools: Seq<Tool>) -> Seq<(Seq<char>, Json)> {
    if tools.len() == 0 {
        Seq::empty()
    } else {
        seq![("tools"@, Json::Arr(spec_tools_json(tools)))]
    }
}

pub open spec fn spec_tool_choice_member(v: Option<ToolChoice>) -> Seq<(Seq<char>, Json)> {
    match v {
        Some(tc) => seq![("tool_choice"@, spec_tool_choice_json(tc))],
        None => Seq::empty(),
    }
}

/// The exact JSON object of a request: required `messages` first, then
/// each optional member only where the field is set.
pub open spec fn spec_chat_request_json(req: ChatCompletionRequest) -> Json {
    Json::Obj(
        seq![("messages"@, Json::Arr(spec_messages_json(req.messages@)))]
            + spec_model_member(req.model) + opt_num_member("max_tokens"@, req.max_tokens)
            + opt_num_member("n"@, req.n) + spec_format_member(req.response_format)
            + opt_str_member("seed"@, req.seed) + opt_str_member("stop"@, req.stop)
            + spec_stream_member(req.stream) + spec_tools_members(req.tools@)
            + spec_tool_choice_member(req.tool_choice) + opt_str_member("user"@, req.user),
    )
}

fn messages_to_json(msgs: &Vec<ChatCompletionMessage>) -> (r: JsonValue)
    ensures
        r@ == Json::Arr(spec_messages_json(msgs@)),
{
    let mut items: Vec<JsonValue> = Vec::new();
    let n = msgs.len();
    let mut i: usize = 0;
    while i < n
        invariant
            n == msgs@.len(),
            0 <= i <= n,
            seq_views(items@) == spec_messages_json(msgs@.take(i as int)),
        decreases n - i,
    {
        let c = msgs[i].to_json();
        let ghost prior = items@;
        items.push(c);
        proof {
            crate::json::lemma_seq_views_push(prior, c);
            assert(seq_views(items@) =~= spec_messages_json(msgs@.take(i + 1 as int)));
        }
        i += 1;
    }
    let r = JsonValue::Arr(items);
    proof {
        assert(msgs@.take(n as int) =~= msgs@);
        crate::json::lemma_json_view_arr(r->Arr_0);
    }
    r
}

fn tools_to_json(tools: &Vec<Tool>) -> (r: JsonValue)
    ensures
        r@ == Json::Arr(spec_tools_json(tools@)),
{
    let mut items: Vec<JsonValue> = Vec::new();
    let n = tools.len();
    let mut i: usize = 0;
    while i < n
        invariant
            n == tools@.len(),
            0 <= i <= n,
            seq_views(items@) == spec_tools_json(tools@.take(i as int)),
        decreases n - i,
    {
        let c = tools[i].to_json();
        let ghost prior = items@;
        items.push(c);
        proof {
            crate::json::lemma_seq_views_push(prior, c);
            assert(seq_views(items@) =~= spec_tools_json(tools@.take(i + 1 as int)));
        }
        i += 1;
    }
    let r = JsonValue::Arr(items);
    proof {
        assert(tools@.take(n as int) =~= tools@);
        crate::json::lemma_json_view_arr(r->Arr_0);
    }
    r
}

fn chat_request_members_front(req: &ChatCompletionRequest) -> (b: ObjBuilder)
    ensures
        b@ == seq![("messages"@, Json::Arr(spec_messages_json(req.messages@)))]
            + spec_model_member(req.model) + opt_num_member("max_tokens"@, req.max_tokens)
            + opt_num_member("n"@, req.n) + spec_format_member(req.response_format)
            + opt_str_member("seed"@, req.seed),
{
    let b1 = ObjBuilder::new().field("messages", messages_to_json(&req.messages));
    let b2 = match &req.model {
        Some(m) => b1.field("model", JsonValue::Str(String::from_str(m.wire_name()))),
        None => b1,
    };
    proof {
        assert(b2@ =~= seq![("messages"@, Json::Arr(spec_messages_json(req.messages@)))]
            + spec_model_member(req.model));
    }
    let b3 = match &req.max_tokens {
        Some(x) => b2.field("max_tokens", JsonValue::Num(usize_to_u64(*x))),
        None => b2,
    };
    proof {
        assert(b3@ =~= b2@ + opt_num_member("max_tokens"@, req.max_tokens));
    }
    let b4 = match &req.n {
        Some(x) => b3.field("n", JsonValue::Num(usize_to_u64(*x))),
        None => b3,
    };
    proof {
        assert(b4@ =~= b3@ + opt_num_member("n"@, req.n));
    }
    let b5 = match &req.response_format {
        Some(f) => b4.field("response_format", f.to_json()),
        None => b4,
    };
    proof {
        assert(b5@ =~= b4@ + spec_format_member(req.response_format));
    }
    let b6 = match &req.seed {
        Some(v) => b5.field("seed", JsonValue::Str(v.clone())),
        None => b5,
    };
    proof {
        assert(b6@ =~= b5@ + opt_str_member("seed"@, req.seed));
    }
    b6
}

impl ChatCompletionRequest {
    /// The JSON object this request puts on the wire.
    pub fn to_json(&self) -> (r: JsonValue)
        ensures
            r@ == spec_chat_request_json(*self),
    {
        let b6 = chat_request_members_front(self);
        let b7 = match &self.stop {
            Some(v) => b6.field("stop", JsonValue::Str(v.clone())),
            None => b6,
        };
        proof {
            assert(b7@ =~= b6@ + opt_str_member("stop"@, self.stop));
        }
        let b8 = match &self.stream {
            Some(v) => b7.field("stream", JsonValue::Bool(*v)),
            None => b7,
        };
        proof {
            assert(b8@ =~= b7@ + spec_stream_member(self.stream));
        }
        let b9 = if self.tools.len() > 0 {
            b8.field("tools", tools_to_json(&self.tools))
        } else {
            b8
        };
        proof {
            assert(b9@ =~= b8@ + spec_tools_members(self.tools@));
        }
        let b10 = match &self.tool_choice {
            Some(tc) => b9.field("tool_choice", tc.to_json()),
            None => b9,
        };
        proof {
            assert(b10@ =~= b9@ + spec_tool_choice_member(self.tool_choice));
        }
        let b11 = match &self.user {
            Some(u) => b10.field("user", JsonValue::Str(u.clone())),
            None => b10,
        };
        proof {
            assert(b11@ =~= b10@ + opt_str_member("user"@, self.user));
        }
        let r = b11.finish();
        proof {
            assert(r@ == spec_chat_request_json(*self));
        }
        r
    }

    /// The compact JSON text of this request, as the emitter sends it.
    pub fn to_body(&self) -> (r: String)
        ensures
            r@ == crate::json::json_text(spec_chat_request_json(*self)),
    {
        self.to_json().render()
    }

    /// The fixed endpoint this request is bound to; the method is POST.
    pub fn endpoint_url() -> (r: &'static str)
        ensures
            r@ == "https://api.openai.com/v1/chat/completions"@,
    {
        "https://api.openai.com/v1/chat/completions"
    }
}

pub(crate) fn usize_to_u64(x: usize) -> (r: u64)
    ensures
        r == x as u64,
        r as int == x as int,
{
    x as u64
}

/// Accumulates the fields of a chat-completion request. Setting a
/// field twice keeps the later value; `build` demands `messages`.
#[derive(Debug)]
pub struct ChatCompletionRequestBuilder {
    pub messages: Option<Vec<ChatCompletionMessage>>,
    pub model: Option<ChatCompleteModel>,
    pub max_tokens: Option<usize>,
    pub n: Option<usize>,
    pub response_format: Option<ChatResponseFormatObject>,
    pub seed: Option<String>,
    pub stop: Option<String>,
    pub stream: Option<bool>,
    pub tools: Vec<Tool>,
    pub tool_choice: Option<ToolChoice>,
    pub user: Option<String>,
}

impl Default for ChatCompletionRequestBuilder {
    /// A builder with nothing set: every optional field will be
    /// omitted, and `build` fails until `messages` is supplied.
    fn default() -> (r: Self)
        ensures
            r.messages is None,
            r.model is None,
            r.max_tokens is None,
            r.n is None,
            r.response_format is None,
            r.seed is None,
            r.stop is None,
            r.stream is None,
            r.tools@.len() == 0,
            r.tool_choice is None,
            r.user is None,
    {
        ChatCompletionRequestBuilder {
            messages: None,
            model: None,
            max_tokens: None,
            n: None,
            response_format: None,
            seed: None,
            stop: None,
            stream: None,
            tools: Vec::new(),
            tool_choice: None,
            user: None,
        }
    }
}

impl ChatCompletionRequestBuilder {
    pub fn messages(self, messages: Vec<ChatCompletionMessage>) -> (r: Self)
        ensures
            r == (Self { messages: Some(messages), ..self }),
    {
        Self { messages: Some(messages), ..self }
    }

    pub fn model(self, model: ChatCompleteModel) -> (r: Self)
        ensures
            r == (Self { model: Some(model), ..self }),
    {
        Self { model: Some(model), ..self }
    }

    pub fn max_tokens(self, max_tokens: usize) -> (r: Self)
        ensures
            r == (Self { max_tokens: Some(max_tokens), ..self }),
    {
        Self { max_tokens: Some(max_tokens), ..self }
    }

    pub fn n(self, n: usize) -> (r: Self)
        ensures
            r == (Self { n: Some(n), ..self }),
    {
        Self { n: Some(n), ..self }
    }

    pub fn response_format(self, response_format: ChatResponseFormatObject) -> (r: Self)
        ensures
            r == (Self { response_format: Some(response_format), ..self }),
    {
        Self { response_format: Some(response_format), ..self }
    }

    pub fn seed(self, seed: String) -> (r: Self)
        ensures
            r == (Self { seed: Some(seed), ..self }),
    {
        Self { seed: Some(seed), ..self }
    }

    pub fn stop(self, stop: String) -> (r: Self)
        ensures
            r == (Self { stop: Some(stop), ..self }),
    {
        Self { stop: Some(stop), ..self }
    }

    pub fn stream(self, stream: bool) -> (r: Self)
        ensures
            r == (Self { stream: Some(stream), ..self }),
    {
        Self { stream: Some(stream), ..self }
    }

    pub fn tools(self, tools: Vec<Tool>) -> (r: Self)
        ensures
            r == (Self { tools, ..self }),
    {
        Self { tools, ..self }
    }

    pub fn tool_choice(self, tool_choice: ToolChoice) -> (r: Self)
        ensures
            r == (Self { tool_choice: Some(tool_choice), ..self }),
    {
        Self { tool_choice: Some(tool_choice), ..self }
    }

    pub fn user(self, user: String) -> (r: Self)
        ensures
            r == (Self { user: Some(user), ..self }),
    {
        Self { user: Some(user), ..self }
    }

    /// Finalizes the request. Fails, naming the field, exactly when
    /// `messages` was never supplied; everything else has a default.
    pub fn build(self) -> (r: Result<ChatCompletionRequest, BuildError>)
        ensures
            self.messages matches Some(msgs) ==> (r matches Ok(req) && req
                == (ChatCompletionRequest {
                messages: msgs,
                model: self.model,
                max_tokens: self.max_tokens,
                n: self.n,
                response_format: self.response_format,
                seed: self.seed,
                stop: self.stop,
                stream: self.stream,
                tools: self.tools,
                tool_choice: self.tool_choice,
                user: self.user,
            })),
            self.messages is None ==> (r matches Err(e) && e@
                == BuildErrorV::UninitializedField("messages"@)),
    {
        match self.messages {
            Some(messages) => Ok(
                ChatCompletionRequest {
                    messages,
                    model: self.model,
                    max_tokens: self.max_tokens,
                    n: self.n,
                    response_format: self.response_format,
                    seed: self.seed,
                    stop: self.stop,
                    stream: self.stream,
                    tools: self.tools,
                    tool_choice: self.tool_choice,
                    user: self.user,
                },
            ),
            None => Err(BuildError::UninitializedField(String::from_str("messages"))),
        }
    }
}

// ---------------------------------------------------------------------------
// The chat-completion response and its parser.
// ---------------------------------------------------------------------------

/// Token-usage accounting of one completion.
#[derive(Debug, Clone, Copy, PartialEq, Eq, Structural)]
pub struct ChatCompleteUsage {
    pub completion_tokens: usize,
    pub prompt_tokens: usize,
    pub total_tokens: usize,
}

/// One generated choice.
#[derive(Debug, Clone)]
pub struct ChatCompletionChoice {
    pub finish_reason: FinishReason,
    pub index: usize,
    pub message: AssistantMessage,
}

/// A decoded chat-completion response; never built by hand.
#[derive(Debug, Clone)]
pub struct ChatCompletionResponse {
    pub id: String,
    pub choices: Vec<ChatCompletionChoice>,
    pub created: usize,
    pub model: String,
    pub system_fingerprint: String,
    pub object: String,
    pub usage: ChatCompleteUsage,
}

pub struct FunctionCallV {
    pub name: Seq<char>,
    pub arguments: Seq<char>,
}

pub struct ToolCallV {
    pub id: Seq<char>,
    pub tool_type: ToolType,
    pub function: FunctionCallV,
}

pub struct AssistantMessageV {
    pub content: Seq<char>,
    pub name: Option<Seq<char>>,
    pub tool_calls: Seq<ToolCallV>,
}

pub struct ChatCompletionChoiceV {
    pub finish_reason: FinishReason,
    pub index: usize,
    pub message: AssistantMessageV,
}

pub struct ChatCompletionResponseV {
    pub id: Seq<char>,
    pub choices: Seq<ChatCompletionChoiceV>,
    pub created: usize,
    pub model: Seq<char>,
    pub system_fingerprint: Seq<char>,
    pub object: Seq<char>,
    pub usage: ChatCompleteUsage,
}

impl View for FunctionCall {
    type V = FunctionCallV;

    open spec fn view(&self) -> FunctionCallV {
        FunctionCallV { name: self.name@, arguments: self.arguments@ }
    }
}

pub open spec fn tool_calls_view(s: Seq<ToolCall>) -> Seq<ToolCallV> {
    Seq::new(s.len(), |i: int| s[i]@)
}

impl View for ToolCall {
    type V = ToolCallV;

    open spec fn view(&self) -> ToolCallV {
        ToolCallV { id: self.id@, tool_type: self.tool_type, function: self.function@ }
    }
}

impl View for AssistantMessage {
    type V = AssistantMessageV;

    open spec fn view(&self) -> AssistantMessageV {
        AssistantMessageV {
            content: self.content@,
            name: name_view(self.name),
            tool_calls: tool_calls_view(self.tool_calls@),
        }
    }
}

pub open spec fn choices_view(s: Seq<ChatCompletionChoice>) -> Seq<ChatCompletionChoiceV> {
    Seq::new(s.len(), |i: int| s[i]@)
}

impl View for ChatCompletionChoice {
    type V = ChatCompletionChoiceV;

    open spec fn view(&self) -> ChatCompletionChoiceV {
        ChatCompletionChoiceV {
            finish_reason: self.finish_reason,
            index: self.index,
            message: self.message@,
        }
    }
}

impl View for ChatCompletionResponse {
    type V = ChatCompletionResponseV;

    open spec fn view(&self) -> ChatCompletionResponseV {
        ChatCompletionResponseV {
            id: self.id@,
            choices: choices_view(self.choices@),
            created: self.created,
            model: self.model@,
            system_fingerprint: self.system_fingerprint@,
            object: self.object@,
            usage: self.usage,
        }
    }
}

/// `Ok` of the view, or `Err` of the error's view.
pub open spec fn res_view<T: View>(r: Result<T, DecodeError>) -> Result<T::V, DecodeErrorV> {
    match r {
        Ok(x) => Ok(x@),
        Err(e) => Err(e@),
    }
}

/// A required string member: missing and ill-shaped are told apart.
pub open spec fn spec_decode_str(es: Seq<(Seq<char>, Json)>, key: Seq<char>) -> Result<
    Seq<char>,
    DecodeErrorV,
> {
    match spec_obj_get(es, key) {
        None => Err(DecodeErrorV::MissingField(key)),
        Some(j) => match j {
            Json::Str(s) => Ok(s),
            _ => Err(DecodeErrorV::Malformed(key)),
        },
    }
}

/// A required numeric member that must fit a `usize`.
pub open spec fn spec_decode_usize(es: Seq<(Seq<char>, Json)>, key: Seq<char>) -> Result<
    usize,
    DecodeErrorV,
> {
    match spec_obj_get(es, key) {
        None => Err(DecodeErrorV::MissingField(key)),
        Some(j) => match j {
            Json::Num(n) => if n <= usize::MAX as u64 {
                Ok(n as usize)
            } else {
                Err(DecodeErrorV::Malformed(key))
            },
            _ => Err(DecodeErrorV::Malformed(key)),
        },
    }
}

pub open spec fn spec_decode_function_call(j: Json) -> Result<FunctionCallV, DecodeErrorV> {
    match j {
        Json::Obj(es) => match spec_decode_str(es, "name"@) {
            Err(e) => Err(e),
            Ok(name) => match spec_decode_str(es, "arguments"@) {
                Err(e) => Err(e),
                Ok(arguments) => Ok(FunctionCallV { name, arguments }),
            },
        },
        _ => Err(DecodeErrorV::Malformed("function"@)),
    }
}

pub open spec fn spec_decode_tool_call(j: Json) -> Result<ToolCallV, DecodeErrorV> {
    match j {
        Json::Obj(es) => match spec_decode_str(es, "id"@) {
            Err(e) => Err(e),
            Ok(id) => match spec_obj_get(es, "type"@) {
                None => Err(DecodeErrorV::MissingField("type"@)),
                Some(tj) => match tj {
                    Json::Str(t) => match spec_tool_type_of(t) {
                        None => Err(DecodeErrorV::UnknownToken { field: "type"@, token: t }),
                        Some(tool_type) => match spec_obj_get(es, "function"@) {
                            None => Err(DecodeErrorV::MissingField("function"@)),
                            Some(fj) => match spec_decode_function_call(fj) {
                                Err(e) => Err(e),
                                Ok(function) => Ok(ToolCallV { id, tool_type, function }),
                            },
                        },
                    },
                    _ => Err(DecodeErrorV::Malformed("type"@)),
                },
            },
        },
        _ => Err(DecodeErrorV::Malformed("tool_calls"@)),
    }
}

pub open spec fn spec_decode_tool_calls(items: Seq<Json>) -> Result<Seq<ToolCallV>, DecodeErrorV>
    decreases items.len(),
{
    if items.len() == 0 {
        Ok(Seq::empty())
    } else {
        match spec_decode_tool_call(items[0]) {
            Err(e) => Err(e),
            Ok(c) => match spec_decode_tool_calls(items.drop_first()) {
                Err(e) => Err(e),
                Ok(rest) => Ok(seq![c] + rest),
            },
        }
    }
}

/// The one message variant the API returns. `name` and `tool_calls`
/// are optional members; absence means no name and no calls.
pub open spec fn spec_decode_assistant(j: Json) -> Result<AssistantMessageV, DecodeErrorV> {
    match j {
        Json::Obj(es) => match spec_decode_str(es, "content"@) {
            Err(e) => Err(e),
            Ok(content) => match spec_obj_get(es, "name"@) {
                Some(nj) => match nj {
                    Json::Str(s) => match spec_decode_assistant_calls(es) {
                        Err(e) => Err(e),
                        Ok(tool_calls) => Ok(
                            AssistantMessageV { content, name: Some(s), tool_calls },
                        ),
                    },
                    Json::Null => match spec_decode_assistant_calls(es) {
                        Err(e) => Err(e),
                        Ok(tool_calls) => Ok(AssistantMessageV { content, name: None, tool_calls }),
                    },
                    _ => Err(DecodeErrorV::Malformed("name"@)),
                },
                None => match spec_decode_assistant_calls(es) {
                    Err(e) => Err(e),
                    Ok(tool_calls) => Ok(AssistantMessageV { content, name: None, tool_calls }),
                },
            },
        },
        _ => Err(DecodeErrorV::Malformed("message"@)),
    }
}

pub open spec fn spec_decode_assistant_calls(es: Seq<(Seq<char>, Json)>) -> Result<
    Seq<ToolCallV>,
    DecodeErrorV,
> {
    match spec_obj_get(es, "tool_calls"@) {
        None => Ok(Seq::empty()),
        Some(cj) => match cj {
            Json::Arr(items) => spec_decode_tool_calls(items),
            _ => Err(DecodeErrorV::Malformed("tool_calls"@)),
        },
    }
}

pub open spec fn spec_decode_choice(j: Json) -> Result<ChatCompletionChoiceV, DecodeErrorV> {
    match j {
        Json::Obj(es) => match spec_obj_get(es, "finish_reason"@) {
            None => Err(DecodeErrorV::MissingField("finish_reason"@)),
            Some(fj) => match fj {
                Json::Str(t) => match spec_finish_reason_of(t) {
                    None => Err(
                        DecodeErrorV::UnknownToken { field: "finish_reason"@, token: t },
                    ),
                    Some(finish_reason) => match spec_decode_usize(es, "index"@) {
                        Err(e) => Err(e),
                        Ok(index) => match spec_obj_get(es, "message"@) {
                            None => Err(DecodeErrorV::MissingField("message"@)),
                            Some(mj) => match spec_decode_assistant(mj) {
                                Err(e) => Err(e),
                                Ok(message) => Ok(
                                    ChatCompletionChoiceV { finish_reason, index, message },
                                ),
                            },
                        },
                    },
                },
                _ => Err(DecodeErrorV::Malformed("finish_reason"@)),
            },
        },
        _ => Err(DecodeErrorV::Malformed("choices"@)),
    }
}

pub open spec fn spec_decode_choices(items: Seq<Json>) -> Result<
    Seq<ChatCompletionChoiceV>,
    DecodeErrorV,
>
    decreases items.len(),
{
    if items.len() == 0 {
        Ok(Seq::empty())
    } else {
        match spec_decode_choice(items[0]) {
            Err(e) => Err(e),
            Ok(c) => match spec_decode_choices(items.drop_first()) {
                Err(e) => Err(e),
                Ok(rest) => Ok(seq![c] + rest),
            },
        }
    }
}

pub open spec fn spec_decode_usage(j: Json) -> Result<ChatCompleteUsage, DecodeErrorV> {
    match j {
        Json::Obj(es) => match spec_decode_usize(es, "completion_tokens"@) {
            Err(e) => Err(e),
            Ok(completion_tokens) => match spec_decode_usize(es, "prompt_tokens"@) {
                Err(e) => Err(e),
                Ok(prompt_tokens) => match spec_decode_usize(es, "total_tokens"@) {
                    Err(e) => Err(e),
                    Ok(total_tokens) => Ok(
                        ChatCompleteUsage { completion_tokens, prompt_tokens, total_tokens },
                    ),
                },
            },
        },
        _ => Err(DecodeErrorV::Malformed("usage"@)),
    }
}

/// The whole response: members unknown to the schema are ignored.
pub open spec fn spec_decode_chat_response(j: Json) -> Result<
    ChatCompletionResponseV,
    DecodeErrorV,
> {
    match j {
        Json::Obj(es) => match spec_decode_str(es, "id"@) {
            Err(e) => Err(e),
            Ok(id) => match spec_obj_get(es, "choices"@) {
                None => Err(DecodeErrorV::MissingField("choices"@)),
                Some(cj) => match cj {
                    Json::Arr(items) => match spec_decode_choices(items) {
                        Err(e) => Err(e),
                        Ok(choices) => match spec_decode_usize(es, "created"@) {
                            Err(e) => Err(e),
                            Ok(created) => match spec_decode_str(es, "model"@) {
                                Err(e) => Err(e),
                                Ok(model) => match spec_decode_str(es, "system_fingerprint"@) {
                                    Err(e) => Err(e),
                                    Ok(system_fingerprint) => match spec_decode_str(es, "object"@) {
                                        Err(e) => Err(e),
                                        Ok(object) => match spec_obj_get(es, "usage"@) {
                                            None => Err(DecodeErrorV::MissingField("usage"@)),
                                            Some(uj) => match spec_decode_usage(uj) {
                                                Err(e) => Err(e),
                                                Ok(usage) => Ok(
                                                    ChatCompletionResponseV {
                                                        id,
                                                        choices,
                                                        created,
                                                        model,
                                                        system_fingerprint,
                                                        object,
                                                        usage,
                                                    },
                                                ),
                                            },
                                        },
                                    },
                                },
                            },
                        },
                    },
                    _ => Err(DecodeErrorV::Malformed("choices"@)),
                },
            },
        },
        _ => Err(DecodeErrorV::Malformed("response"@)),
    }
}

fn missing(key: &str) -> (r: DecodeError)
    ensures
        r@ == DecodeErrorV::MissingField(key@),
{
    DecodeError::MissingField(String::from_str(key))
}

fn malformed(key: &str) -> (r: DecodeError)
    ensures
        r@ == DecodeErrorV::Malformed(key@),
{
    DecodeError::Malformed(String::from_str(key))
}

fn get_str_field(v: &JsonValue, key: &str) -> (r: Result<String, DecodeError>)
    requires
        v@ is Obj,
    ensures
        (match r {
            Ok(s) => spec_decode_str(v@->Obj_0, key@) == Ok::<Seq<char>, DecodeErrorV>(s@),
            Err(e) => spec_decode_str(v@->Obj_0, key@) == Err::<Seq<char>, DecodeErrorV>(e@),
        }),
{
    match v.get(key) {
        Some(w) => match w {
            JsonValue::Str(s) => Ok(s.clone()),
            _ => Err(malformed(key)),
        },
        None => Err(missing(key)),
    }
}

fn get_usize_field(v: &JsonValue, key: &str) -> (r: Result<usize, DecodeError>)
    requires
        v@ is Obj,
    ensures
        (match r {
            Ok(x) => spec_decode_usize(v@->Obj_0, key@) == Ok::<usize, DecodeErrorV>(x),
            Err(e) => spec_decode_usize(v@->Obj_0, key@) == Err::<usize, DecodeErrorV>(e@),
        }),
{
    match v.get(key) {
        Some(w) => match w {
            JsonValue::Num(n) => if *n <= usize::MAX as u64 {
                Ok(*n as usize)
            } else {
                Err(malformed(key))
            },
            _ => Err(malformed(key)),
        },
        None => Err(missing(key)),
    }
}

impl FunctionCall {
    /// Decodes the `function` object of a tool call.
    pub fn from_json(v: &JsonValue) -> (r: Result<FunctionCall, DecodeError>)
        ensures
            res_view(r) == spec_decode_function_call(v@),
    {
        match v {
            JsonValue::Obj(entries) => {
                let name = match get_str_field(v, "name") {
                    Ok(s) => s,
                    Err(e) => {
                        return Err(e);
                    },
                };
                let arguments = match get_str_field(v, "arguments") {
                    Ok(s) => s,
                    Err(e) => {
                        return Err(e);
                    },
                };
                Ok(FunctionCall { name, arguments })
            },
            _ => Err(malformed("function")),
        }
    }
}

impl ToolCall {
    pub fn from_json(v: &JsonValue) -> (r: Result<ToolCall, DecodeError>)
        ensures
            res_view(r) == spec_decode_tool_call(v@),
    {
        match v {
            JsonValue::Obj(entries) => {
                let id = match get_str_field(v, "id") {
                    Ok(s) => s,
                    Err(e) => {
                        return Err(e);
                    },
                };
                let tool_type = match v.get("type") {
                    None => {
                        return Err(missing("type"));
                    },
                    Some(w) => match w {
                        JsonValue::Str(t) => match ToolType::from_wire(t.as_str()) {
                            Some(tt) => tt,
                            None => {
                                return Err(
                                    DecodeError::UnknownToken {
                                        field: String::from_str("type"),
                                        token: t.clone(),
                                    },
                                );
                            },
                        },
                        _ => {
                            return Err(malformed("type"));
                        },
                    },
                };
                let function = match v.get("function") {
                    None => {
                        return Err(missing("function"));
                    },
                    Some(fj) => match FunctionCall::from_json(fj) {
                        Ok(f) => f,
                        Err(e) => {
                            return Err(e);
                        },
                    },
                };
                Ok(ToolCall { id, tool_type, function })
            },
            _ => Err(malformed("tool_calls")),
        }
    }
}

pub open spec fn prepend_calls(pre: Seq<ToolCallV>, r: Result<Seq<ToolCallV>, DecodeErrorV>) -> Result<
    Seq<ToolCallV>,
    DecodeErrorV,
> {
    match r {
        Ok(cs) => Ok(pre + cs),
        Err(e) => Err(e),
    }
}

pub open spec fn prepend_choices(
    pre: Seq<ChatCompletionChoiceV>,
    r: Result<Seq<ChatCompletionChoiceV>, DecodeErrorV>,
) -> Result<Seq<ChatCompletionChoiceV>, DecodeErrorV> {
    match r {
        Ok(cs) => Ok(pre + cs),
        Err(e) => Err(e),
    }
}

fn decode_tool_calls(items: &Vec<JsonValue>) -> (r: Result<Vec<ToolCall>, DecodeError>)
    ensures
        (match r {
            Ok(v) => spec_decode_tool_calls(seq_views(items@)) == Ok::<_, DecodeErrorV>(
                tool_calls_view(v@),
            ),
            Err(e) => spec_decode_tool_calls(seq_views(items@)) == Err::<Seq<ToolCallV>, _>(e@),
        }),
{
    let ghost vs = seq_views(items@);
    let mut acc: Vec<ToolCall> = Vec::new();
    let n = items.len();
    let mut i: usize = 0;
    proof {
        assert(vs.skip(0) =~= vs);
        assert(tool_calls_view(acc@) =~= Seq::<ToolCallV>::empty());
    }
    while i < n
        invariant
            n == items@.len(),
            0 <= i <= n,
            vs == seq_views(items@),
            spec_decode_tool_calls(vs) == prepend_calls(
                tool_calls_view(acc@),
                spec_decode_tool_calls(vs.skip(i as int)),
            ),
        decreases n - i,
    {
        proof {
            assert(vs.skip(i as int)[0] == vs[i as int]);
            assert(vs.skip(i as int).drop_first() =~= vs.skip(i + 1 as int));
        }
        let c = match ToolCall::from_json(&items[i]) {
            Ok(c) => c,
            Err(e) => {
                return Err(e);
            },
        };
        let ghost prior = acc@;
        acc.push(c);
        proof {
            let ghost tail = spec_decode_tool_calls(vs.skip(i + 1 as int));
            assert(tool_calls_view(acc@) =~= tool_calls_view(prior).push(c@));
            if tail is Ok {
                assert(tool_calls_view(prior) + (seq![c@] + tail->Ok_0) =~= tool_calls_view(acc@)
                    + tail->Ok_0);
            }
        }
        i += 1;
    }
    proof {
        assert(vs.skip(n as int) =~= Seq::<Json>::empty());
        assert(tool_calls_view(acc@) + Seq::<ToolCallV>::empty() =~= tool_calls_view(acc@));
    }
    Ok(acc)
}

impl AssistantMessage {
    /// Decodes the assistant message of a choice; `name` and
    /// `tool_calls` may be absent.
    pub fn from_json(v: &JsonValue) -> (r: Result<AssistantMessage, DecodeError>)
        ensures
            res_view(r) == spec_decode_assistant(v@),
    {
        match v {
            JsonValue::Obj(entries) => {
                let content = match get_str_field(v, "content") {
                    Ok(s) => s,
                    Err(e) => {
                        return Err(e);
                    },
                };
                let name = match v.get("name") {
                    None => None,
                    Some(w) => match w {
                        JsonValue::Str(s) => Some(s.clone()),
                        JsonValue::Null => None,
                        _ => {
                            return Err(malformed("name"));
                        },
                    },
                };
                let tool_calls = match v.get("tool_calls") {
                    None => Vec::new(),
                    Some(w) => match w {
                        JsonValue::Arr(items) => match decode_tool_calls(items) {
                            Ok(cs) => cs,
                            Err(e) => {
                                return Err(e);
                            },
                        },
                        _ => {
                            return Err(malformed("tool_calls"));
                        },
                    },
                };
                proof {
                    assert(tool_calls_view(Seq::<ToolCall>::empty()) =~= Seq::<ToolCallV>::empty());
                }
                Ok(AssistantMessage { content, name, tool_calls })
            },
            _ => Err(malformed("message")),
        }
    }
}

impl ChatCompletionChoice {
    pub fn from_json(v: &JsonValue) -> (r: Result<ChatCompletionChoice, DecodeError>)
        ensures
            res_view(r) == spec_decode_choice(v@),
    {
        match v {
            JsonValue::Obj(entries) => {
                let finish_reason = match v.get("finish_reason") {
                    None => {
                        return Err(missing("finish_reason"));
                    },
                    Some(w) => match w {
                        JsonValue::Str(t) => match FinishReason::from_wire(t.as_str()) {
                            Some(fr) => fr,
                            None => {
                                return Err(
                                    DecodeError::UnknownToken {
                                        field: String::from_str("finish_reason"),
                                        token: t.clone(),
                                    },
                                );
                            },
                        },
                        _ => {
                            return Err(malformed("finish_reason"));
                        },
                    },
                };
                let index = match get_usize_field(v, "index") {
                    Ok(x) => x,
                    Err(e) => {
                        return Err(e);
                    },
                };
                let message = match v.get("message") {
                    None => {
                        return Err(missing("message"));
                    },
                    Some(mj) => match AssistantMessage::from_json(mj) {
                        Ok(m) => m,
                        Err(e) => {
                            return Err(e);
                        },
                    },
                };
                Ok(ChatCompletionChoice { finish_reason, index, message })
            },
            _ => Err(malformed("choices")),
        }
    }
}

fn decode_choices(items: &Vec<JsonValue>) -> (r: Result<Vec<ChatCompletionChoice>, DecodeError>)
    ensures
        (match r {
            Ok(v) => spec_decode_choices(seq_views(items@)) == Ok::<_, DecodeErrorV>(
                choices_view(v@),
            ),
            Err(e) => spec_decode_choices(seq_views(items@)) == Err::<
                Seq<ChatCompletionChoiceV>,
                _,
            >(e@),
        }),
{
    let ghost vs = seq_views(items@);
    let mut acc: Vec<ChatCompletionChoice> = Vec::new();
    let n = items.len();
    let mut i: usize = 0;
    proof {
        assert(vs.skip(0) =~= vs);
        assert(choices_view(acc@) =~= Seq::<ChatCompletionChoiceV>::empty());
    }
    while i < n
        invariant
            n == items@.len(),
            0 <= i <= n,
            vs == seq_views(items@),
            spec_decode_choices(vs) == prepend_choices(
                choices_view(acc@),
                spec_decode_choices(vs.skip(i as int)),
            ),
        decreases n - i,
    {
        proof {
            assert(vs.skip(i as int)[0] == vs[i as int]);
            assert(vs.skip(i as int).drop_first() =~= vs.skip(i + 1 as int));
        }
        let c = match ChatCompletionChoice::from_json(&items[i]) {
            Ok(c) => c,
            Err(e) => {
                return Err(e);
            },
        };
        let ghost prior = acc@;
        acc.push(c);
        proof {
            let ghost tail = spec_decode_choices(vs.skip(i + 1 as int));
            assert(choices_view(acc@) =~= choices_view(prior).push(c@));
            if tail is Ok {
                assert(choices_view(prior) + (seq![c@] + tail->Ok_0) =~= choices_view(acc@)
                    + tail->Ok_0);
            }
        }
        i += 1;
    }
    proof {
        assert(vs.skip(n as int) =~= Seq::<Json>::empty());
        assert(choices_view(acc@) + Seq::<ChatCompletionChoiceV>::empty() =~= choices_view(acc@));
    }
    Ok(acc)
}

impl ChatCompleteUsage {
    pub fn from_json(v: &JsonValue) -> (r: Result<ChatCompleteUsage, DecodeError>)
        ensures
            (match r {
                Ok(u) => spec_decode_usage(v@) == Ok::<ChatCompleteUsage, DecodeErrorV>(u),
                Err(e) => spec_decode_usage(v@) == Err::<ChatCompleteUsage, DecodeErrorV>(e@),
            }),
    {
        match v {
            JsonValue::Obj(entries) => {
                let completion_tokens = match get_usize_field(v, "completion_tokens") {
                    Ok(x) => x,
                    Err(e) => {
                        return Err(e);
                    },
                };
                let prompt_tokens = match get_usize_field(v, "prompt_tokens") {
                    Ok(x) => x,
                    Err(e) => {
                        return Err(e);
                    },
                };
                let total_tokens = match get_usize_field(v, "total_tokens") {
                    Ok(x) => x,
                    Err(e) => {
                        return Err(e);
                    },
                };
                Ok(ChatCompleteUsage { completion_tokens, prompt_tokens, total_tokens })
            },
            _ => Err(malformed("usage")),
        }
    }
}

impl ChatCompletionResponse {
    /// Decodes a whole response body, already parsed into a JSON tree.
    /// Exactly the bodies `spec_decode_chat_response` accepts decode;
    /// every rejection carries the error that spec names.
    pub fn from_json(v: &JsonValue) -> (r: Result<ChatCompletionResponse, DecodeError>)
        ensures
            res_view(r) == spec_decode_chat_response(v@),
    {
        match v {
            JsonValue::Obj(entries) => {
                let id = match get_str_field(v, "id") {
                    Ok(s) => s,
                    Err(e) => {
                        return Err(e);
                    },
                };
                let choices = match v.get("choices") {
                    None => {
                        return Err(missing("choices"));
                    },
                    Some(w) => match w {
                        JsonValue::Arr(items) => match decode_choices(items) {
                            Ok(cs) => cs,
                            Err(e) => {
                                return Err(e);
                            },
                        },
                        _ => {
                            return Err(malformed("choices"));
                        },
                    },
                };
                let created = match get_usize_field(v, "created") {
                    Ok(x) => x,
                    Err(e) => {
                        return Err(e);
                    },
                };
                let model = match get_str_field(v, "model") {
                    Ok(s) => s,
                    Err(e) => {
                        return Err(e);
                    },
                };
                let system_fingerprint = match get_str_field(v, "system_fingerprint") {
                    Ok(s) => s,
                    Err(e) => {
                        return Err(e);
                    },
                };
                let object = match get_str_field(v, "object") {
                    Ok(s) => s,
                    Err(e) => {
                        return Err(e);
                    },
                };
                let usage = match v.get("usage") {
                    None => {
                        return Err(missing("usage"));
                    },
                    Some(uj) => match ChatCompleteUsage::from_json(uj) {
                        Ok(u) => u,
                        Err(e) => {
                            return Err(e);
                        },
                    },
                };
                Ok(
                    ChatCompletionResponse {
                        id,
                        choices,
                        created,
                        model,
                        system_fingerprint,
                        object,
                        usage,
                    },
                )
            },
            _ => Err(malformed("response")),
        }
    }
}

// ---------------------------------------------------------------------------
// Stated laws of the schema.
// ---------------------------------------------------------------------------

/// A chat request with only the required field set serializes to an
/// object holding exactly the `messages` member and no optional key.
pub proof fn lemma_required_only_chat_request(req: ChatCompletionRequest)
    requires
        req.model is None,
        req.max_tokens is None,
        req.n is None,
        req.response_format is None,
        req.seed is None,
        req.stop is None,
        req.stream is None,
        req.tools@.len() == 0,
        req.tool_choice is None,
        req.user is None,
    ensures
        spec_chat_request_json(req) matches Json::Obj(es) && es =~= seq![
            ("messages"@, Json::Arr(spec_messages_json(req.messages@))),
        ],
{
    assert(spec_chat_request_json(req)->Obj_0 =~= seq![
        ("messages"@, Json::Arr(spec_messages_json(req.messages@))),
    ]);
}

/// The bespoke `ToolChoice` shapes: bare strings for `NoTool` and
/// `Auto`, a nested object under a `function` key for `Function`.
pub proof fn lemma_tool_choice_shapes(tc: ToolChoice)
    ensures
        tc is NoTool ==> spec_tool_choice_json(tc) == Json::Str("none"@),
        tc is Auto ==> spec_tool_choice_json(tc) == Json::Str("auto"@),
        tc matches ToolChoice::Function { name } ==> spec_tool_choice_json(tc) == Json::Obj(
            seq![
                ("type"@, Json::Str("function"@)),
                ("function"@, Json::Obj(seq![("name"@, Json::Str(name@))])),
            ],
        ),
{
}

/// A System or User message whose participant name is absent — as a
/// message built with an empty name argument is — serializes without
/// a `name` member at all.
pub proof fn lemma_empty_name_omitted(m: ChatCompletionMessage)
    requires
        (m matches ChatCompletionMessage::System(sm) && sm.name is None) || (m
            matches ChatCompletionMessage::User(um) && um.name is None),
    ensures
        spec_message_json(m) matches Json::Obj(es) && forall|i: int|
            0 <= i < es.len() ==> #[trigger] es[i].0 != "name"@,
{
    reveal_strlit("role");
    reveal_strlit("content");
    reveal_strlit("name");
    assert("role"@[0] != "name"@[0]);
    assert("role"@ != "name"@);
    assert("content"@.len() == 7);
    assert("name"@.len() == 4);
    assert("content"@ != "name"@);
    match m {
        ChatCompletionMessage::System(sm) => {
            assert(spec_message_json(m)->Obj_0 =~= seq![
                ("role"@, Json::Str("system"@)),
                ("content"@, Json::Str(sm.content@)),
            ]);
        },
        ChatCompletionMessage::User(um) => {
            assert(spec_message_json(m)->Obj_0 =~= seq![
                ("role"@, Json::Str("user"@)),
                ("content"@, Json::Str(um.content@)),
            ]);
        },
        _ => {
        },
    }
}

} // verus!
