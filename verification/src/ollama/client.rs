//! Messages, tool definitions and errors exchanged with the model service.
//!
//! The HTTP exchange itself lives in the application; this module holds the
//! values that are sent and received.
use vstd::prelude::*;

use crate::json::{json_quoted, quote_json};
use crate::text::push_str;

verus! {

/// A chat message.
#[derive(Debug)]
pub struct Message {
    /// `user`, `assistant` or `system`.
    pub role: String,
    /// The text of the message.
    pub content: String,
    /// Tool calls that the model asked for, if any.
    pub tool_calls: Option<Vec<ToolCall>>,
}

impl Message {
    /// A message from the user.
    pub fn user(content: &str) -> (m: Self)
        ensures
            m.role@ == "user"@,
            m.content@ == content@,
            m.tool_calls is None,
    {
        Message { role: String::from_str("user"), content: String::from_str(content), tool_calls: None }
    }

    /// A message from the assistant.
    pub fn assistant(content: &str) -> (m: Self)
        ensures
            m.role@ == "assistant"@,
            m.content@ == content@,
            m.tool_calls is None,
    {
        Message {
            role: String::from_str("assistant"),
            content: String::from_str(content),
            tool_calls: None,
        }
    }

    /// A system message.
    pub fn system(content: &str) -> (m: Self)
        ensures
            m.role@ == "system"@,
            m.content@ == content@,
            m.tool_calls is None,
    {
        Message { role: String::from_str("system"), content: String::from_str(content), tool_calls: None }
    }
}

/// A reply of the chat endpoint.
#[derive(Debug)]
pub struct ChatResponse {
    /// The model that answered.
    pub model: String,
    /// When the reply was made.
    pub created_at: String,
    /// The reply message.
    pub message: Message,
    /// Whether the reply is complete.
    pub done: bool,
    /// Total duration in nanoseconds.
    pub total_duration: Option<u64>,
    /// Load duration in nanoseconds.
    pub load_duration: Option<u64>,
    /// Prompt tokens evaluated.
    pub prompt_eval_count: Option<i32>,
    /// Tokens generated.
    pub eval_count: Option<i32>,
    /// Tool calls at the top level of the reply, if any.
    pub tool_calls: Option<Vec<ToolCall>>,
}

/// A tool that the model may call.
#[derive(Debug)]
pub struct Tool {
    /// Always `function`.
    pub tool_type: String,
    /// The function's definition.
    pub function: FunctionDefinition,
}

/// The definition of a callable function.
#[derive(Debug)]
pub struct FunctionDefinition {
    /// Its name.
    pub name: String,
    /// What it does.
    pub description: String,
    /// Its parameters.
    pub parameters: ToolParameters,
}

/// One declared parameter.
#[derive(Debug)]
pub struct ToolProperty {
    /// `string` or `integer`.
    pub param_type: String,
    /// What the parameter means.
    pub description: String,
}

/// The parameters of a tool, in the shape of a JSON schema object.
///
/// `properties` maps each parameter's name to its declaration; no name occurs
/// twice in it.
#[derive(Debug)]
pub struct ToolParameters {
    /// Always `object`.
    pub param_type: String,
    /// The declared parameters, by name.
    pub properties: Vec<(String, ToolProperty)>,
    /// The names of the required parameters.
    pub required: Vec<String>,
}

/// A property as plain text: its name, type and description.
pub open spec fn property_view(e: (String, ToolProperty)) -> (Seq<char>, Seq<char>, Seq<char>) {
    (e.0@, e.1.param_type@, e.1.description@)
}

/// The names in a sequence of strings.
pub open spec fn names_view(v: Seq<String>) -> Seq<Seq<char>> {
    v.map_values(|s: String| s@)
}

impl ToolParameters {
    /// The declared parameters as plain text, in order.
    pub open spec fn props(&self) -> Seq<(Seq<char>, Seq<char>, Seq<char>)> {
        self.properties@.map_values(|e: (String, ToolProperty)| property_view(e))
    }

    /// The names of the declared parameters, in order.
    pub open spec fn prop_names(&self) -> Seq<Seq<char>> {
        self.props().map_values(|p: (Seq<char>, Seq<char>, Seq<char>)| p.0)
    }

    /// The required names as plain text.
    pub open spec fn required_names(&self) -> Seq<Seq<char>> {
        names_view(self.required@)
    }

    /// No parameter is declared twice and no name is required twice.
    pub open spec fn wf(&self) -> bool {
        &&& self.prop_names().no_duplicates()
        &&& self.required_names().no_duplicates()
        &&& self.param_type@ == "object"@
    }

    /// An empty parameter object.
    pub fn new() -> (p: Self)
        ensures
            p.wf(),
            p.props().len() == 0,
            p.required@.len() == 0,
    {
        let p = ToolParameters {
            param_type: String::from_str("object"),
            properties: Vec::new(),
            required: Vec::new(),
        };
        assert(p.prop_names() =~= Seq::<Seq<char>>::empty());
        assert(p.required_names() =~= Seq::<Seq<char>>::empty());
        p
    }

    /// Declares (or redeclares) a parameter of the given type and makes it
    /// required.
    fn add_prop(&mut self, name: &str, kind: &str, description: &str, required: bool)
        requires
            old(self).wf(),
        ensures
            final(self).wf(),
            final(self).props() == put_property(old(self).props(), (name@, kind@, description@)),
            final(self).required_names() == if required {
                require_name(old(self).required_names(), name@)
            } else {
                old(self).required_names()
            },
            final(self).param_type@ == old(self).param_type@,
            final(self).prop_names().contains(name@),
    {
        let ghost old_props = self.props();
        let prop = ToolProperty {
            param_type: String::from_str(kind),
            description: String::from_str(description),
        };
        let key = String::from_str(name);
        let ghost entry = (name@, kind@, description@);
        let mut i: usize = 0;
        let mut found = false;
        while i < self.properties.len() && !found
            invariant
                i <= self.properties.len(),
                self.properties@ == old(self).properties@,
                old_props == old(self).props(),
                key@ == name@,
                found ==> i < self.properties.len() && old_props[i as int].0 == name@,
                forall|j: int| 0 <= j < i ==> old_props[j].0 != name@,
            decreases self.properties.len() - i + (if found { 0int } else { 1int }),
        {
            assert(old_props[i as int] == property_view(self.properties@[i as int]));
            if self.properties[i].0 == key {
                found = true;
            } else {
                i = i + 1;
            }
        }
        if found {
            let ghost old_names = self.prop_names();
            self.properties.set(i, (key, prop));
            assert(self.props() =~= old_props.update(i as int, entry));
            assert(self.prop_names() =~= old_names.update(i as int, name@));
            assert(old_names[i as int] == old_props[i as int].0);
            assert(self.prop_names() =~= old_names);
            assert(self.prop_names()[i as int] == name@);
            proof {
                assert forall|a: int, b: int|
                    0 <= a < old_props.len() && 0 <= b < old_props.len() && a != b
                    implies old_props[a].0 != old_props[b].0 by {
                    assert(old_names[a] == old_props[a].0);
                    assert(old_names[b] == old_props[b].0);
                }
                lemma_put_property_found(old_props, entry, i as int);
            }
        } else {
            let ghost old_names = self.prop_names();
            self.properties.push((key, prop));
            assert(self.props() =~= old_props.push(entry));
            assert(self.prop_names() =~= old_names.push(name@));
            assert(forall|j: int| 0 <= j < old_names.len() ==> old_names[j] == old_props[j].0);
            assert(self.prop_names()[old_names.len() as int] == name@);
            proof {
                lemma_put_property_absent(old_props, entry);
            }
        }
        if !required {
            return;
        }
        let ghost old_req = self.required_names();
        let key2 = String::from_str(name);
        let mut k: usize = 0;
        let mut present = false;
        while k < self.required.len() && !present
            invariant
                k <= self.required.len(),
                old_req == self.required_names(),
                key2@ == name@,
                present ==> k < self.required.len() && old_req[k as int] == name@,
                forall|j: int| 0 <= j < k ==> old_req[j] != name@,
            decreases self.required.len() - k + (if present { 0int } else { 1int }),
        {
            assert(old_req[k as int] == self.required@[k as int]@);
            if self.required[k] == key2 {
                present = true;
            } else {
                k = k + 1;
            }
        }
        if !present {
            self.required.push(key2);
            assert(self.required_names() =~= old_req.push(name@));
            assert(!old_req.contains(name@));
        } else {
            assert(old_req.contains(name@)) by {
                assert(old_req[k as int] == name@);
            }
        }
    }

    /// Declares a required string parameter.
    pub fn add_string_prop(&mut self, name: &str, description: &str)
        requires
            old(self).wf(),
        ensures
            final(self).wf(),
            final(self).props() == put_property(old(self).props(), (name@, "string"@, description@)),
            final(self).required_names() == require_name(old(self).required_names(), name@),
            final(self).param_type@ == old(self).param_type@,
            final(self).prop_names().contains(name@),
    {
        self.add_prop(name, "string", description, true);
    }

    /// Declares a required integer parameter.
    pub fn add_integer_prop(&mut self, name: &str, description: &str)
        requires
            old(self).wf(),
        ensures
            final(self).wf(),
            final(self).props() == put_property(old(self).props(), (name@, "integer"@, description@)),
            final(self).required_names() == require_name(old(self).required_names(), name@),
            final(self).param_type@ == old(self).param_type@,
            final(self).prop_names().contains(name@),
    {
        self.add_prop(name, "integer", description, true);
    }
    /// Declares an optional string parameter (not required).
    pub fn add_optional_string_prop(&mut self, name: &str, description: &str)
        requires
            old(self).wf(),
        ensures
            final(self).wf(),
            final(self).props() == put_property(old(self).props(), (name@, "string"@, description@)),
            final(self).required_names() == old(self).required_names(),
            final(self).param_type@ == old(self).param_type@,
            final(self).prop_names().contains(name@),
    {
        self.add_prop(name, "string", description, false);
    }

    /// Declares an optional integer parameter (not required).
    pub fn add_optional_integer_prop(&mut self, name: &str, description: &str)
        requires
            old(self).wf(),
        ensures
            final(self).wf(),
            final(self).props() == put_property(old(self).props(), (name@, "integer"@, description@)),
            final(self).required_names() == old(self).required_names(),
            final(self).param_type@ == old(self).param_type@,
            final(self).prop_names().contains(name@),
    {
        self.add_prop(name, "integer", description, false);
    }

}

/// A property list with the description of `name` replaced.
pub open spec fn describe_property(
    props: Seq<(Seq<char>, Seq<char>, Seq<char>)>,
    name: Seq<char>,
    description: Seq<char>,
) -> Seq<(Seq<char>, Seq<char>, Seq<char>)> {
    props.map_values(
        |e: (Seq<char>, Seq<char>, Seq<char>)|
            if e.0 == name {
                (e.0, e.1, description)
            } else {
                e
            },
    )
}

impl ToolParameters {
    /// Replaces the description of the declared parameter `name`.
    pub fn set_description(&mut self, name: &str, description: &str)
        requires
            old(self).wf(),
            old(self).prop_names().contains(name@),
        ensures
            final(self).wf(),
            final(self).props() == describe_property(old(self).props(), name@, description@),
            final(self).required@ == old(self).required@,
            final(self).param_type@ == old(self).param_type@,
    {
        let ghost old_props = self.props();
        let ghost old_names = self.prop_names();
        let key = String::from_str(name);
        let mut i: usize = 0;
        while i < self.properties.len()
            invariant
                i <= self.properties.len(),
                key@ == name@,
                self.required@ == old(self).required@,
                self.param_type@ == old(self).param_type@,
                self.properties@.len() == old(self).properties@.len(),
                old_props == old(self).props(),
                old_props.len() == self.properties@.len(),
                forall|j: int|
                    0 <= j < self.properties@.len() ==> #[trigger] property_view(self.properties@[j])
                        == if j < i {
                        describe_property(old_props, name@, description@)[j]
                    } else {
                        old_props[j]
                    },
            decreases self.properties.len() - i,
        {
            assert(property_view(self.properties@[i as int]) == old_props[i as int]);
            if self.properties[i].0 == key {
                let prop = ToolProperty {
                    param_type: self.properties[i].1.param_type.clone(),
                    description: String::from_str(description),
                };
                let k = self.properties[i].0.clone();
                self.properties.set(i, (k, prop));
            }
            i = i + 1;
        }
        assert(self.props() =~= describe_property(old_props, name@, description@));
        assert(self.prop_names() =~= old_names);
    }
}

impl Default for ToolParameters {
    fn default() -> (p: Self)
        ensures
            p.wf(),
            p.props().len() == 0,
            p.required@.len() == 0,
    {
        Self::new()
    }
}

/// A declaration put into a property list: it replaces the entry of the same
/// name, or is appended when there is none.
pub open spec fn put_property(
    props: Seq<(Seq<char>, Seq<char>, Seq<char>)>,
    entry: (Seq<char>, Seq<char>, Seq<char>),
) -> Seq<(Seq<char>, Seq<char>, Seq<char>)> {
    if exists|i: int| 0 <= i < props.len() && props[i].0 == entry.0 {
        props.update(choose|i: int| 0 <= i < props.len() && props[i].0 == entry.0, entry)
    } else {
        props.push(entry)
    }
}

/// A name made required: appended unless it already is.
pub open spec fn require_name(names: Seq<Seq<char>>, name: Seq<char>) -> Seq<Seq<char>> {
    if names.contains(name) {
        names
    } else {
        names.push(name)
    }
}

proof fn lemma_put_property_found(
    props: Seq<(Seq<char>, Seq<char>, Seq<char>)>,
    entry: (Seq<char>, Seq<char>, Seq<char>),
    i: int,
)
    requires
        0 <= i < props.len(),
        props[i].0 == entry.0,
        forall|a: int, b: int|
            0 <= a < props.len() && 0 <= b < props.len() && a != b ==> props[a].0 != props[b].0,
    ensures
        put_property(props, entry) == props.update(i, entry),
{
    let c = choose|j: int| 0 <= j < props.len() && props[j].0 == entry.0;
    assert(0 <= c < props.len() && props[c].0 == entry.0);
    assert(c == i);
}

pub proof fn lemma_put_property_absent(
    props: Seq<(Seq<char>, Seq<char>, Seq<char>)>,
    entry: (Seq<char>, Seq<char>, Seq<char>),
)
    requires
        forall|j: int| 0 <= j < props.len() ==> props[j].0 != entry.0,
    ensures
        put_property(props, entry) == props.push(entry),
{
}

impl Tool {
    /// A function tool with the given name, description and parameters.
    pub fn new(name: &str, description: &str, parameters: ToolParameters) -> (t: Self)
        ensures
            t.tool_type@ == "function"@,
            t.function.name@ == name@,
            t.function.description@ == description@,
            t.function.parameters == parameters,
    {
        Tool {
            tool_type: String::from_str("function"),
            function: FunctionDefinition {
                name: String::from_str(name),
                description: String::from_str(description),
                parameters,
            },
        }
    }
}

/// A call of a tool by the model.
#[derive(Debug)]
pub struct ToolCall {
    /// The function called.
    pub function: ToolCallFunction,
}

/// The function part of a tool call.
#[derive(Debug)]
pub struct ToolCallFunction {
    /// The function's name.
    pub name: String,
    /// Its arguments, as JSON text.
    pub arguments: String,
}

/// The answer to a tool call.
#[derive(Debug)]
pub struct ToolMessage {
    /// Always `tool`.
    pub role: String,
    /// The tool's result.
    pub content: String,
    /// The call answered.
    pub tool_call_id: String,
}

impl ToolMessage {
    /// The answer to call `tool_call_id`.
    pub fn new(tool_call_id: &str, content: &str) -> (m: Self)
        ensures
            m.role@ == "tool"@,
            m.content@ == content@,
            m.tool_call_id@ == tool_call_id@,
    {
        ToolMessage {
            role: String::from_str("tool"),
            content: String::from_str(content),
            tool_call_id: String::from_str(tool_call_id),
        }
    }

    /// The message as compact JSON, its fields in order.
    pub fn to_json(&self) -> (s: String)
        ensures
            s@ == tool_message_json(self.role@, self.content@, self.tool_call_id@),
    {
        let mut s = String::from_str("{\"role\":");
        push_str(&mut s, quote_json(self.role.as_str()).as_str());
        push_str(&mut s, ",\"content\":");
        push_str(&mut s, quote_json(self.content.as_str()).as_str());
        push_str(&mut s, ",\"tool_call_id\":");
        push_str(&mut s, quote_json(self.tool_call_id.as_str()).as_str());
        push_str(&mut s, "}");
        s
    }
}

/// A tool message as compact JSON: role, content and call identifier, each
/// a JSON string.
pub open spec fn tool_message_json(role: Seq<char>, content: Seq<char>, id: Seq<char>) -> Seq<char> {
    "{\"role\":"@ + json_quoted(role) + ",\"content\":"@ + json_quoted(content)
        + ",\"tool_call_id\":"@ + json_quoted(id) + "}"@
}

/// Errors of the chat exchange, each carrying the text it displays.
#[derive(Debug)]
pub enum OllamaError {
    /// The request failed (the transport's own message).
    RequestError(String),
    /// The service answered with an error status.
    ApiError {
        /// The status as displayed (code and reason).
        status: String,
        /// The body of the answer.
        message: String,
    },
    /// The answer was no valid JSON (the parser's message).
    JsonError(String),
    /// Any other failure.
    Other(String),
}

impl OllamaError {
    /// The text that the error displays.
    pub open spec fn message_spec(&self) -> Seq<char> {
        match self {
            OllamaError::RequestError(e) => "請求錯誤: "@ + e@,
            OllamaError::ApiError { status, message } => "API 錯誤 ("@ + status@ + "): "@
                + message@,
            OllamaError::JsonError(e) => "JSON 解析錯誤: "@ + e@,
            OllamaError::Other(m) => "錯誤: "@ + m@,
        }
    }

    /// The text that the error displays.
    pub fn message(&self) -> (s: String)
        ensures
            s@ == self.message_spec(),
    {
        let mut s = String::new();
        match self {
            OllamaError::RequestError(e) => {
                push_str(&mut s, "請求錯誤: ");
                push_str(&mut s, e.as_str());
            },
            OllamaError::ApiError { status, message } => {
                push_str(&mut s, "API 錯誤 (");
                push_str(&mut s, status.as_str());
                push_str(&mut s, "): ");
                push_str(&mut s, message.as_str());
            },
            OllamaError::JsonError(e) => {
                push_str(&mut s, "JSON 解析錯誤: ");
                push_str(&mut s, e.as_str());
            },
            OllamaError::Other(m) => {
                push_str(&mut s, "錯誤: ");
                push_str(&mut s, m.as_str());
            },
        }
        s
    }
}

impl View for ToolProperty {
    type V = (Seq<char>, Seq<char>);

    open spec fn view(&self) -> (Seq<char>, Seq<char>) {
        (self.param_type@, self.description@)
    }
}

impl Clone for ToolProperty {
    fn clone(&self) -> (r: Self)
        ensures
            r@ == self@,
    {
        ToolProperty { param_type: self.param_type.clone(), description: self.description.clone() }
    }
}

impl View for ToolParameters {
    type V = (Seq<char>, Seq<(Seq<char>, Seq<char>, Seq<char>)>, Seq<Seq<char>>);

    open spec fn view(&self) -> (Seq<char>, Seq<(Seq<char>, Seq<char>, Seq<char>)>, Seq<Seq<char>>) {
        (self.param_type@, self.props(), self.required_names())
    }
}

/// Copies a list of strings.
pub fn clone_strings(v: &Vec<String>) -> (r: Vec<String>)
    ensures
        names_view(r@) == names_view(v@),
{
    let mut r: Vec<String> = Vec::new();
    let mut i: usize = 0;
    while i < v.len()
        invariant
            i <= v.len(),
            r@.len() == i,
            forall|j: int| 0 <= j < i ==> r@[j]@ == v@[j]@,
        decreases v.len() - i,
    {
        r.push(v[i].clone());
        i = i + 1;
    }
    assert(names_view(r@) =~= names_view(v@));
    r
}

impl Clone for ToolParameters {
    fn clone(&self) -> (r: Self)
        ensures
            r@ == self@,
    {
        let mut props: Vec<(String, ToolProperty)> = Vec::new();
        let mut i: usize = 0;
        while i < self.properties.len()
            invariant
                i <= self.properties.len(),
                props@.len() == i,
                forall|j: int|
                    0 <= j < i ==> property_view(#[trigger] props@[j]) == property_view(
                        self.properties@[j],
                    ),
            decreases self.properties.len() - i,
        {
            let e = (self.properties[i].0.clone(), self.properties[i].1.clone());
            props.push(e);
            i = i + 1;
        }
        let r = ToolParameters {
            param_type: self.param_type.clone(),
            properties: props,
            required: clone_strings(&self.required),
        };
        assert(r.props() =~= self.props());
        r
    }
}

impl View for FunctionDefinition {
    type V = (Seq<char>, Seq<char>, <ToolParameters as View>::V);

    open spec fn view(&self) -> Self::V {
        (self.name@, self.description@, self.parameters@)
    }
}

impl Clone for FunctionDefinition {
    fn clone(&self) -> (r: Self)
        ensures
            r@ == self@,
    {
        FunctionDefinition {
            name: self.name.clone(),
            description: self.description.clone(),
            parameters: self.parameters.clone(),
        }
    }
}

impl View for Tool {
    type V = (Seq<char>, <FunctionDefinition as View>::V);

    open spec fn view(&self) -> Self::V {
        (self.tool_type@, self.function@)
    }
}

impl Clone for Tool {
    fn clone(&self) -> (r: Self)
        ensures
            r@ == self@,
    {
        Tool { tool_type: self.tool_type.clone(), function: self.function.clone() }
    }
}

impl View for ToolCallFunction {
    type V = (Seq<char>, Seq<char>);

    open spec fn view(&self) -> (Seq<char>, Seq<char>) {
        (self.name@, self.arguments@)
    }
}

impl Clone for ToolCallFunction {
    fn clone(&self) -> (r: Self)
        ensures
            r@ == self@,
    {
        ToolCallFunction { name: self.name.clone(), arguments: self.arguments.clone() }
    }
}

impl View for ToolCall {
    type V = (Seq<char>, Seq<char>);

    open spec fn view(&self) -> (Seq<char>, Seq<char>) {
        self.function@
    }
}

impl Clone for ToolCall {
    fn clone(&self) -> (r: Self)
        ensures
            r@ == self@,
    {
        ToolCall { function: self.function.clone() }
    }
}

/// Copies a list of tool calls.
pub fn clone_tool_calls(v: &Vec<ToolCall>) -> (r: Vec<ToolCall>)
    ensures
        r@.map_values(|c: ToolCall| c@) == v@.map_values(|c: ToolCall| c@),
{
    let mut r: Vec<ToolCall> = Vec::new();
    let mut i: usize = 0;
    while i < v.len()
        invariant
            i <= v.len(),
            r@.len() == i,
            forall|j: int| 0 <= j < i ==> r@[j]@ == v@[j]@,
        decreases v.len() - i,
    {
        r.push(v[i].clone());
        i = i + 1;
    }
    assert(r@.map_values(|c: ToolCall| c@) =~= v@.map_values(|c: ToolCall| c@));
    r
}

impl View for Message {
    type V = (Seq<char>, Seq<char>, Option<Seq<(Seq<char>, Seq<char>)>>);

    open spec fn view(&self) -> Self::V {
        (
            self.role@,
            self.content@,
            match self.tool_calls {
                Some(v) => Some(v@.map_values(|c: ToolCall| c@)),
                None => None,
            },
        )
    }
}

impl Clone for Message {
    fn clone(&self) -> (r: Self)
        ensures
            r@ == self@,
    {
        let tool_calls = match &self.tool_calls {
            Some(v) => Some(clone_tool_calls(v)),
            None => None,
        };
        Message { role: self.role.clone(), content: self.content.clone(), tool_calls }
    }
}

/// The model a chat client talks to; the application sends the requests.
#[derive(Debug, Clone)]
pub struct OllamaClient {
    /// The model's name.
    pub model: String,
}

impl OllamaClient {
    /// A client of a model.
    pub fn new(model: &str) -> (c: Self)
        ensures
            c.model@ == model@,
    {
        OllamaClient { model: String::from_str(model) }
    }

    /// The client with another model.
    pub fn with_model(self, model: &str) -> (c: Self)
        ensures
            c.model@ == model@,
    {
        let mut c = self;
        c.model = String::from_str(model);
        c
    }
}

impl Default for OllamaClient {
    fn default() -> (c: Self)
        ensures
            c.model@ == "gemma4:e2b"@,
    {
        OllamaClient::new("gemma4:e2b")
    }
}

} // verus!

