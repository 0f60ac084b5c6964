//! Tool definitions the model may invoke, and the caller's tool-choice
//! directive.

use vstd::prelude::*;

verus! {

/// A tool the model may request: a name, a human description, and a JSON
/// schema for its input.
#[derive(Debug, PartialEq)]
pub struct Tool {
    pub name: String,
    pub description: String,
    pub input_schema: InputSchema,
    pub tool_type: Option<String>,
}

/// The JSON schema of a tool's input.
#[derive(Debug, PartialEq)]
pub struct InputSchema {
    pub schema_type: String,
    pub properties: serde_json::Value,
    pub required: Option<Vec<String>>,
}

/// How the model is allowed to pick tools.
#[derive(Debug, PartialEq)]
pub enum ToolChoice {
    Auto { disable_parallel_tool_use: Option<bool> },
    Any { disable_parallel_tool_use: Option<bool> },
    Tool { name: String, disable_parallel_tool_use: Option<bool> },
    NoTool,
}

/// The model of a tool definition: strings as character sequences, the
/// schema's property object opaque.
pub struct ToolView {
    pub name: Seq<char>,
    pub description: Seq<char>,
    pub schema_type: Seq<char>,
    pub properties: serde_json::Value,
    pub required: Option<Seq<Seq<char>>>,
    pub tool_type: Option<Seq<char>>,
}

pub open spec fn tool_view(t: Tool) -> ToolView {
    ToolView {
        name: t.name@,
        description: t.description@,
        schema_type: t.input_schema.schema_type@,
        properties: t.input_schema.properties,
        required: match t.input_schema.required {
            Some(v) => Some(crate::messages::strings_view(v@)),
            None => None,
        },
        tool_type: match t.tool_type {
            Some(s) => Some(s@),
            None => None,
        },
    }
}

pub open spec fn tools_view(s: Seq<Tool>) -> Seq<ToolView> {
    Seq::new(s.len(), |i: int| tool_view(s[i]))
}

impl Tool {
    /// Build a tool with an object-typed input schema and the given required
    /// property names.
    pub fn new(name: &str, description: &str, properties: serde_json::Value, required: Vec<
        String,
    >) -> (r: Tool)
        ensures
            tool_view(r) == (ToolView {
                name: name@,
                description: description@,
                schema_type: "object"@,
                properties: properties,
                required: Some(crate::messages::strings_view(required@)),
                tool_type: Some("custom"@),
            }),
    {
        Tool {
            name: name.to_owned(),
            description: description.to_owned(),
            input_schema: InputSchema {
                schema_type: "object".to_owned(),
                properties,
                required: Some(required),
            },
            tool_type: Some("custom".to_owned()),
        }
    }
}

impl Default for ToolChoice {
    /// The default directive: the model decides, parallel use allowed.
    fn default() -> (r: Self)
        ensures
            r == (ToolChoice::Auto { disable_parallel_tool_use: None::<bool> }),
    {
        ToolChoice::Auto { disable_parallel_tool_use: None }
    }
}

impl Clone for ToolChoice {
    fn clone(&self) -> (r: Self)
        ensures
            r == *self,
    {
        match self {
            ToolChoice::Auto { disable_parallel_tool_use } => ToolChoice::Auto {
                disable_parallel_tool_use: *disable_parallel_tool_use,
            },
            ToolChoice::Any { disable_parallel_tool_use } => ToolChoice::Any {
                disable_parallel_tool_use: *disable_parallel_tool_use,
            },
            ToolChoice::Tool { name, disable_parallel_tool_use } => ToolChoice::Tool {
                name: name.clone(),
                disable_parallel_tool_use: *disable_parallel_tool_use,
            },
            ToolChoice::NoTool => ToolChoice::NoTool,
        }
    }
}

impl Clone for InputSchema {
    fn clone(&self) -> (r: Self)
        ensures
            r.schema_type@ == self.schema_type@,
            r.properties == self.properties,
            match (r.required, self.required) {
                (Some(a), Some(b)) => a@ == b@,
                (None, None) => true,
                _ => false,
            },
    {
        InputSchema {
            schema_type: self.schema_type.clone(),
            properties: self.properties.clone(),
            required: clone_opt_strings(&self.required),
        }
    }
}

impl Clone for Tool {
    fn clone(&self) -> (r: Self)
        ensures
            tool_view(r) == tool_view(*self),
    {
        Tool {
            name: self.name.clone(),
            description: self.description.clone(),
            input_schema: self.input_schema.clone(),
            tool_type: self.tool_type.clone(),
        }
    }
}

/// Clone an optional list of strings, keeping every element's value.
fn clone_opt_strings(v: &Option<Vec<String>>) -> (r: Option<Vec<String>>)
    ensures
        match (r, v) {
            (Some(a), Some(b)) => a@ == b@,
            (None, None) => true,
            _ => false,
        },
{
    match v {
        Option::None => Option::None,
        Option::Some(inner) => {
            let c = inner.clone();
            proof {
                assert(c@ =~= inner@);
            }
            Option::Some(c)
        },
    }
}

/// Clone a vector of tools, keeping every tool's view.
pub(crate) fn clone_tools(v: &Vec<Tool>) -> (r: Vec<Tool>)
    ensures
        tools_view(r@) == tools_view(v@),
{
    let mut r: Vec<Tool> = Vec::new();
    let mut i: usize = 0;
    while i < v.len()
        invariant
            i <= v.len(),
            r@.len() == i,
            forall|k: int| 0 <= k < i ==> tool_view(r@[k]) == tool_view(v@[k]),
        decreases v.len() - i,
    {
        r.push(v[i].clone());
        i = i + 1;
    }
    proof {
        assert(tools_view(r@) =~= tools_view(v@));
    }
    r
}

} // verus!
