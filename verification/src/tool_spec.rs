use vstd::prelude::*;

verus! {

/// The JSON schema of a tool's parameters, as far as these tools use it.
#[derive(Debug)]
pub enum JsonSchema {
    String { description: Option<String> },
    /// An object; its properties ordered by name, as a `BTreeMap` orders them.
    Object {
        properties: Vec<(String, JsonSchema)>,
        required: Option<Vec<String>>,
        additional_properties: Option<bool>,
    },
}

/// A function tool of the Responses API.
#[derive(Debug)]
pub struct ResponsesApiTool {
    pub name: String,
    pub description: String,
    pub strict: bool,
    pub defer_loading: Option<bool>,
    pub parameters: JsonSchema,
    pub output_schema: Option<JsonSchema>,
}

/// A tool offered to the model.
#[derive(Debug)]
pub enum ToolSpec {
    Function(ResponsesApiTool),
}

/// `s` is a string schema with the description `d`.
pub open spec fn is_string_schema(s: JsonSchema, d: Seq<char>) -> bool {
    s matches JsonSchema::String { description: Some(x) } && x@ == d
}

/// `props` are string properties with the given names and descriptions, in
/// order.
pub open spec fn string_properties(
    props: Seq<(String, JsonSchema)>,
    expected: Seq<(Seq<char>, Seq<char>)>,
) -> bool {
    &&& props.len() == expected.len()
    &&& forall|i: int|
        0 <= i < props.len() ==> (#[trigger] props[i]).0@ == expected[i].0 && is_string_schema(
            props[i].1,
            expected[i].1,
        )
}

/// `s` is a closed object schema of string properties with the given names
/// and descriptions, requiring exactly `required`, in that order.
pub open spec fn is_closed_object(
    s: JsonSchema,
    expected: Seq<(Seq<char>, Seq<char>)>,
    required: Seq<Seq<char>>,
) -> bool {
    &&& s is Object
    &&& string_properties(s->properties@, expected)
    &&& s->required matches Some(r) && r@.map_values(|x: String| x@) == required
    &&& s->additional_properties == Some(false)
}

/// `t` is a plain function tool (not strict, loaded eagerly, no output schema)
/// with the given name, description and parameters.
pub open spec fn is_function_tool(
    t: ToolSpec,
    name: Seq<char>,
    description: Seq<char>,
    expected: Seq<(Seq<char>, Seq<char>)>,
    required: Seq<Seq<char>>,
) -> bool {
    match t {
        ToolSpec::Function(f) => {
            &&& f.name@ == name
            &&& f.description@ == description
            &&& !f.strict
            &&& f.defer_loading is None
            &&& f.output_schema is None
            &&& is_closed_object(f.parameters, expected, required)
        },
    }
}

/// A string schema with a description.
pub fn string_schema(description: &str) -> (res: JsonSchema)
    ensures
        is_string_schema(res, description@),
{
    JsonSchema::String { description: Some(description.to_owned()) }
}

} // verus!
