//! The tool registry: the fixed catalog of tools, built once and only read
//! afterwards. It is the single place that says which tools exist.

use vstd::prelude::*;
use crate::json::{
    Json, JsonNumber, json_of, json_items, object_insert, value_array, value_empty_object,
    value_integer, value_text,
};
use crate::mcp::types::{Tool, ToolView, tool_views};
use crate::text::str_eq;

verus! {

/// The schema of a string parameter.
pub open spec fn text_property(description: Seq<char>) -> Json {
    Json::Object(
        Map::empty().insert("type"@, Json::Text("string"@)).insert(
            "description"@,
            Json::Text(description),
        ),
    )
}

/// The schema of a boolean parameter.
pub open spec fn flag_property(description: Seq<char>) -> Json {
    Json::Object(
        Map::empty().insert("type"@, Json::Text("boolean"@)).insert(
            "description"@,
            Json::Text(description),
        ),
    )
}

/// The schema of an integer parameter that has a default.
pub open spec fn count_property(description: Seq<char>, default: int) -> Json {
    Json::Object(
        Map::empty().insert("type"@, Json::Text("integer"@)).insert(
            "description"@,
            Json::Text(description),
        ).insert("default"@, Json::Number(JsonNumber::Integer(default))),
    )
}

/// The schema of a parameter that is a list of strings.
pub open spec fn text_list_property(description: Seq<char>) -> Json {
    Json::Object(
        Map::empty().insert("type"@, Json::Text("array"@)).insert(
            "items"@,
            Json::Object(Map::empty().insert("type"@, Json::Text("string"@))),
        ).insert("description"@, Json::Text(description)),
    )
}

/// The schema of a tool whose parameters are all optional.
pub open spec fn object_schema(properties: Map<Seq<char>, Json>) -> Json {
    Json::Object(
        Map::empty().insert("type"@, Json::Text("object"@)).insert(
            "properties"@,
            Json::Object(properties),
        ),
    )
}

/// The schema of a tool with one required parameter.
pub open spec fn object_schema_requiring(
    properties: Map<Seq<char>, Json>,
    required: Seq<char>,
) -> Json {
    Json::Object(
        Map::empty().insert("type"@, Json::Text("object"@)).insert(
            "properties"@,
            Json::Object(properties),
        ).insert("required"@, Json::Array(seq![Json::Text(required)])),
    )
}

/// The tools that the server offers, in the order in which it lists them.
pub open spec fn catalog() -> Seq<ToolView> {
    seq![
        ToolView {
            name: "p4_status"@,
            description: "Get Perforce workspace status"@,
            input_schema: object_schema(
                Map::empty().insert("path"@, text_property("Optional path to check status for"@)),
            ),
        },
        ToolView {
            name: "p4_sync"@,
            description: "Sync files from Perforce depot"@,
            input_schema: object_schema(
                Map::empty().insert(
                    "path"@,
                    text_property("Path to sync (e.g., //depot/main/...)"@),
                ).insert("force"@, flag_property("Force sync (overwrite local changes)"@)),
            ),
        },
        ToolView {
            name: "p4_edit"@,
            description: "Open file(s) for edit in Perforce"@,
            input_schema: object_schema_requiring(
                Map::empty().insert("files"@, text_list_property("Files to open for edit"@)),
                "files"@,
            ),
        },
        ToolView {
            name: "p4_add"@,
            description: "Add new file(s) to Perforce"@,
            input_schema: object_schema_requiring(
                Map::empty().insert("files"@, text_list_property("Files to add"@)),
                "files"@,
            ),
        },
        ToolView {
            name: "p4_submit"@,
            description: "Submit changes to Perforce"@,
            input_schema: object_schema_requiring(
                Map::empty().insert("description"@, text_property("Change description"@)).insert(
                    "files"@,
                    text_list_property("Optional specific files to submit"@),
                ),
                "description"@,
            ),
        },
        ToolView {
            name: "p4_revert"@,
            description: "Revert files in Perforce"@,
            input_schema: object_schema_requiring(
                Map::empty().insert("files"@, text_list_property("Files to revert"@)),
                "files"@,
            ),
        },
        ToolView {
            name: "p4_opened"@,
            description: "List files opened for edit"@,
            input_schema: object_schema(
                Map::empty().insert("changelist"@, text_property("Optional changelist number"@)),
            ),
        },
        ToolView {
            name: "p4_changes"@,
            description: "List recent changes"@,
            input_schema: object_schema(
                Map::empty().insert(
                    "max"@,
                    count_property("Maximum number of changes to return"@, 10),
                ).insert("path"@, text_property("Optional path to filter changes"@)),
            ),
        },
    ]
}

/// Whether a list of tools has one of the given name.
pub open spec fn has_tool(tools: Seq<ToolView>, name: Seq<char>) -> bool {
    exists|i: int| 0 <= i < tools.len() && (#[trigger] tools[i]).name == name
}

/// Whether the server offers a tool of the given name.
pub open spec fn is_registered(name: Seq<char>) -> bool {
    has_tool(catalog(), name)
}

fn text_property_value(description: &str) -> (r: serde_json::Value)
    ensures
        json_of(r) == text_property(description@),
{
    let mut r = value_empty_object();
    object_insert(&mut r, "type", value_text("string"));
    object_insert(&mut r, "description", value_text(description));
    r
}

fn flag_property_value(description: &str) -> (r: serde_json::Value)
    ensures
        json_of(r) == flag_property(description@),
{
    let mut r = value_empty_object();
    object_insert(&mut r, "type", value_text("boolean"));
    object_insert(&mut r, "description", value_text(description));
    r
}

fn count_property_value(description: &str, default: i64) -> (r: serde_json::Value)
    ensures
        json_of(r) == count_property(description@, default as int),
{
    let mut r = value_empty_object();
    object_insert(&mut r, "type", value_text("integer"));
    object_insert(&mut r, "description", value_text(description));
    object_insert(&mut r, "default", value_integer(default));
    r
}

fn text_list_property_value(description: &str) -> (r: serde_json::Value)
    ensures
        json_of(r) == text_list_property(description@),
{
    let mut items = value_empty_object();
    object_insert(&mut items, "type", value_text("string"));
    let mut r = value_empty_object();
    object_insert(&mut r, "type", value_text("array"));
    object_insert(&mut r, "items", items);
    object_insert(&mut r, "description", value_text(description));
    r
}

fn object_schema_value(properties: serde_json::Value) -> (r: serde_json::Value)
    requires
        json_of(properties) is Object,
    ensures
        json_of(r) == object_schema(json_of(properties)->Object_0),
{
    let mut r = value_empty_object();
    object_insert(&mut r, "type", value_text("object"));
    object_insert(&mut r, "properties", properties);
    r
}

fn object_schema_requiring_value(properties: serde_json::Value, required: &str) -> (r:
    serde_json::Value)
    requires
        json_of(properties) is Object,
    ensures
        json_of(r) == object_schema_requiring(json_of(properties)->Object_0, required@),
{
    let mut names: Vec<serde_json::Value> = Vec::new();
    names.push(value_text(required));
    assert(json_items(names@) =~= seq![Json::Text(required@)]);
    let mut r = value_empty_object();
    object_insert(&mut r, "type", value_text("object"));
    object_insert(&mut r, "properties", properties);
    object_insert(&mut r, "required", value_array(names));
    r
}

fn tool(name: &str, description: &str, input_schema: serde_json::Value) -> (r: Tool)
    ensures
        r@ == (ToolView {
            name: name@,
            description: description@,
            input_schema: json_of(input_schema),
        }),
{
    Tool { name: name.to_string(), description: description.to_string(), input_schema }
}

/// The read-only table of tools.
pub struct ToolRegistry {
    tools: Vec<Tool>,
}

impl ToolRegistry {
    #[verifier::type_invariant]
    spec fn holds_catalog(self) -> bool {
        tool_views(self.tools@) == catalog()
    }

    /// The descriptors that the registry holds, in order.
    pub closed spec fn view(&self) -> Seq<ToolView> {
        tool_views(self.tools@)
    }

    /// Builds the registry with the eight tools of the catalog.
    pub fn new() -> (r: ToolRegistry)
        ensures
            r@ == catalog(),
    {
        let mut tools: Vec<Tool> = Vec::new();

        let mut properties = value_empty_object();
        object_insert(
            &mut properties,
            "path",
            text_property_value("Optional path to check status for"),
        );
        tools.push(
            tool("p4_status", "Get Perforce workspace status", object_schema_value(properties)),
        );

        let mut properties = value_empty_object();
        object_insert(
            &mut properties,
            "path",
            text_property_value("Path to sync (e.g., //depot/main/...)"),
        );
        object_insert(
            &mut properties,
            "force",
            flag_property_value("Force sync (overwrite local changes)"),
        );
        tools.push(
            tool("p4_sync", "Sync files from Perforce depot", object_schema_value(properties)),
        );

        let mut properties = value_empty_object();
        object_insert(&mut properties, "files", text_list_property_value("Files to open for edit"));
        tools.push(
            tool(
                "p4_edit",
                "Open file(s) for edit in Perforce",
                object_schema_requiring_value(properties, "files"),
            ),
        );

        let mut properties = value_empty_object();
        object_insert(&mut properties, "files", text_list_property_value("Files to add"));
        tools.push(
            tool(
                "p4_add",
                "Add new file(s) to Perforce",
                object_schema_requiring_value(properties, "files"),
            ),
        );

        let mut properties = value_empty_object();
        object_insert(&mut properties, "description", text_property_value("Change description"));
        object_insert(
            &mut properties,
            "files",
            text_list_property_value("Optional specific files to submit"),
        );
        tools.push(
            tool(
                "p4_submit",
                "Submit changes to Perforce",
                object_schema_requiring_value(properties, "description"),
            ),
        );

        let mut properties = value_empty_object();
        object_insert(&mut properties, "files", text_list_property_value("Files to revert"));
        tools.push(
            tool(
                "p4_revert",
                "Revert files in Perforce",
                object_schema_requiring_value(properties, "files"),
            ),
        );

        let mut properties = value_empty_object();
        object_insert(
            &mut properties,
            "changelist",
            text_property_value("Optional changelist number"),
        );
        tools.push(
            tool("p4_opened", "List files opened for edit", object_schema_value(properties)),
        );

        let mut properties = value_empty_object();
        object_insert(
            &mut properties,
            "max",
            count_property_value("Maximum number of changes to return", 10),
        );
        object_insert(
            &mut properties,
            "path",
            text_property_value("Optional path to filter changes"),
        );
        tools.push(tool("p4_changes", "List recent changes", object_schema_value(properties)));

        assert(tool_views(tools@) =~= catalog());
        ToolRegistry { tools }
    }

    /// The descriptors, in the order of the catalog.
    pub fn list(&self) -> (r: Vec<Tool>)
        ensures
            tool_views(r@) == catalog(),
    {
        proof {
            use_type_invariant(self);
        }
        let mut r: Vec<Tool> = Vec::new();
        let mut i: usize = 0;
        while i < self.tools.len()
            invariant
                i <= self.tools.len(),
                r.len() == i,
                tool_views(r@) == tool_views(self.tools@).take(i as int),
            decreases self.tools.len() - i,
        {
            let t = &self.tools[i];
            let ghost before = r@;
            let copy = Tool {
                name: t.name.clone(),
                description: t.description.clone(),
                input_schema: t.input_schema.clone(),
            };
            assert(copy@ == self.tools@[i as int]@);
            r.push(copy);
            assert forall|j: int| 0 <= j < i + 1 implies tool_views(r@)[j] == tool_views(
                self.tools@,
            ).take(i + 1)[j] by {
                if j < i {
                    assert(r@[j] == before[j]);
                    assert(tool_views(before)[j] == tool_views(self.tools@).take(i as int)[j]);
                }
            }
            assert(tool_views(r@) =~= tool_views(self.tools@).take(i + 1));
            i += 1;
        }
        assert(tool_views(self.tools@).take(self.tools.len() as int) =~= tool_views(self.tools@));
        r
    }

    /// Whether the registry has a tool of the given name.
    pub fn contains(&self, name: &str) -> (r: bool)
        ensures
            r == is_registered(name@),
    {
        proof {
            use_type_invariant(self);
        }
        let mut i: usize = 0;
        while i < self.tools.len()
            invariant
                i <= self.tools.len(),
                tool_views(self.tools@) == catalog(),
                forall|j: int| 0 <= j < i ==> (#[trigger] catalog()[j]).name != name@,
            decreases self.tools.len() - i,
        {
            if str_eq(self.tools[i].name.as_str(), name) {
                assert(tool_views(self.tools@)[i as int].name == name@);
                return true;
            }
            assert(tool_views(self.tools@)[i as int].name != name@);
            i += 1;
        }
        assert(tool_views(self.tools@).len() == self.tools.len());
        false
    }
}

} // verus!
