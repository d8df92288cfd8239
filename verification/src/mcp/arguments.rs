//! From a tool's argument bag to a command.
//!
//! Each parameter is read from the bag with a typed accessor. A parameter
//! that is missing, or that has another type than the one asked for, counts
//! as absent and takes its default; nothing is rejected here.

use vstd::prelude::*;
use crate::json::{
    Json, JsonNumber, json_items, json_member, json_of, value_as_array, value_as_bool,
    value_as_str, value_as_u64, value_get,
};
use crate::mcp::registry::{catalog, is_registered};
use crate::p4::commands::{CommandView, P4Command, optional_text, optional_texts};
use crate::text::{str_eq, texts};

verus! {

/// The text under a key of the bag, if a string is there.
pub open spec fn text_argument(arguments: Json, key: Seq<char>) -> Option<Seq<char>> {
    match json_member(arguments, key) {
        Some(Json::Text(text)) => Some(text),
        _ => None,
    }
}

/// The flag under a key of the bag, if a boolean is there.
pub open spec fn flag_argument(arguments: Json, key: Seq<char>) -> Option<bool> {
    match json_member(arguments, key) {
        Some(Json::Bool(flag)) => Some(flag),
        _ => None,
    }
}

/// The count under a key of the bag, if a whole number of zero or more that
/// fits 64 bits is there.
pub open spec fn count_argument(arguments: Json, key: Seq<char>) -> Option<u64> {
    match json_member(arguments, key) {
        Some(Json::Number(JsonNumber::Integer(n))) => if 0 <= n <= u64::MAX {
            Some(n as u64)
        } else {
            None
        },
        _ => None,
    }
}

/// The strings among the items of an array, in order; items of other types
/// are passed over.
pub open spec fn texts_in(items: Seq<Json>) -> Seq<Seq<char>>
    decreases items.len(),
{
    if items.len() == 0 {
        Seq::empty()
    } else {
        match items.last() {
            Json::Text(text) => texts_in(items.drop_last()).push(text),
            _ => texts_in(items.drop_last()),
        }
    }
}

/// The strings of the array under a key of the bag, if an array is there.
pub open spec fn list_argument(arguments: Json, key: Seq<char>) -> Option<Seq<Seq<char>>> {
    match json_member(arguments, key) {
        Some(Json::Array(items)) => Some(texts_in(items)),
        _ => None,
    }
}

/// The value of an optional parameter, or its default.
pub open spec fn or_default<T>(value: Option<T>, default: T) -> T {
    match value {
        Some(given) => given,
        None => default,
    }
}

/// The command that a tool call stands for, if the name is that of a tool.
///
/// `p4_sync` syncs `...` unless a path is given and does not force unless
/// told to. `p4_changes` lists 10 changes unless told otherwise; of a count
/// beyond 32 bits it keeps the low 32 bits. A missing description is the
/// empty text, and a missing file list is the empty list, except for
/// `p4_submit`, where it means all opened files.
pub open spec fn command_of(name: Seq<char>, arguments: Json) -> Option<CommandView> {
    if name == "p4_status"@ {
        Some(CommandView::Status { path: text_argument(arguments, "path"@) })
    } else if name == "p4_sync"@ {
        Some(
            CommandView::Sync {
                path: or_default(text_argument(arguments, "path"@), "..."@),
                force: or_default(flag_argument(arguments, "force"@), false),
            },
        )
    } else if name == "p4_edit"@ {
        Some(
            CommandView::Edit {
                files: or_default(list_argument(arguments, "files"@), Seq::empty()),
            },
        )
    } else if name == "p4_add"@ {
        Some(
            CommandView::Add {
                files: or_default(list_argument(arguments, "files"@), Seq::empty()),
            },
        )
    } else if name == "p4_submit"@ {
        Some(
            CommandView::Submit {
                description: or_default(text_argument(arguments, "description"@), Seq::empty()),
                files: list_argument(arguments, "files"@),
            },
        )
    } else if name == "p4_revert"@ {
        Some(
            CommandView::Revert {
                files: or_default(list_argument(arguments, "files"@), Seq::empty()),
            },
        )
    } else if name == "p4_opened"@ {
        Some(CommandView::Opened { changelist: text_argument(arguments, "changelist"@) })
    } else if name == "p4_changes"@ {
        Some(
            CommandView::Changes {
                max: or_default(count_argument(arguments, "max"@), 10) as u32,
                path: text_argument(arguments, "path"@),
            },
        )
    } else {
        None
    }
}

/// The registry and the argument decoder know the same tools: a name has a
/// command exactly when the catalog lists it.
pub proof fn lemma_registered_tools_have_commands(name: Seq<char>, arguments: Json)
    ensures
        is_registered(name) <==> command_of(name, arguments) is Some,
{
    let tools = catalog();
    if command_of(name, arguments) is Some {
        if name == "p4_status"@ {
            assert(tools[0].name == name);
        } else if name == "p4_sync"@ {
            assert(tools[1].name == name);
        } else if name == "p4_edit"@ {
            assert(tools[2].name == name);
        } else if name == "p4_add"@ {
            assert(tools[3].name == name);
        } else if name == "p4_submit"@ {
            assert(tools[4].name == name);
        } else if name == "p4_revert"@ {
            assert(tools[5].name == name);
        } else if name == "p4_opened"@ {
            assert(tools[6].name == name);
        } else {
            assert(tools[7].name == name);
        }
    }
    if is_registered(name) {
        let i = choose|i: int| 0 <= i < tools.len() && (#[trigger] tools[i]).name == name;
        assert(tools.len() == 8);
        assert(i == 0 || i == 1 || i == 2 || i == 3 || i == 4 || i == 5 || i == 6 || i == 7);
    }
}

/// Reads a string parameter.
pub fn text_arg(arguments: &serde_json::Value, key: &str) -> (r: Option<String>)
    ensures
        optional_text(r) == text_argument(json_of(*arguments), key@),
{
    match value_get(arguments, key) {
        Some(member) => match value_as_str(member) {
            Some(text) => Some(text.to_string()),
            None => None,
        },
        None => None,
    }
}

/// Reads a boolean parameter.
pub fn flag_arg(arguments: &serde_json::Value, key: &str) -> (r: Option<bool>)
    ensures
        r == flag_argument(json_of(*arguments), key@),
{
    match value_get(arguments, key) {
        Some(member) => value_as_bool(member),
        None => None,
    }
}

/// Reads a count parameter.
pub fn count_arg(arguments: &serde_json::Value, key: &str) -> (r: Option<u64>)
    ensures
        r == count_argument(json_of(*arguments), key@),
{
    match value_get(arguments, key) {
        Some(member) => value_as_u64(member),
        None => None,
    }
}

/// Reads a parameter that is a list of strings.
pub fn list_arg(arguments: &serde_json::Value, key: &str) -> (r: Option<Vec<String>>)
    ensures
        optional_texts(r) == list_argument(json_of(*arguments), key@),
{
    match value_get(arguments, key) {
        Some(member) => match value_as_array(member) {
            Some(items) => {
                let mut list: Vec<String> = Vec::new();
                let mut i: usize = 0;
                assert(json_items(items@).take(0) =~= Seq::<Json>::empty());
                while i < items.len()
                    invariant
                        i <= items.len(),
                        texts(list@) == texts_in(json_items(items@).take(i as int)),
                    decreases items.len() - i,
                {
                    let ghost seen = json_items(items@).take(i as int);
                    let ghost next = json_items(items@).take(i + 1);
                    let ghost before = list@;
                    proof {
                        assert(next.drop_last() =~= seen);
                        assert(next.last() == json_of(items@[i as int]));
                    }
                    match value_as_str(&items[i]) {
                        Some(text) => {
                            list.push(text.to_string());
                            assert(texts(list@) =~= texts(before).push(text@));
                        },
                        None => {},
                    }
                    i += 1;
                }
                assert(json_items(items@).take(items.len() as int) =~= json_items(items@));
                Some(list)
            },
            None => None,
        },
        None => None,
    }
}

/// Builds the command for a tool call by reading each of the tool's
/// parameters from the argument bag. Gives nothing for a name that is not a
/// tool's.
pub fn command_for(tool_name: &str, arguments: &serde_json::Value) -> (r: Option<P4Command>)
    ensures
        match r {
            Some(command) => command_of(tool_name@, json_of(*arguments)) == Some(command@),
            None => command_of(tool_name@, json_of(*arguments)) is None,
        },
{
    if str_eq(tool_name, "p4_status") {
        Some(P4Command::Status { path: text_arg(arguments, "path") })
    } else if str_eq(tool_name, "p4_sync") {
        let path = match text_arg(arguments, "path") {
            Some(text) => text,
            None => "...".to_string(),
        };
        let force = match flag_arg(arguments, "force") {
            Some(flag) => flag,
            None => false,
        };
        Some(P4Command::Sync { path, force })
    } else if str_eq(tool_name, "p4_edit") {
        let files = match list_arg(arguments, "files") {
            Some(list) => list,
            None => Vec::new(),
        };
        assert(texts(files@) =~= or_default(
            list_argument(json_of(*arguments), "files"@),
            Seq::empty(),
        ));
        Some(P4Command::Edit { files })
    } else if str_eq(tool_name, "p4_add") {
        let files = match list_arg(arguments, "files") {
            Some(list) => list,
            None => Vec::new(),
        };
        assert(texts(files@) =~= or_default(
            list_argument(json_of(*arguments), "files"@),
            Seq::empty(),
        ));
        Some(P4Command::Add { files })
    } else if str_eq(tool_name, "p4_submit") {
        let description = match text_arg(arguments, "description") {
            Some(text) => text,
            None => String::new(),
        };
        let files = list_arg(arguments, "files");
        Some(P4Command::Submit { description, files })
    } else if str_eq(tool_name, "p4_revert") {
        let files = match list_arg(arguments, "files") {
            Some(list) => list,
            None => Vec::new(),
        };
        assert(texts(files@) =~= or_default(
            list_argument(json_of(*arguments), "files"@),
            Seq::empty(),
        ));
        Some(P4Command::Revert { files })
    } else if str_eq(tool_name, "p4_opened") {
        Some(P4Command::Opened { changelist: text_arg(arguments, "changelist") })
    } else if str_eq(tool_name, "p4_changes") {
        let count: u64 = match count_arg(arguments, "max") {
            Some(n) => n,
            None => 10,
        };
        let max = #[verifier::truncate]
        (count as u32);
        Some(P4Command::Changes { max, path: text_arg(arguments, "path") })
    } else {
        None
    }
}

} // verus!
