//! The command model: the closed set of Perforce operations, and the
//! argument vector that each stands for.

use vstd::prelude::*;
use crate::text::{decimal, decimal_string, texts};

verus! {

/// One Perforce operation with its parameters.
#[derive(Debug, Clone, PartialEq, Eq)]
pub enum P4Command {
    Status { path: Option<String> },
    Sync { path: String, force: bool },
    Edit { files: Vec<String> },
    Add { files: Vec<String> },
    Submit { description: String, files: Option<Vec<String>> },
    Revert { files: Vec<String> },
    Opened { changelist: Option<String> },
    Changes { max: u32, path: Option<String> },
    Info,
}

pub enum CommandView {
    Status { path: Option<Seq<char>> },
    Sync { path: Seq<char>, force: bool },
    Edit { files: Seq<Seq<char>> },
    Add { files: Seq<Seq<char>> },
    Submit { description: Seq<char>, files: Option<Seq<Seq<char>>> },
    Revert { files: Seq<Seq<char>> },
    Opened { changelist: Option<Seq<char>> },
    Changes { max: u32, path: Option<Seq<char>> },
    Info,
}

/// The text of an optional string.
pub open spec fn optional_text(value: Option<String>) -> Option<Seq<char>> {
    match value {
        Some(text) => Some(text@),
        None => None,
    }
}

/// The texts of an optional list of strings.
pub open spec fn optional_texts(value: Option<Vec<String>>) -> Option<Seq<Seq<char>>> {
    match value {
        Some(list) => Some(texts(list@)),
        None => None,
    }
}

impl View for P4Command {
    type V = CommandView;

    open spec fn view(&self) -> CommandView {
        match *self {
            P4Command::Status { path } => CommandView::Status { path: optional_text(path) },
            P4Command::Sync { path, force } => CommandView::Sync { path: path@, force },
            P4Command::Edit { files } => CommandView::Edit { files: texts(files@) },
            P4Command::Add { files } => CommandView::Add { files: texts(files@) },
            P4Command::Submit { description, files } => CommandView::Submit {
                description: description@,
                files: optional_texts(files),
            },
            P4Command::Revert { files } => CommandView::Revert { files: texts(files@) },
            P4Command::Opened { changelist } => CommandView::Opened {
                changelist: optional_text(changelist),
            },
            P4Command::Changes { max, path } => CommandView::Changes {
                max,
                path: optional_text(path),
            },
            P4Command::Info => CommandView::Info,
        }
    }
}

/// The one argument of an optional text, or none.
pub open spec fn optional_arg(value: Option<Seq<char>>) -> Seq<Seq<char>> {
    match value {
        Some(text) => seq![text],
        None => Seq::empty(),
    }
}

impl CommandView {
    /// The program that runs every command.
    pub open spec fn program() -> Seq<char> {
        "p4"@
    }

    /// The argument vector of the command: the verb, then its flags and
    /// parameters, each a separate argument and none of them quoted.
    pub open spec fn args(self) -> Seq<Seq<char>> {
        match self {
            CommandView::Status { path } => seq!["opened"@] + optional_arg(path),
            CommandView::Sync { path, force } => if force {
                seq!["sync"@, "-f"@, path]
            } else {
                seq!["sync"@, path]
            },
            CommandView::Edit { files } => seq!["edit"@] + files,
            CommandView::Add { files } => seq!["add"@] + files,
            CommandView::Submit { description, files } => seq!["submit"@, "-d"@, description] + (
            match files {
                Some(list) => list,
                None => Seq::empty(),
            }),
            CommandView::Revert { files } => seq!["revert"@] + files,
            CommandView::Opened { changelist } => match changelist {
                Some(number) => seq!["opened"@, "-c"@, number],
                None => seq!["opened"@],
            },
            CommandView::Changes { max, path } => seq!["changes"@, "-m"@, decimal(max as nat)]
                + optional_arg(path),
            CommandView::Info => seq!["info"@],
        }
    }
}

/// Appends copies of the given strings, in order.
pub(crate) fn push_all(args: &mut Vec<String>, more: &Vec<String>)
    ensures
        texts(final(args)@) == texts(old(args)@) + texts(more@),
{
    let ghost start = args@;
    let mut i: usize = 0;
    while i < more.len()
        invariant
            i <= more.len(),
            args.len() == start.len() + i,
            texts(args@) == texts(start) + texts(more@).take(i as int),
        decreases more.len() - i,
    {
        let ghost before = args@;
        args.push(more[i].clone());
        assert(texts(args@) =~= texts(before).push(more@[i as int]@));
        assert(texts(args@) =~= texts(start) + texts(more@).take(i + 1));
        i += 1;
    }
    assert(texts(more@).take(more.len() as int) =~= texts(more@));
}

/// Appends a copy of the string, if there is one.
fn push_optional(args: &mut Vec<String>, value: &Option<String>)
    ensures
        texts(final(args)@) == texts(old(args)@) + optional_arg(optional_text(*value)),
{
    let ghost start = args@;
    match value {
        Some(text) => {
            args.push(text.clone());
            assert(texts(args@) =~= texts(start) + seq![text@]);
        },
        None => {
            assert(texts(args@) =~= texts(start) + Seq::<Seq<char>>::empty());
        },
    }
}

impl P4Command {
    /// The program name and the ordered argument list for this command.
    pub fn to_command_args(&self) -> (r: (String, Vec<String>))
        ensures
            r.0@ == CommandView::program(),
            texts(r.1@) == self@.args(),
    {
        let mut args: Vec<String> = Vec::new();
        match self {
            P4Command::Status { path } => {
                args.push("opened".to_string());
                assert(texts(args@) =~= seq!["opened"@]);
                push_optional(&mut args, path);
            },
            P4Command::Sync { path, force } => {
                args.push("sync".to_string());
                if *force {
                    args.push("-f".to_string());
                }
                args.push(path.clone());
                assert(texts(args@) =~= self@.args());
            },
            P4Command::Edit { files } => {
                args.push("edit".to_string());
                assert(texts(args@) =~= seq!["edit"@]);
                push_all(&mut args, files);
            },
            P4Command::Add { files } => {
                args.push("add".to_string());
                assert(texts(args@) =~= seq!["add"@]);
                push_all(&mut args, files);
            },
            P4Command::Submit { description, files } => {
                args.push("submit".to_string());
                args.push("-d".to_string());
                args.push(description.clone());
                assert(texts(args@) =~= seq!["submit"@, "-d"@, description@]);
                match files {
                    Some(list) => {
                        push_all(&mut args, list);
                    },
                    None => {
                        assert(texts(args@) =~= texts(args@) + Seq::<Seq<char>>::empty());
                    },
                }
            },
            P4Command::Revert { files } => {
                args.push("revert".to_string());
                assert(texts(args@) =~= seq!["revert"@]);
                push_all(&mut args, files);
            },
            P4Command::Opened { changelist } => {
                args.push("opened".to_string());
                match changelist {
                    Some(number) => {
                        args.push("-c".to_string());
                        args.push(number.clone());
                    },
                    None => {},
                }
                assert(texts(args@) =~= self@.args());
            },
            P4Command::Changes { max, path } => {
                args.push("changes".to_string());
                args.push("-m".to_string());
                args.push(decimal_string(*max as u64));
                assert(texts(args@) =~= seq!["changes"@, "-m"@, decimal(*max as nat)]);
                push_optional(&mut args, path);
            },
            P4Command::Info => {
                args.push("info".to_string());
                assert(texts(args@) =~= seq!["info"@]);
            },
        }
        ("p4".to_string(), args)
    }
}

} // verus!
