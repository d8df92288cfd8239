//! The mock strategy: canned, deterministic replies that echo the
//! parameters of a command. Nothing here touches a file or a process.

use vstd::prelude::*;
use crate::p4::commands::{CommandView, P4Command};
use crate::text::{decimal, decimal_string, join, join_strings, texts};

verus! {

/// The smaller of a requested count and the five changes that the mock knows.
pub open spec fn listed_changes(max: u32) -> nat {
    if max < 5 {
        max as nat
    } else {
        5
    }
}

/// The line that reports the change with the given index, counted from zero.
pub open spec fn change_line(index: nat) -> Seq<char> {
    "Change "@ + decimal((12350 - index) as nat) + " on 2024/01/1"@ + decimal(15 + index)
        + " by user@workspace 'Sample change description "@ + decimal(index + 1) + "'\n"@
}

/// The lines of the first `count` changes, newest first.
pub open spec fn change_lines(count: nat) -> Seq<char>
    decreases count,
{
    if count == 0 {
        Seq::empty()
    } else {
        change_lines((count - 1) as nat) + change_line((count - 1) as nat)
    }
}

/// The report on a list of files: a title, the files on one line, and how
/// many they are.
pub open spec fn file_report(
    title: Seq<char>,
    files: Seq<Seq<char>>,
    summary: Seq<char>,
) -> Seq<char> {
    title + join(files, ", "@) + "\n... "@ + decimal(files.len()) + summary
}

/// The text with which the mock strategy answers a command.
pub open spec fn mock_reply(command: CommandView) -> Seq<char> {
    match command {
        CommandView::Status { path } => "Mock P4 Status for "@ + (match path {
            Some(text) => text,
            None => "current directory"@,
        })
            + ":\n//depot/main/file1.txt#1 - edit default change (text)\n//depot/main/file2.cpp#2 - add default change (text)\n... (mock data)"@,
        CommandView::Sync { path, force } => "Mock P4 Sync"@ + (if force {
            " (forced)"@
        } else {
            ""@
        }) + ":\n//depot/main/"@ + path
            + "#1 - updating /local/workspace/file1.txt\n//depot/main/"@ + path
            + "#2 - updating /local/workspace/file2.cpp\n... synced 15 files"@,
        CommandView::Edit { files } => file_report(
            "Mock P4 Edit:\nFiles opened for edit:\n"@,
            files,
            " file(s) opened for edit"@,
        ),
        CommandView::Add { files } => file_report(
            "Mock P4 Add:\nFiles opened for add:\n"@,
            files,
            " file(s) opened for add"@,
        ),
        CommandView::Submit { description, files } => "Mock P4 Submit:\nChange description: "@
            + description + "\nFiles: "@ + (match files {
            Some(list) => "Specific files: "@ + join(list, ", "@),
            None => "All opened files"@,
        }) + "\nChange 12345 submitted successfully"@,
        CommandView::Revert { files } => file_report(
            "Mock P4 Revert:\nFiles reverted:\n"@,
            files,
            " file(s) reverted"@,
        ),
        CommandView::Opened { changelist } => "Mock P4 Opened"@ + (match changelist {
            Some(number) => " in changelist "@ + number,
            None => ""@,
        })
            + ":\n//depot/main/file1.txt#1 - edit default change (text)\n//depot/main/file2.cpp#2 - add default change (text)\n//depot/main/file3.h#1 - edit change 12346 (text)"@,
        CommandView::Changes { max, path } => "Mock P4 Changes (max: "@ + decimal(max as nat)
            + ")"@ + (match path {
            Some(text) => " for path "@ + text,
            None => ""@,
        }) + ":\n"@ + change_lines(listed_changes(max)),
        CommandView::Info =>
            "Mock P4 Info:\nUser name: testuser\nClient name: test-client\nClient host: test-host\nClient root: C:\\workspace\\p4\\test-client\nCurrent directory: C:\\workspace\\p4\\test-client\\main\nPeer address: ssl:perforce.example.com:1666\nClient address: 192.168.1.100\nServer address: perforce.example.com:1666\nServer root: /opt/perforce/depot\nServer date: 2024/01/15 12:30:45 -0800 PST\nServer uptime: 15:32:18\nServer version: P4D/LINUX26X86_64/2023.1/2553040 (2023/06/15)\nServerID: perforce-server\nCase Handling: insensitive"@,
    }
}

/// The mock never answers with an empty text.
pub proof fn lemma_mock_reply_is_not_empty(command: CommandView)
    ensures
        mock_reply(command).len() > 0,
{
    reveal_strlit("Mock P4 Status for ");
    reveal_strlit("Mock P4 Sync");
    reveal_strlit("Mock P4 Edit:\nFiles opened for edit:\n");
    reveal_strlit("Mock P4 Add:\nFiles opened for add:\n");
    reveal_strlit("Mock P4 Submit:\nChange description: ");
    reveal_strlit("Mock P4 Revert:\nFiles reverted:\n");
    reveal_strlit("Mock P4 Opened");
    reveal_strlit("Mock P4 Changes (max: ");
    reveal_strlit(
        "Mock P4 Info:\nUser name: testuser\nClient name: test-client\nClient host: test-host\nClient root: C:\\workspace\\p4\\test-client\nCurrent directory: C:\\workspace\\p4\\test-client\\main\nPeer address: ssl:perforce.example.com:1666\nClient address: 192.168.1.100\nServer address: perforce.example.com:1666\nServer root: /opt/perforce/depot\nServer date: 2024/01/15 12:30:45 -0800 PST\nServer uptime: 15:32:18\nServer version: P4D/LINUX26X86_64/2023.1/2553040 (2023/06/15)\nServerID: perforce-server\nCase Handling: insensitive",
    );
}

fn file_report_string(title: &str, files: &Vec<String>, summary: &str) -> (r: String)
    ensures
        r@ == file_report(title@, texts(files@), summary@),
{
    let mut r = title.to_string();
    r.append(join_strings(files, ", ").as_str());
    r.append("\n... ");
    r.append(decimal_string(files.len() as u64).as_str());
    r.append(summary);
    r
}

fn change_line_string(index: u32) -> (r: String)
    requires
        index < 5,
    ensures
        r@ == change_line(index as nat),
{
    let mut r = "Change ".to_string();
    r.append(decimal_string((12350 - index) as u64).as_str());
    r.append(" on 2024/01/1");
    r.append(decimal_string((15 + index) as u64).as_str());
    r.append(" by user@workspace 'Sample change description ");
    r.append(decimal_string((index + 1) as u64).as_str());
    r.append("'\n");
    r
}

fn change_lines_string(max: u32) -> (r: String)
    ensures
        r@ == change_lines(listed_changes(max)),
{
    let count: u32 = if max < 5 {
        max
    } else {
        5
    };
    let mut r = String::new();
    let mut i: u32 = 0;
    while i < count
        invariant
            i <= count <= 5,
            r@ == change_lines(i as nat),
        decreases count - i,
    {
        r.append(change_line_string(i).as_str());
        i += 1;
    }
    r
}

/// Answers a command as the mock strategy does.
pub fn mock_output(command: &P4Command) -> (r: String)
    ensures
        r@ == mock_reply(command@),
{
    match command {
        P4Command::Status { path } => {
            let mut r = "Mock P4 Status for ".to_string();
            match path {
                Some(text) => r.append(text.as_str()),
                None => r.append("current directory"),
            }
            r.append(
                ":\n//depot/main/file1.txt#1 - edit default change (text)\n//depot/main/file2.cpp#2 - add default change (text)\n... (mock data)",
            );
            r
        },
        P4Command::Sync { path, force } => {
            let mut r = "Mock P4 Sync".to_string();
            if *force {
                r.append(" (forced)");
            } else {
                r.append("");
            }
            r.append(":\n//depot/main/");
            r.append(path.as_str());
            r.append("#1 - updating /local/workspace/file1.txt\n//depot/main/");
            r.append(path.as_str());
            r.append("#2 - updating /local/workspace/file2.cpp\n... synced 15 files");
            r
        },
        P4Command::Edit { files } => file_report_string(
            "Mock P4 Edit:\nFiles opened for edit:\n",
            files,
            " file(s) opened for edit",
        ),
        P4Command::Add { files } => file_report_string(
            "Mock P4 Add:\nFiles opened for add:\n",
            files,
            " file(s) opened for add",
        ),
        P4Command::Submit { description, files } => {
            let mut r = "Mock P4 Submit:\nChange description: ".to_string();
            r.append(description.as_str());
            r.append("\nFiles: ");
            match files {
                Some(list) => {
                    let mut info = "Specific files: ".to_string();
                    info.append(join_strings(list, ", ").as_str());
                    r.append(info.as_str());
                },
                None => r.append("All opened files"),
            }
            r.append("\nChange 12345 submitted successfully");
            r
        },
        P4Command::Revert { files } => file_report_string(
            "Mock P4 Revert:\nFiles reverted:\n",
            files,
            " file(s) reverted",
        ),
        P4Command::Opened { changelist } => {
            let mut r = "Mock P4 Opened".to_string();
            match changelist {
                Some(number) => {
                    let mut info = " in changelist ".to_string();
                    info.append(number.as_str());
                    r.append(info.as_str());
                },
                None => r.append(""),
            }
            r.append(
                ":\n//depot/main/file1.txt#1 - edit default change (text)\n//depot/main/file2.cpp#2 - add default change (text)\n//depot/main/file3.h#1 - edit change 12346 (text)",
            );
            r
        },
        P4Command::Changes { max, path } => {
            let mut r = "Mock P4 Changes (max: ".to_string();
            r.append(decimal_string(*max as u64).as_str());
            r.append(")");
            match path {
                Some(text) => {
                    let mut info = " for path ".to_string();
                    info.append(text.as_str());
                    r.append(info.as_str());
                },
                None => r.append(""),
            }
            r.append(":\n");
            r.append(change_lines_string(*max).as_str());
            r
        },
        P4Command::Info =>
            "Mock P4 Info:\nUser name: testuser\nClient name: test-client\nClient host: test-host\nClient root: C:\\workspace\\p4\\test-client\nCurrent directory: C:\\workspace\\p4\\test-client\\main\nPeer address: ssl:perforce.example.com:1666\nClient address: 192.168.1.100\nServer address: perforce.example.com:1666\nServer root: /opt/perforce/depot\nServer date: 2024/01/15 12:30:45 -0800 PST\nServer uptime: 15:32:18\nServer version: P4D/LINUX26X86_64/2023.1/2553040 (2023/06/15)\nServerID: perforce-server\nCase Handling: insensitive".to_string(),
    }
}

} // verus!
