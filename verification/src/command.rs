//! The command lines that the installers launch.

use vstd::prelude::*;
use crate::error::Tool;
use crate::operation::{Operation, OperationView};

verus! {

/// `<tool> --version`, launched only to see whether the tool is there.
pub open spec fn version_probe(tool: Tool) -> OperationView {
    OperationView::Probe { program: tool.program_text(), arguments: seq!["--version"@] }
}

/// `ln -s <target> <link>`.
pub open spec fn symlink(target: Seq<char>, link: Seq<char>) -> OperationView {
    OperationView::Run { program: "ln"@, arguments: seq!["-s"@, target, link], directory: None }
}

/// `git restore -- <path>`: brings the tracked files below `path` back to
/// what the repository holds.
pub open spec fn restore(path: Seq<char>) -> OperationView {
    OperationView::Run {
        program: "git"@,
        arguments: seq!["restore"@, "--"@, path],
        directory: None,
    }
}

/// `wget <url>`: downloads into the current directory.
pub open spec fn download(url: Seq<char>) -> OperationView {
    OperationView::Run { program: "wget"@, arguments: seq![url], directory: None }
}

/// `<shell> <script> [<argument>]`, launched in `directory` where one is
/// given.
pub open spec fn script(
    shell: Seq<char>,
    script: Seq<char>,
    argument: Option<Seq<char>>,
    directory: Option<Seq<char>>,
) -> OperationView {
    OperationView::Run {
        program: shell,
        arguments: match argument {
            Some(argument) => seq![script, argument],
            None => seq![script],
        },
        directory,
    }
}

pub fn make_version_probe(tool: Tool) -> (operation: Operation)
    ensures
        operation@ == version_probe(tool),
{
    let mut arguments: Vec<String> = Vec::new();
    arguments.push("--version".to_owned());
    assert(arguments.deep_view() =~= seq!["--version"@]);
    Operation::Probe { program: tool.program().to_owned(), arguments }
}

pub fn make_symlink(target: String, link: String) -> (operation: Operation)
    ensures
        operation@ == symlink(target@, link@),
{
    let mut arguments: Vec<String> = Vec::new();
    arguments.push("-s".to_owned());
    arguments.push(target);
    arguments.push(link);
    assert(arguments.deep_view() =~= seq!["-s"@, target@, link@]);
    Operation::Run { program: "ln".to_owned(), arguments, directory: None }
}

pub fn make_restore(path: String) -> (operation: Operation)
    ensures
        operation@ == restore(path@),
{
    let mut arguments: Vec<String> = Vec::new();
    arguments.push("restore".to_owned());
    arguments.push("--".to_owned());
    arguments.push(path);
    assert(arguments.deep_view() =~= seq!["restore"@, "--"@, path@]);
    Operation::Run { program: "git".to_owned(), arguments, directory: None }
}

pub fn make_download(url: String) -> (operation: Operation)
    ensures
        operation@ == download(url@),
{
    let mut arguments: Vec<String> = Vec::new();
    arguments.push(url);
    assert(arguments.deep_view() =~= seq![url@]);
    Operation::Run { program: "wget".to_owned(), arguments, directory: None }
}

pub fn make_script(
    shell: &str,
    path: String,
    argument: Option<String>,
    directory: Option<String>,
) -> (operation: Operation)
    ensures
        operation@ == script(shell@, path@, argument.deep_view(), directory.deep_view()),
{
    let mut arguments: Vec<String> = Vec::new();
    arguments.push(path);
    match argument {
        Some(argument) => {
            arguments.push(argument);
            assert(arguments.deep_view() =~= seq![path@, argument@]);
        },
        None => {
            assert(arguments.deep_view() =~= seq![path@]);
        },
    }
    Operation::Run { program: shell.to_owned(), arguments, directory }
}

} // verus!
