//! The stand-in for the store edition's launcher: which executable it
//! starts in its place, and how.

use crate::os::{Command, CommandView, Stdio};
use crate::paths::{file_name_of, join_path, joined_path, parent_of, path_file_name, path_parent};
use crate::text::{chars_of, contains, contains_text, lowercase, to_lowercase, trim, trimmed};
use vstd::prelude::*;

verus! {

/// Why the stand-in starts nothing.
#[derive(Clone, Copy, Debug, PartialEq, Eq, Structural)]
pub enum LaunchError {
    /// The executable to start is the stand-in itself.
    TargetIsSelf,
}

/// The executable that the stand-in starts.
pub struct Target {
    pub path: String,
    /// Whether it is the launcher that the stand-in has replaced.
    pub original_launcher: bool,
}

/// The launcher that the stand-in has replaced, kept beside it.
pub open spec fn fallback_path(exe_dir: Seq<char>) -> Seq<char> {
    joined_path(exe_dir, "FF8_Launcher_Original.exe"@)
}

/// The executable that the stand-in is meant to start: the one named by
/// its first argument; else the one named in the file that the program
/// keeps beside it; else the launcher it has replaced.
pub open spec fn wanted_path(argument: Option<Seq<char>>, noted: Option<Seq<char>>, exe_dir: Seq<char>) -> Seq<
    char,
> {
    match argument {
        Some(path) => path,
        None => match noted {
            Some(contents) => trimmed(contents),
            None => fallback_path(exe_dir),
        },
    }
}

/// The directory that an executable is started in: the one it lies in, or
/// the current one where its path names none.
pub open spec fn working_dir(path: Seq<char>) -> Seq<char> {
    match path_parent(path) {
        Some(dir) => dir,
        None => "."@,
    }
}

/// Whether a file name is that of the companion game.
pub open spec fn is_companion_file_name(name: Seq<char>) -> bool {
    contains(lowercase(name), "choco"@)
}

/// Whether an executable is the companion game.
pub open spec fn is_companion_name(path: Seq<char>) -> bool {
    is_companion_file_name(path_file_name(path))
}

/// The command that starts the target. The launcher that was replaced is
/// handed every argument of the stand-in, the name it was started under
/// included, where the stand-in got any; another target gets none.
pub open spec fn start_command(path: Seq<char>, original_launcher: bool, args: Seq<Seq<char>>) -> CommandView {
    CommandView {
        program: path,
        args: if original_launcher && args.len() > 1 {
            args
        } else {
            Seq::empty()
        },
        current_dir: Some(working_dir(path)),
        detached: false,
        stdin: Stdio::Null,
        stdout: Stdio::Null,
        stderr: Stdio::Null,
    }
}

/// The launcher that the stand-in has replaced.
pub fn path_fallback(exe_path: &str) -> (path: String)
    ensures
        path@ == fallback_path(exe_path@),
{
    join_path(exe_path, "FF8_Launcher_Original.exe")
}

/// The executable that the stand-in is meant to start.
///
/// `argument` is its first argument, `noted` the contents of the file that
/// names the game, where it could be read, `exe_dir` its own directory.
pub fn target_path(argument: Option<&str>, noted: Option<&str>, exe_dir: &str) -> (path: String)
    ensures
        path@ == wanted_path(
            match argument {
                Some(a) => Some(a@),
                None => None,
            },
            match noted {
                Some(n) => Some(n@),
                None => None,
            },
            exe_dir@,
        ),
{
    match argument {
        Some(path) => path.to_string(),
        None => match noted {
            Some(contents) => trim(contents),
            None => path_fallback(exe_dir),
        },
    }
}

/// The executable that the stand-in starts: the one it is meant to start
/// where `found` says it is there, else the launcher it has replaced.
pub fn resolve_target(path: String, found: bool, exe_dir: &str) -> (target: Target)
    ensures
        target.original_launcher == !found,
        target.path@ == if found {
            path@
        } else {
            fallback_path(exe_dir@)
        },
{
    if found {
        Target { path, original_launcher: false }
    } else {
        Target { path: path_fallback(exe_dir), original_launcher: true }
    }
}

/// Tells whether a file name is that of the companion game.
pub fn is_companion_file(name: &str) -> (companion: bool)
    ensures
        companion == is_companion_file_name(name@),
{
    contains_text(&to_lowercase(&chars_of(name)), &chars_of("choco"))
}

/// Tells whether an executable is the companion game.
pub fn is_companion(path: &str) -> (companion: bool)
    ensures
        companion == is_companion_name(path@),
{
    is_companion_file(file_name_of(path).as_str())
}

/// The command that starts the target, unless the target is the stand-in
/// itself, as `same_file` tells.
pub fn start(target: &Target, args: &Vec<String>, same_file: bool) -> (command: Result<Command, LaunchError>)
    ensures
        match command {
            Ok(c) => !same_file && c@ == start_command(
                target.path@,
                target.original_launcher,
                Seq::new(args.len() as nat, |i: int| args[i]@),
            ),
            Err(e) => same_file && e == LaunchError::TargetIsSelf,
        },
{
    if same_file {
        return Err(LaunchError::TargetIsSelf);
    }
    let dir = match parent_of(target.path.as_str()) {
        Some(dir) => dir,
        None => ".".to_string(),
    };
    let mut passed: Vec<String> = Vec::new();
    if target.original_launcher && args.len() > 1 {
        let mut i: usize = 0;
        while i < args.len()
            invariant
                i <= args.len(),
                passed.len() == i,
                forall|k: int| 0 <= k < i ==> passed[k]@ == args[k]@,
            decreases args.len() - i,
        {
            passed.push(args[i].clone());
            i += 1;
        }
    }
    let command = Command {
        program: target.path.clone(),
        args: passed,
        current_dir: Some(dir),
        detached: false,
        stdin: Stdio::Null,
        stdout: Stdio::Null,
        stderr: Stdio::Null,
    };
    assert(command@.args =~= start_command(
        target.path@,
        target.original_launcher,
        Seq::new(args.len() as nat, |i: int| args[i]@),
    ).args);
    Ok(command)
}

} // verus!
