//! Processes that the program starts, described before they are started.

use vstd::prelude::*;

verus! {

/// How the streams of a started process are connected.
#[derive(Clone, Copy, Debug, PartialEq, Eq, Structural)]
pub enum Stdio {
    /// The stream of the parent is passed on.
    Inherit,
    /// The stream leads nowhere.
    Null,
}

/// A process to start: the program, its arguments, the directory it runs in,
/// and how it is tied to the process that starts it.
pub struct Command {
    pub program: String,
    pub args: Vec<String>,
    pub current_dir: Option<String>,
    /// Whether the process is cut loose from the console of its parent.
    pub detached: bool,
    pub stdin: Stdio,
    pub stdout: Stdio,
    pub stderr: Stdio,
}

/// A command with its texts as sequences of characters.
pub struct CommandView {
    pub program: Seq<char>,
    pub args: Seq<Seq<char>>,
    pub current_dir: Option<Seq<char>>,
    pub detached: bool,
    pub stdin: Stdio,
    pub stdout: Stdio,
    pub stderr: Stdio,
}

impl View for Command {
    type V = CommandView;

    open spec fn view(&self) -> CommandView {
        CommandView {
            program: self.program@,
            args: Seq::new(self.args.len() as nat, |i: int| self.args[i]@),
            current_dir: match self.current_dir {
                Some(dir) => Some(dir@),
                None => None,
            },
            detached: self.detached,
            stdin: self.stdin,
            stdout: self.stdout,
            stderr: self.stderr,
        }
    }
}

impl CommandView {
    /// Whether the process shares nothing with the console and the streams
    /// of its parent.
    pub open spec fn is_detached(self) -> bool {
        &&& self.detached
        &&& self.stdin == Stdio::Null
        &&& self.stdout == Stdio::Null
        &&& self.stderr == Stdio::Null
    }
}

impl Command {
    /// A command that runs `program` without arguments, in the directory and
    /// on the streams of its parent.
    pub fn new(program: &str) -> (command: Command)
        ensures
            command@ == (CommandView {
                program: program@,
                args: Seq::empty(),
                current_dir: None,
                detached: false,
                stdin: Stdio::Inherit,
                stdout: Stdio::Inherit,
                stderr: Stdio::Inherit,
            }),
    {
        let command = Command {
            program: program.to_string(),
            args: Vec::new(),
            current_dir: None,
            detached: false,
            stdin: Stdio::Inherit,
            stdout: Stdio::Inherit,
            stderr: Stdio::Inherit,
        };
        assert(command@.args =~= Seq::empty());
        command
    }

    /// Adds an argument.
    pub fn arg(self, arg: &str) -> (command: Command)
        ensures
            command@ == (CommandView { args: self@.args.push(arg@), ..self@ }),
    {
        let mut command = self;
        let ghost before = command@;
        command.args.push(arg.to_string());
        assert(command@.args =~= before.args.push(arg@));
        command
    }

    /// Sets the directory that the process runs in.
    pub fn current_dir(self, dir: &str) -> (command: Command)
        ensures
            command@ == (CommandView { current_dir: Some(dir@), ..self@ }),
    {
        let mut command = self;
        let ghost before = command@;
        command.current_dir = Some(dir.to_string());
        assert(command@.args =~= before.args);
        command
    }
}

/// Cuts a command loose from the console and the streams of its parent.
pub fn run_helper(command: Command) -> (detached: Command)
    ensures
        detached@ == (CommandView {
            detached: true,
            stdin: Stdio::Null,
            stdout: Stdio::Null,
            stderr: Stdio::Null,
            ..command@
        }),
        detached@.is_detached(),
{
    let mut detached = command;
    let ghost before = detached@;
    detached.detached = true;
    detached.stdin = Stdio::Null;
    detached.stdout = Stdio::Null;
    detached.stderr = Stdio::Null;
    assert(detached@.args =~= before.args);
    detached
}

/// The commands to try, in order, to get something started: each one is
/// tried only after those before it have failed to start.
pub struct LaunchPlan {
    pub attempts: Vec<Command>,
}

impl LaunchPlan {
    /// The commands of the plan, in the order in which they are tried.
    pub open spec fn commands(&self) -> Seq<CommandView> {
        Seq::new(self.attempts.len() as nat, |i: int| self.attempts[i]@)
    }

    /// The command to try once `failures` commands have failed to start;
    /// none where the plan has no more, and the launch has failed.
    pub fn attempt(&self, failures: usize) -> (next: Option<&Command>)
        ensures
            match next {
                Some(command) => failures < self.attempts.len() && command@
                    == self.commands()[failures as int],
                None => failures >= self.attempts.len(),
            },
    {
        if failures < self.attempts.len() {
            Some(&self.attempts[failures])
        } else {
            None
        }
    }
}

} // verus!
