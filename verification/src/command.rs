//! The command line that starts the server.

use vstd::prelude::*;
use vstd::string::StringExecFns;

use crate::release::STDIO_FLAG;

verus! {

/// A process for the editor to spawn: a program, its arguments, and the
/// variables added to its environment.
#[derive(Clone, Debug, PartialEq, Eq)]
pub struct Command {
    pub command: String,
    pub args: Vec<String>,
    pub env: Vec<(String, String)>,
}

/// A `Command` with its texts as sequences of characters.
pub struct CommandView {
    pub command: Seq<char>,
    pub args: Seq<Seq<char>>,
    pub env: Seq<(Seq<char>, Seq<char>)>,
}

impl View for Command {
    type V = CommandView;

    open spec fn view(&self) -> CommandView {
        CommandView {
            command: self.command@,
            args: self.args.deep_view(),
            env: self.env.deep_view(),
        }
    }
}

impl CommandView {
    /// The native binary, run over standard input and output.
    pub open spec fn native(binary_path: Seq<char>) -> CommandView {
        CommandView { command: binary_path, args: seq![STDIO_FLAG@], env: seq![] }
    }

    /// The Node interpreter, running the server script over standard input
    /// and output.
    pub open spec fn interpreted(interpreter: Seq<char>, script_path: Seq<char>) -> CommandView {
        CommandView { command: interpreter, args: seq![script_path, STDIO_FLAG@], env: seq![] }
    }
}

impl Command {
    /// The command that runs the native binary at `binary_path`.
    pub fn native(binary_path: String) -> (command: Command)
        ensures
            command@ == CommandView::native(binary_path@),
    {
        let mut args: Vec<String> = Vec::new();
        args.push(String::from_str(STDIO_FLAG));
        let env: Vec<(String, String)> = Vec::new();
        let command = Command { command: binary_path, args, env };
        assert(command.args.deep_view() =~= seq![STDIO_FLAG@]);
        assert(command.env.deep_view() =~= seq![]);
        command
    }

    /// The command that runs the script at `script_path` with the interpreter
    /// at `interpreter`.
    pub fn interpreted(interpreter: String, script_path: String) -> (command: Command)
        ensures
            command@ == CommandView::interpreted(interpreter@, script_path@),
    {
        let mut args: Vec<String> = Vec::new();
        let ghost script = script_path@;
        args.push(script_path);
        args.push(String::from_str(STDIO_FLAG));
        let env: Vec<(String, String)> = Vec::new();
        let command = Command { command: interpreter, args, env };
        assert(command.args.deep_view() =~= seq![script, STDIO_FLAG@]);
        assert(command.env.deep_view() =~= seq![]);
        command
    }
}

} // verus!
