//! What the command-line client decides from its arguments, and the lines
//! it writes.
use vstd::prelude::*;
use vstd::string::StringExecFns;

verus! {

/// What the client is asked to do.
pub enum ClientCommand {
    /// The argument count is wrong: show how to call the program.
    Usage { program: String },
    /// Classify this user agent.
    Analyze { user_agent: String },
}

/// The program name that the usage line shows: the first argument, or
/// nothing where there is none.
pub open spec fn program_name(args: Seq<String>) -> Seq<char> {
    if args.len() > 0 {
        args[0]@
    } else {
        Seq::empty()
    }
}

/// Reads the arguments, the program name first: exactly one more argument,
/// the user agent, is expected.
pub fn client_command(args: &Vec<String>) -> (r: ClientCommand)
    ensures
        args@.len() == 2 ==> (r matches ClientCommand::Analyze { user_agent }
            && user_agent@ == args@[1]@),
        args@.len() != 2 ==> (r matches ClientCommand::Usage { program }
            && program@ == program_name(args@)),
{
    if args.len() == 2 {
        ClientCommand::Analyze { user_agent: args[1].clone() }
    } else if args.len() > 0 {
        ClientCommand::Usage { program: args[0].clone() }
    } else {
        ClientCommand::Usage { program: String::new() }
    }
}

/// The usage line: `Usage: <program> <user_agent>`.
pub fn usage_message(program: &str) -> (r: String)
    ensures
        r@ == "Usage: "@ + program@ + " <user_agent>"@,
{
    String::from_str("Usage: ").concat(program).concat(" <user_agent>")
}

/// The line printed for a decision: `Decision: <label>`.
pub fn decision_line(decision: &str) -> (r: String)
    ensures
        r@ == "Decision: "@ + decision@,
{
    String::from_str("Decision: ").concat(decision)
}

} // verus!
