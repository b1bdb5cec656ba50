use vstd::prelude::*;
use vstd::string::StringExecFns;

use crate::command::Command;

verus! {

/// The command-line front end's pure core: what it can compute without
/// touching the console.
pub struct App {}

/// The formatted usage list of a run of commands, one indented line each.
pub open spec fn spec_command_list(commands: Seq<Command>) -> Seq<char>
    decreases commands.len(),
{
    if commands.len() == 0 {
        Seq::empty()
    } else {
        spec_command_list(commands.drop_last()) + "\t-"@ + commands.last().spec_description()
            + "\n"@
    }
}

impl App {
    pub fn new() -> App {
        App {}
    }

    /// The usage list of every available command.
    #[verifier::loop_isolation(false)]
    pub fn get_formatted_command_list() -> (r: String)
        ensures
            r@ == spec_command_list(seq![Command::GenerateNpc]),
    {
        let commands = Command::iterator();
        let mut r = String::new();
        let mut i: usize = 0;
        while i < commands.len()
            invariant
                i <= commands@.len(),
                r@ == spec_command_list(commands@.take(i as int)),
            decreases commands@.len() - i,
        {
            r.append("\t-");
            let description = commands[i].command_description();
            r.append(description.as_str());
            r.append("\n");
            proof {
                assert(commands@.take(i + 1).drop_last() =~= commands@.take(i as int));
            }
            i += 1;
        }
        proof {
            assert(commands@.take(commands@.len() as int) =~= commands@);
        }
        r
    }
}

} // verus!
