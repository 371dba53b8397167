use vstd::prelude::*;
use vstd::string::StringExecFns;

use crate::greeting::{greet, greeting};

verus! {

/// The plugins that every new builder is configured with.
pub open spec fn builder_plugins() -> Seq<Seq<char>> {
    seq!["opener"@]
}

/// The command names in every new builder's handler table.
pub open spec fn builder_commands() -> Seq<Seq<char>> {
    seq!["greet"@]
}

/// What a command table answers when `command` is invoked with `argument`:
/// a registered command runs its handler, anything else finds none.
pub open spec fn dispatch(commands: Seq<Seq<char>>, command: Seq<char>, argument: Seq<char>) -> Option<
    Seq<char>,
> {
    if commands.contains(command) && command == "greet"@ {
        Some(greeting(argument))
    } else {
        None
    }
}

/// The configuration of an application builder: the plugins it carries and
/// the names of the commands in its handler table.
pub struct BuilderPlan {
    pub plugins: Vec<String>,
    pub commands: Vec<String>,
}

impl BuilderPlan {
    pub open spec fn plugins_view(&self) -> Seq<Seq<char>> {
        self.plugins.deep_view()
    }

    pub open spec fn commands_view(&self) -> Seq<Seq<char>> {
        self.commands.deep_view()
    }

    /// Whether `command` is in the handler table.
    pub fn has_command(&self, command: &str) -> (r: bool)
        ensures
            r == self.commands_view().contains(command@),
    {
        let wanted = String::from_str(command);
        let mut i: usize = 0;
        while i < self.commands.len()
            invariant
                i <= self.commands.len(),
                wanted@ == command@,
                forall|j: int| 0 <= j < i ==> self.commands_view()[j] != command@,
            decreases self.commands.len() - i,
        {
            if self.commands[i] == wanted {
                assert(self.commands_view()[i as int] == command@);
                return true;
            }
            i = i + 1;
        }
        proof {
            if self.commands_view().contains(command@) {
                let k = choose|k: int| 0 <= k < self.commands_view().len() && self.commands_view()[k] == command@;
                assert(self.commands_view()[k] == command@);
            }
        }
        false
    }

    /// Runs `command` through the handler table with `argument`.
    pub fn invoke(&self, command: &str, argument: &str) -> (r: Option<String>)
        ensures
            r matches Some(s) ==> dispatch(self.commands_view(), command@, argument@) == Some(s@),
            r is None ==> dispatch(self.commands_view(), command@, argument@) is None,
    {
        if self.has_command(command) && String::from_str(command) == String::from_str("greet") {
            Some(greet(argument))
        } else {
            None
        }
    }
}

/// A new builder, configured with the system-integration plugin and the
/// handler table; every call makes a separate one.
pub fn builder_factory() -> (r: BuilderPlan)
    ensures
        r.plugins_view() == builder_plugins(),
        r.commands_view() == builder_commands(),
{
    let plugins = vec![String::from_str("opener")];
    let commands = vec![String::from_str("greet")];
    assert(plugins.deep_view() =~= builder_plugins());
    assert(commands.deep_view() =~= builder_commands());
    BuilderPlan { plugins, commands }
}

/// Two builders made by the factory carry the same plugins and the same
/// commands, and answer every invocation alike.
pub proof fn builders_agree(a: BuilderPlan, b: BuilderPlan, command: Seq<char>, argument: Seq<char>)
    requires
        a.plugins_view() == builder_plugins(),
        a.commands_view() == builder_commands(),
        b.plugins_view() == builder_plugins(),
        b.commands_view() == builder_commands(),
    ensures
        a.plugins_view() == b.plugins_view(),
        a.commands_view() == b.commands_view(),
        dispatch(a.commands_view(), command, argument) == dispatch(
            b.commands_view(),
            command,
            argument,
        ),
{
}

} // verus!
