//! Command-line argument parsing.

use vstd::prelude::*;

use crate::text::{contains_char, str_eq, strings_view};

verus! {

pub const USAGE: &'static str = "Usage: nitro <command> [subcommand]

Commands:
  \"<request>\"                    Execute request and exit (2+ words)
  interactive, i [<request>]     Start interactive session
  continue, c <request>          Continue last conversation
  resume, r [<request>]          Resume last conversation interactively
  strict, s [<request>]          Run in strict mode (always confirm commands)
  help                           Print this help message
  settings                       Configure Nitro settings
  provider                       Manage AI providers

Provider Subcommands:
  provider add                   Add a new provider
  provider list                  List all providers
  provider edit                  Edit a provider
  provider remove                Remove a provider
  provider default               Set default provider";

/// A parsed top-level command.
#[derive(Debug, PartialEq, Eq)]
pub enum Command {
    Help,
    Settings,
    Provider { args: Vec<String> },
    Interactive { request: String },
    Continue { request: String },
    Resume { request: String },
    Strict { request: String },
    OneShot { request: String },
    Unknown { command: String },
}

/// Errors that come from the arguments alone.
#[derive(Debug, PartialEq, Eq)]
pub enum ParseError {
    ContinueWithoutRequest,
}

/// What a [`Command`] means, with its strings as character sequences.
pub enum CommandSpec {
    Help,
    Settings,
    Provider { args: Seq<Seq<char>> },
    Interactive { request: Seq<char> },
    Continue { request: Seq<char> },
    Resume { request: Seq<char> },
    Strict { request: Seq<char> },
    OneShot { request: Seq<char> },
    Unknown { command: Seq<char> },
}

impl View for Command {
    type V = CommandSpec;

    open spec fn view(&self) -> CommandSpec {
        match self {
            Command::Help => CommandSpec::Help,
            Command::Settings => CommandSpec::Settings,
            Command::Provider { args } => CommandSpec::Provider { args: strings_view(args@) },
            Command::Interactive { request } => CommandSpec::Interactive { request: request@ },
            Command::Continue { request } => CommandSpec::Continue { request: request@ },
            Command::Resume { request } => CommandSpec::Resume { request: request@ },
            Command::Strict { request } => CommandSpec::Strict { request: request@ },
            Command::OneShot { request } => CommandSpec::OneShot { request: request@ },
            Command::Unknown { command } => CommandSpec::Unknown { command: command@ },
        }
    }
}

/// The first argument after the command word, or the empty string.
pub open spec fn first_or_empty(rest: Seq<Seq<char>>) -> Seq<char> {
    if rest.len() > 0 {
        rest[0]
    } else {
        Seq::empty()
    }
}

/// What `nitro <args>` asks for.
pub open spec fn spec_parse(args: Seq<Seq<char>>) -> Result<CommandSpec, ParseError> {
    if args.len() == 0 {
        Ok(CommandSpec::Help)
    } else {
        let cmd = args[0];
        let rest = args.drop_first();
        if cmd == "help"@ {
            Ok(CommandSpec::Help)
        } else if cmd == "settings"@ {
            Ok(CommandSpec::Settings)
        } else if cmd == "provider"@ {
            Ok(CommandSpec::Provider { args: rest })
        } else if cmd == "interactive"@ || cmd == "i"@ {
            Ok(CommandSpec::Interactive { request: first_or_empty(rest) })
        } else if cmd == "continue"@ || cmd == "c"@ {
            if rest.len() > 0 {
                Ok(CommandSpec::Continue { request: rest[0] })
            } else {
                Err(ParseError::ContinueWithoutRequest)
            }
        } else if cmd == "resume"@ || cmd == "r"@ {
            Ok(CommandSpec::Resume { request: first_or_empty(rest) })
        } else if cmd == "strict"@ || cmd == "s"@ {
            Ok(CommandSpec::Strict { request: first_or_empty(rest) })
        } else if cmd.contains(' ') {
            Ok(CommandSpec::OneShot { request: cmd })
        } else {
            Ok(CommandSpec::Unknown { command: cmd })
        }
    }
}

pub open spec fn result_view(r: Result<Command, ParseError>) -> Result<CommandSpec, ParseError> {
    match r {
        Ok(c) => Ok(c@),
        Err(e) => Err(e),
    }
}

proof fn lemma_strings_view_push(s: Seq<String>, x: String)
    ensures
        strings_view(s.push(x)) == strings_view(s).push(x@),
{
    assert(strings_view(s.push(x)) =~= strings_view(s).push(x@));
}

fn first_or_empty_exec(args: &[String]) -> (r: String)
    requires
        args@.len() >= 1,
    ensures
        r@ == first_or_empty(strings_view(args@).drop_first()),
{
    if args.len() >= 2 {
        args[1].clone()
    } else {
        String::new()
    }
}

/// Parse the program's arguments (without the program name).
///
/// A lone argument that holds a space is a one-shot request; any other
/// unrecognised word is reported back as `Unknown`.
pub fn parse(args: &[String]) -> (r: Result<Command, ParseError>)
    ensures
        result_view(r) == spec_parse(strings_view(args@)),
{
    let ghost sv = strings_view(args@);
    if args.len() == 0 {
        return Ok(Command::Help);
    }
    assert(sv[0] == args@[0]@);
    let command = args[0].as_str();
    if str_eq(command, "help") {
        Ok(Command::Help)
    } else if str_eq(command, "settings") {
        Ok(Command::Settings)
    } else if str_eq(command, "provider") {
        let mut rest: Vec<String> = Vec::new();
        let mut i: usize = 1;
        while i < args.len()
            invariant
                1 <= i <= args@.len(),
                sv == strings_view(args@),
                strings_view(rest@) == sv.subrange(1, i as int),
            decreases args@.len() - i,
        {
            let item = args[i].clone();
            assert(item@ == sv[i as int]);
            let ghost before = rest@;
            rest.push(item);
            proof {
                lemma_strings_view_push(before, item);
                assert(sv.subrange(1, i as int).push(sv[i as int]) =~= sv.subrange(1, i + 1));
            }
            i += 1;
            assert(strings_view(rest@) =~= sv.subrange(1, i as int));
        }
        assert(sv.subrange(1, args@.len() as int) =~= sv.drop_first());
        Ok(Command::Provider { args: rest })
    } else if str_eq(command, "interactive") || str_eq(command, "i") {
        Ok(Command::Interactive { request: first_or_empty_exec(args) })
    } else if str_eq(command, "continue") || str_eq(command, "c") {
        if args.len() >= 2 {
            Ok(Command::Continue { request: args[1].clone() })
        } else {
            Err(ParseError::ContinueWithoutRequest)
        }
    } else if str_eq(command, "resume") || str_eq(command, "r") {
        Ok(Command::Resume { request: first_or_empty_exec(args) })
    } else if str_eq(command, "strict") || str_eq(command, "s") {
        Ok(Command::Strict { request: first_or_empty_exec(args) })
    } else if contains_char(command, ' ') {
        Ok(Command::OneShot { request: args[0].clone() })
    } else {
        Ok(Command::Unknown { command: args[0].clone() })
    }
}

} // verus!
