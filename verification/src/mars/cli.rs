//! What the program does, chosen by its first argument.

use vstd::prelude::*;

use crate::mars::text::same_text;

verus! {

/// The program's modes.
#[derive(Clone, Copy, Debug, PartialEq, Eq, Structural)]
pub enum Command {
    /// `serve`: run the HTTP API.
    Serve,
    /// `--json`: print the latest sol as JSON.
    Json,
    /// Anything else: print the communications delay and a weather report.
    Report,
}

/// The mode that the program's first argument selects.
pub open spec fn command_of(arg: Option<Seq<char>>) -> Command {
    match arg {
        Some(a) => if a == "serve"@ {
            Command::Serve
        } else if a == "--json"@ {
            Command::Json
        } else {
            Command::Report
        },
        None => Command::Report,
    }
}

/// Only the exact argument `serve` selects the server and only the exact
/// argument `--json` selects the JSON document; every other argument, and no
/// argument at all, selects the console report.
pub proof fn lemma_only_exact_words_select_modes(arg: Option<Seq<char>>)
    ensures
        command_of(arg) == Command::Serve <==> arg == Some("serve"@),
        command_of(arg) == Command::Json <==> arg == Some("--json"@),
        command_of(arg) == Command::Report <==> (arg != Some("serve"@) && arg != Some("--json"@)),
{
    reveal_strlit("serve");
    reveal_strlit("--json");
    assert("serve"@.len() != "--json"@.len());
}

impl Command {
    /// Selects the mode from the first argument, if there is one.
    pub fn from_arg(arg: Option<&str>) -> (r: Command)
        ensures
            r == command_of(
                match arg {
                    Some(a) => Some(a@),
                    None => None,
                },
            ),
            r == Command::Serve <==> (arg matches Some(a) && a@ =~= "serve"@),
            r == Command::Json <==> (arg matches Some(a) && a@ =~= "--json"@),
            r == Command::Report <==> !(arg matches Some(a) && (a@ =~= "serve"@ || a@ =~= "--json"@)),
    {
        proof {
            lemma_only_exact_words_select_modes(
                match arg {
                    Some(a) => Some(a@),
                    None => None,
                },
            );
        }
        match arg {
            Some(a) => if same_text(a, "serve") {
                Command::Serve
            } else if same_text(a, "--json") {
                Command::Json
            } else {
                Command::Report
            },
            None => Command::Report,
        }
    }
}

} // verus!
