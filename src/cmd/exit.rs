//! The command that ends the session.
use vstd::prelude::*;
use crate::ledger::Ledger;
use super::{Cmd, CmdError, CmdResult};

verus! {

pub struct Exit {}

impl Exit {
    pub fn new() -> Exit {
        Exit {  }
    }
}

impl Cmd for Exit {
    open spec fn names_spec(&self) -> Seq<Seq<char>> {
        seq!["exit"@, "ex"@, "quit"@]
    }

    open spec fn help_spec(&self) -> Seq<char> {
        "Usage: exit\nExits the application."@
    }

    open spec fn execute_spec(
        &self,
        args: Seq<Seq<char>>,
        before: Ledger,
        after: Ledger,
        out_before: Seq<char>,
        out_after: Seq<char>,
        r: Result<CmdResult, CmdError>,
    ) -> bool {
        &&& r matches Ok(CmdResult::SignalTerminate)
        &&& after == before
        &&& out_after == out_before + "Exiting...\n"@
    }

    fn names(&self) -> Vec<&'static str> {
        vec!["exit", "ex", "quit"]
    }

    fn help_text(&self) -> &'static str {
        "Usage: exit\nExits the application."
    }

    /// Says goodbye and asks the session to end.
    fn execute(&self, args: &[String], ledger: &mut Ledger, out: &mut String) -> (r: Result<
        CmdResult,
        CmdError,
    >)
    {
        out.append("Exiting...\n");
        Ok(CmdResult::SignalTerminate)
    }
}

} // verus!
