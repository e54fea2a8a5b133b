//! The command that replaces the ledger by the stored one.
use vstd::prelude::*;
use crate::ledger::Ledger;
use super::{Cmd, CmdError, CmdResult};

verus! {

pub struct Load {}

impl Load {
    pub fn new() -> Load {
        Load {  }
    }
}

impl Cmd for Load {
    open spec fn names_spec(&self) -> Seq<Seq<char>> {
        seq!["load"@]
    }

    open spec fn help_spec(&self) -> Seq<char> {
        "Usage: load\nLoads saved data from disk."@
    }

    open spec fn execute_spec(
        &self,
        args: Seq<Seq<char>>,
        before: Ledger,
        after: Ledger,
        out_before: Seq<char>,
        out_after: Seq<char>,
        r: Result<CmdResult, CmdError>,
    ) -> bool {
        &&& r matches Ok(CmdResult::LoadRequested)
        &&& after == before
        &&& out_after == out_before + "Loading user data...\n"@
    }

    fn names(&self) -> Vec<&'static str> {
        vec!["load"]
    }

    fn help_text(&self) -> &'static str {
        "Usage: load\nLoads saved data from disk."
    }

    /// Announces the load and asks the session to perform it.
    fn execute(&self, args: &[String], ledger: &mut Ledger, out: &mut String) -> (r: Result<
        CmdResult,
        CmdError,
    >)
    {
        out.append("Loading user data...\n");
        Ok(CmdResult::LoadRequested)
    }
}

} // verus!
