//! The command that writes the ledger to storage.
use vstd::prelude::*;
use crate::ledger::Ledger;
use super::{Cmd, CmdError, CmdResult};

verus! {

pub struct Store {}

impl Store {
    pub fn new() -> Store {
        Store {  }
    }
}

impl Cmd for Store {
    open spec fn names_spec(&self) -> Seq<Seq<char>> {
        seq!["store"@, "save"@]
    }

    open spec fn help_spec(&self) -> Seq<char> {
        "Usage: store\nSaves data to disk."@
    }

    open spec fn execute_spec(
        &self,
        args: Seq<Seq<char>>,
        before: Ledger,
        after: Ledger,
        out_before: Seq<char>,
        out_after: Seq<char>,
        r: Result<CmdResult, CmdError>,
    ) -> bool {
        &&& r matches Ok(CmdResult::StoreRequested)
        &&& after == before
        &&& out_after == out_before + "Saving user data...\n"@
    }

    fn names(&self) -> Vec<&'static str> {
        vec!["store", "save"]
    }

    fn help_text(&self) -> &'static str {
        "Usage: store\nSaves data to disk."
    }

    /// Announces the save and asks the session to perform it.
    fn execute(&self, args: &[String], ledger: &mut Ledger, out: &mut String) -> (r: Result<
        CmdResult,
        CmdError,
    >)
    {
        out.append("Saving user data...\n");
        Ok(CmdResult::StoreRequested)
    }
}

} // verus!
