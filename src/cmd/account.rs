//! The command that creates and lists accounts.
use vstd::prelude::*;
use crate::ledger::{Ledger, duplicate_account_message};
use crate::text::eq_ignore_case;
use crate::ledger::account::amounts_sum;
use crate::ledger::money::money_text;
use crate::text::str_eq;
use super::{
    Cmd,
    CmdError,
    CmdErrorType,
    CmdResult,
    SyntaxErrorType,
    is_argument_error,
    is_invalid_subcommand,
    is_missing_param,
    is_missing_subcommand,
    raised_by,
};

verus! {

pub struct Account {}

/// One line per account, in the order they were created: its name and its
/// balance.
pub open spec fn account_listing(accounts: Seq<crate::ledger::account::Account>) -> Seq<char>
    decreases accounts.len(),
{
    if accounts.len() == 0 {
        Seq::empty()
    } else {
        let a = accounts.last();
        account_listing(accounts.drop_last()) + "  "@ + a.name_view() + "\t"@ + money_text(
            amounts_sum(a.transactions_view()),
        ) + "\n"@
    }
}

impl Account {
    pub fn new() -> Account {
        Account {  }
    }
}

impl Cmd for Account {
    open spec fn names_spec(&self) -> Seq<Seq<char>> {
        seq!["account"@, "acc"@, "ac"@]
    }

    open spec fn help_spec(&self) -> Seq<char> {
        "Usage: account [OPTION] ACCOUNT_NAME\nPerform operations on user accounts. \n\nOptions:\n  --new    Create a new account with ACCOUNT_NAME\n  --list   List the existing accounts"@
    }

    open spec fn execute_spec(
        &self,
        args: Seq<Seq<char>>,
        before: Ledger,
        after: Ledger,
        out_before: Seq<char>,
        out_after: Seq<char>,
        r: Result<CmdResult, CmdError>,
    ) -> bool {
        let no_change = after.accounts_view() == before.accounts_view();
        &&& after.categories_view() == before.categories_view()
        &&& if args.len() == 0 {
            &&& r matches Err(e) && raised_by(e, "account"@) && is_missing_subcommand(e)
            &&& no_change
            &&& out_after == out_before
        } else if args[0] == "--new"@ {
            if args.len() < 2 {
                &&& r matches Err(e) && raised_by(e, "account"@) && is_missing_param(
                    e,
                    "Adding a new account requires an name"@,
                )
                &&& no_change
                &&& out_after == out_before
            } else if exists|k: int|
                0 <= k < before.account_names().len() && eq_ignore_case(
                    #[trigger] before.account_names()[k],
                    args[1],
                ) {
                &&& r matches Err(e) && raised_by(e, "account"@) && is_argument_error(
                    e,
                    duplicate_account_message(args[1]),
                )
                &&& no_change
                &&& out_after == out_before
            } else {
                let accounts = after.accounts_view();
                &&& r matches Ok(CmdResult::Continue)
                &&& accounts.drop_last() == before.accounts_view()
                &&& accounts.len() == before.accounts_view().len() + 1
                &&& accounts.last().name_view() == args[1]
                &&& accounts.last().transactions_view().len() == 0
                &&& out_after == out_before + "Created account '"@ + args[1] + "'\n"@
            }
        } else if args[0] == "--list"@ {
            &&& r matches Ok(CmdResult::Continue)
            &&& no_change
            &&& out_after == out_before + account_listing(before.accounts_view())
        } else {
            &&& r matches Err(e) && raised_by(e, "account"@) && is_invalid_subcommand(e, args[0])
            &&& no_change
            &&& out_after == out_before
        }
    }

    fn names(&self) -> Vec<&'static str> {
        vec!["account", "acc", "ac"]
    }

    fn help_text(&self) -> &'static str {
        "Usage: account [OPTION] ACCOUNT_NAME\nPerform operations on user accounts. \n\nOptions:\n  --new    Create a new account with ACCOUNT_NAME\n  --list   List the existing accounts"
    }

    /// `--new NAME` creates an account, `--list` lists them with balances.
    fn execute(&self, args: &[String], ledger: &mut Ledger, out: &mut String) -> (r: Result<
        CmdResult,
        CmdError,
    >)
    {
        proof {
            reveal_strlit("--new");
            reveal_strlit("--list");
            assert("--new"@[2] != "--list"@[2]);
        }
        if args.len() == 0 {
            return Err(
                CmdError::new("account", CmdErrorType::Syntax(SyntaxErrorType::MissingSubcommand)),
            );
        }
        let sub = args[0].as_str();
        if str_eq(sub, "--new") {
            if args.len() < 2 {
                return Err(
                    CmdError::new(
                        "account",
                        CmdErrorType::Syntax(
                            SyntaxErrorType::MissingParam(
                                String::from_str("Adding a new account requires an name"),
                            ),
                        ),
                    ),
                );
            }
            let name = args[1].clone();
            match ledger.add_new_account(name) {
                Ok(()) => {
                    out.append("Created account '");
                    out.append(args[1].as_str());
                    out.append("'\n");
                    Ok(CmdResult::Continue)
                },
                Err(m) => Err(CmdError::new("account", CmdErrorType::Argument(m))),
            }
        } else if str_eq(sub, "--list") {
            let accounts = ledger.get_accounts();
            let mut i: usize = 0;
            assert(accounts@.subrange(0, 0) =~= Seq::<crate::ledger::account::Account>::empty());
            while i < accounts.len()
                invariant
                    i <= accounts@.len(),
                    forall|k: int| 0 <= k < accounts@.len() ==> (#[trigger] accounts@[k]).wf(),
                    out@ == old(out)@ + account_listing(accounts@.subrange(0, i as int)),
                decreases accounts@.len() - i,
            {
                let a = &accounts[i];
                out.append("  ");
                out.append(a.get_name().as_str());
                out.append("\t");
                out.append(a.get_total().to_display_string().as_str());
                out.append("\n");
                assert(accounts@.subrange(0, i + 1).drop_last() =~= accounts@.subrange(0, i as int));
                i = i + 1;
            }
            assert(accounts@.subrange(0, i as int) =~= accounts@);
            Ok(CmdResult::Continue)
        } else {
            Err(
                CmdError::new(
                    "account",
                    CmdErrorType::Syntax(SyntaxErrorType::InvalidSubcommand(args[0].clone())),
                ),
            )
        }
    }
}

} // verus!
