//! The command that creates and lists transaction categories.
use vstd::prelude::*;
use crate::ledger::Ledger;
use crate::ledger::category::duplicate_category_message;
use crate::text::{ascii_lower_seq, str_eq, to_ascii_lowercase, trim, trim_whitespace};
use super::{
    Cmd,
    CmdError,
    CmdErrorType,
    CmdResult,
    SyntaxErrorType,
    is_argument_error,
    is_invalid_subcommand,
    is_missing_param,
    is_missing_subcommand,
    raised_by,
};

verus! {

pub struct Category {}

/// One line per category, in the order they were created.
pub open spec fn category_listing(names: Seq<Seq<char>>) -> Seq<char>
    decreases names.len(),
{
    if names.len() == 0 {
        Seq::empty()
    } else {
        category_listing(names.drop_last()) + "  "@ + names.last() + "\n"@
    }
}

/// The name under which a category is created: trimmed, ASCII lower case.
pub open spec fn category_key(name: Seq<char>) -> Seq<char> {
    ascii_lower_seq(trim(name))
}

impl Category {
    pub fn new() -> Category {
        Category {  }
    }
}

impl Cmd for Category {
    open spec fn names_spec(&self) -> Seq<Seq<char>> {
        seq!["category"@, "cat"@]
    }

    open spec fn help_spec(&self) -> Seq<char> {
        "Usage: category [OPTION] CATEGORY_NAME\nAdd new transaction caregories or list existing ones\n\nOptions:\n  --new   Create a new category with CATEGORY_NAME.\n  --list  List existing transaction categories"@
    }

    open spec fn execute_spec(
        &self,
        args: Seq<Seq<char>>,
        before: Ledger,
        after: Ledger,
        out_before: Seq<char>,
        out_after: Seq<char>,
        r: Result<CmdResult, CmdError>,
    ) -> bool {
        let no_change = after.categories_view() == before.categories_view();
        &&& after.accounts_view() == before.accounts_view()
        &&& if args.len() == 0 {
            &&& r matches Err(e) && raised_by(e, "category"@) && is_missing_subcommand(e)
            &&& no_change
            &&& out_after == out_before
        } else if args[0] == "--new"@ {
            &&& out_after == out_before
            &&& if args.len() < 2 {
                &&& r matches Err(e) && raised_by(e, "category"@) && is_missing_param(
                    e,
                    "Must provide transaction category name"@,
                )
                &&& no_change
            } else {
                let key = category_key(args[1]);
                let cats = before.categories_view()@;
                if cats.contains(key) {
                    &&& r matches Err(e) && raised_by(e, "category"@) && is_argument_error(
                        e,
                        duplicate_category_message(key),
                    )
                    &&& after.categories_view()@ == cats
                } else {
                    &&& r matches Ok(CmdResult::Continue)
                    &&& after.categories_view()@ == cats.push(key)
                }
            }
        } else if args[0] == "--list"@ {
            &&& r matches Ok(CmdResult::Continue)
            &&& no_change
            &&& out_after == out_before + category_listing(before.categories_view()@)
        } else {
            &&& r matches Err(e) && raised_by(e, "category"@) && is_invalid_subcommand(e, args[0])
            &&& no_change
            &&& out_after == out_before
        }
    }

    fn names(&self) -> Vec<&'static str> {
        vec!["category", "cat"]
    }

    fn help_text(&self) -> &'static str {
        "Usage: category [OPTION] CATEGORY_NAME\nAdd new transaction caregories or list existing ones\n\nOptions:\n  --new   Create a new category with CATEGORY_NAME.\n  --list  List existing transaction categories"
    }

    /// `--new NAME` creates a category, `--list` lists them.
    fn execute(&self, args: &[String], ledger: &mut Ledger, out: &mut String) -> (r: Result<
        CmdResult,
        CmdError,
    >)
    {
        proof {
            reveal_strlit("--new");
            reveal_strlit("--list");
            assert("--new"@[2] != "--list"@[2]);
        }
        if args.len() == 0 {
            return Err(
                CmdError::new("category", CmdErrorType::Syntax(SyntaxErrorType::MissingSubcommand)),
            );
        }
        let sub = args[0].as_str();
        if str_eq(sub, "--new") {
            if args.len() < 2 {
                return Err(
                    CmdError::new(
                        "category",
                        CmdErrorType::Syntax(
                            SyntaxErrorType::MissingParam(
                                String::from_str("Must provide transaction category name"),
                            ),
                        ),
                    ),
                );
            }
            let trimmed = trim_whitespace(args[1].as_str());
            let key = to_ascii_lowercase(trimmed.as_str());
            match ledger.get_transaction_categories_mut().create_category(key) {
                Ok(()) => Ok(CmdResult::Continue),
                Err(e) => Err(CmdError::new("category", CmdErrorType::Argument(e))),
            }
        } else if str_eq(sub, "--list") {
            let categories = ledger.get_transaction_categories().categories();
            let ghost names = ledger.categories_view()@;
            let mut i: usize = 0;
            assert(names.subrange(0, 0) =~= Seq::<Seq<char>>::empty());
            while i < categories.len()
                invariant
                    i <= categories@.len(),
                    names.len() == categories@.len(),
                    forall|k: int| 0 <= k < names.len() ==> names[k] == (#[trigger] categories@[k])@,
                    out@ == old(out)@ + category_listing(names.subrange(0, i as int)),
                decreases categories@.len() - i,
            {
                out.append("  ");
                out.append(categories[i].name().as_str());
                out.append("\n");
                assert(names.subrange(0, i + 1).drop_last() =~= names.subrange(0, i as int));
                i = i + 1;
            }
            assert(names.subrange(0, i as int) =~= names);
            Ok(CmdResult::Continue)
        } else {
            Err(
                CmdError::new(
                    "category",
                    CmdErrorType::Syntax(SyntaxErrorType::InvalidSubcommand(args[0].clone())),
                ),
            )
        }
    }
}

} // verus!
