//! The command that records a transaction in an account.
use vstd::prelude::*;
use crate::ledger::{Ledger, first_match};
use crate::ledger::account::amounts_sum;
use crate::ledger::category::CategoryId;
use crate::ledger::money::Money;
use crate::ledger::transaction::Timestamp;
use crate::text::eq_ignore_case;
use super::{
    CmdError,
    CmdErrorType,
    CmdResult,
    SyntaxErrorType,
    is_argument_error,
    is_dependency_error,
    is_missing_param,
    raised_by,
};

verus! {

/// The `transaction` command. Its amount argument is a decimal number of
/// dollars that the host parses, and the host reads the clock; `record`
/// takes both and does the rest.
pub struct Transaction {}

/// The category named by the arguments, if any.
pub open spec fn named_category(args: Seq<Seq<char>>) -> Option<Seq<char>> {
    if args.len() > 3 {
        Some(args[3])
    } else {
        None
    }
}

pub open spec fn usage_message() -> Seq<char> {
    "Invalid format. Usage: `transaction [account_name] [amount] [description]`"@
}

pub open spec fn unknown_category_message(name: Seq<char>) -> Seq<char> {
    "No category named '"@ + name + "'"@
}

pub open spec fn unknown_account_message(name: Seq<char>) -> Seq<char> {
    "Could not find account named '"@ + name + "'"@
}

pub open spec fn balance_overflow_message(name: Seq<char>) -> Seq<char> {
    "The balance of account '"@ + name + "' cannot hold this amount"@
}

pub open spec fn arg_views(args: Seq<String>) -> Seq<Seq<char>> {
    args.map_values(|s: String| s@)
}

impl Transaction {
    pub fn new() -> Transaction {
        Transaction {  }
    }

    pub fn names(&self) -> Vec<&'static str> {
        vec!["transaction", "tr"]
    }

    pub fn help_text(&self) -> &'static str {
        "Usage: transaction ACCOUNT AMOUNT DESCRIPTION [CATEGORY]\nCreates a new transaction entry in ACCOUNT. \n"
    }

    /// Records a transaction of `amount`, stamped with `time`, in the account
    /// named by the first argument (compared up to ASCII case). The arguments
    /// are the account, the amount as typed, the description, and optionally
    /// a category; `amount` is what parsing the second argument gave, and
    /// `time` is the current time.
    pub fn record(
        &self,
        args: &[String],
        amount: Result<Money, String>,
        time: Timestamp,
        ledger: &mut Ledger,
    ) -> (r:
        Result<CmdResult, CmdError>)
        requires
            old(ledger).wf(),
        ensures
            final(ledger).wf(),
            final(ledger).categories_view() == old(ledger).categories_view(),
            r is Err ==> final(ledger).accounts_view() == old(ledger).accounts_view(),
            ({
                let a = arg_views(args@);
                let names = old(ledger).account_names();
                let accounts = old(ledger).accounts_view();
                if a.len() < 3 {
                    r matches Err(e) && raised_by(e, "transaction"@) && is_missing_param(
                        e,
                        usage_message(),
                    )
                } else if amount is Err {
                    r matches Err(e) && raised_by(e, "transaction"@) && is_dependency_error(
                        e,
                        amount->Err_0@,
                    )
                } else if a.len() > 3 && !old(ledger).categories_view()@.contains(a[3]) {
                    r matches Err(e) && raised_by(e, "transaction"@) && is_argument_error(
                        e,
                        unknown_category_message(a[3]),
                    )
                } else if forall|k: int|
                    0 <= k < names.len() ==> !eq_ignore_case(#[trigger] names[k], a[0]) {
                    r matches Err(e) && raised_by(e, "transaction"@) && is_argument_error(
                        e,
                        unknown_account_message(a[0]),
                    )
                } else {
                    forall|i: int|
                        #![trigger first_match(names, a[0], i)]
                        first_match(names, a[0], i) ==> {
                            let old_ts = accounts[i].transactions_view();
                            let amt = amount->Ok_0@;
                            if i64::MIN <= amounts_sum(old_ts) + amt <= i64::MAX {
                                let new_accounts = final(ledger).accounts_view();
                                let new_acct = new_accounts[i];
                                let t = new_acct.transactions_view().last();
                                &&& r matches Ok(CmdResult::Continue)
                                &&& new_accounts.len() == accounts.len()
                                &&& forall|k: int|
                                    0 <= k < accounts.len() && k != i ==> #[trigger] new_accounts[k]
                                        == accounts[k]
                                &&& new_acct.name_view() == accounts[i].name_view()
                                &&& new_acct.transactions_view().drop_last() == old_ts
                                &&& new_acct.transactions_view().len() == old_ts.len() + 1
                                &&& t.amount_view() == amt
                                &&& t.time_view() == time@
                                &&& t.description_view() == a[2]
                                &&& t.category_view() == named_category(a)
                            } else {
                                r matches Err(e) && raised_by(e, "transaction"@) && is_argument_error(
                                    e,
                                    balance_overflow_message(a[0]),
                                )
                            }
                        }
                }
            }),
    {
        let ghost a = arg_views(args@);
        if args.len() < 3 {
            return Err(
                CmdError::new(
                    "transaction",
                    CmdErrorType::Syntax(
                        SyntaxErrorType::MissingParam(
                            String::from_str(
                                "Invalid format. Usage: `transaction [account_name] [amount] [description]`",
                            ),
                        ),
                    ),
                ),
            );
        }
        let amount = match amount {
            Ok(m) => m,
            Err(m) => {
                return Err(CmdError::new("transaction", CmdErrorType::Dependency(m)));
            },
        };
        let category = if args.len() > 3 {
            let id = CategoryId::new(args[3].clone());
            if ledger.get_transaction_categories().get_category(&id).is_none() {
                let mut msg = String::from_str("No category named '");
                msg.append(args[3].as_str());
                msg.append("'");
                return Err(CmdError::new("transaction", CmdErrorType::Argument(msg)));
            }
            Some(id)
        } else {
            None
        };
        let index = match ledger.find_account(args[0].as_str()) {
            Some(i) => i,
            None => {
                let mut msg = String::from_str("Could not find account named '");
                msg.append(args[0].as_str());
                msg.append("'");
                return Err(CmdError::new("transaction", CmdErrorType::Argument(msg)));
            },
        };
        proof {
            let names = ledger.account_names();
            assert forall|i: int| #[trigger] first_match(names, a[0], i) implies i == index by {
                if i < index {
                    assert(!eq_ignore_case(names[i], a[0]));
                } else if i > index {
                    assert(!eq_ignore_case(names[index as int], a[0]));
                }
            }
        }
        let accounts = ledger.get_accounts();
        if !accounts[index].can_add(amount) {
            let mut msg = String::from_str("The balance of account '");
            msg.append(args[0].as_str());
            msg.append("' cannot hold this amount");
            return Err(CmdError::new("transaction", CmdErrorType::Argument(msg)));
        }
        let entry = crate::ledger::transaction::Transaction::new(
            amount,
            time,
            args[2].clone(),
            category,
        );
        ledger.add_transaction_to(index, entry);
        Ok(CmdResult::Continue)
    }
}

} // verus!
