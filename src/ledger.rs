//! The user's financial data: accounts with their transactions, and the set
//! of transaction categories.
use vstd::prelude::*;
use crate::text::{eq_ignore_case, eq_ignore_ascii_case};
use crate::history::distinct_ignoring_case;

pub mod account;
pub mod category;
pub mod money;
pub mod transaction;

use account::{Account, amounts_sum};
use transaction::Transaction;
use category::TransactionCategories;

verus! {

pub struct Ledger {
    accounts: Vec<Account>,
    categories: TransactionCategories,
}

/// The first index in `names` whose entry equals `name` up to ASCII case.
pub open spec fn first_match(names: Seq<Seq<char>>, name: Seq<char>, i: int) -> bool {
    &&& 0 <= i < names.len()
    &&& eq_ignore_case(names[i], name)
    &&& forall|k: int| 0 <= k < i ==> !eq_ignore_case(#[trigger] names[k], name)
}

/// The message for an account name that is taken already.
pub open spec fn duplicate_account_message(name: Seq<char>) -> Seq<char> {
    "Account '"@ + name + "' already exists"@
}

impl Ledger {
    /// Every account's cached total matches its transactions, no two
    /// account names are equal up to ASCII case, and category names are
    /// unique.
    pub closed spec fn wf(&self) -> bool {
        &&& forall|i: int| 0 <= i < self.accounts@.len() ==> (#[trigger] self.accounts@[i]).wf()
        &&& distinct_ignoring_case(self.account_names())
        &&& self.categories.wf()
    }

    /// The names of the accounts, in the order they were created.
    pub open spec fn account_names(&self) -> Seq<Seq<char>> {
        self.accounts_view().map_values(|a: Account| a.name_view())
    }

    pub closed spec fn accounts_view(&self) -> Seq<Account> {
        self.accounts@
    }

    pub closed spec fn categories_view(&self) -> TransactionCategories {
        self.categories
    }

    pub fn new_empty() -> (r: Ledger)
        ensures
            r.wf(),
            r.accounts_view() == Seq::<Account>::empty(),
            r.categories_view()@ == Seq::<Seq<char>>::empty(),
    {
        Ledger { accounts: Vec::new(), categories: TransactionCategories::new_empty() }
    }

    /// Adds an account with no transactions, unless an account of that name
    /// (compared up to ASCII case) exists already.
    pub fn add_new_account(&mut self, name: String) -> (r: Result<(), String>)
        requires
            old(self).wf(),
        ensures
            final(self).wf(),
            final(self).categories_view() == old(self).categories_view(),
            if exists|k: int|
                0 <= k < old(self).account_names().len() && eq_ignore_case(
                    #[trigger] old(self).account_names()[k],
                    name@,
                ) {
                &&& r matches Err(m) && m@ == duplicate_account_message(name@)
                &&& final(self).accounts_view() == old(self).accounts_view()
            } else {
                &&& r is Ok
                &&& final(self).accounts_view().len() == old(self).accounts_view().len() + 1
                &&& final(self).accounts_view().drop_last() == old(self).accounts_view()
                &&& final(self).accounts_view().last().name_view() == name@
                &&& final(self).accounts_view().last().transactions_view().len() == 0
            },
    {
        if let Some(i) = self.find_account(name.as_str()) {
            assert(eq_ignore_case(self.account_names()[i as int], name@));
            let mut msg = String::from_str("Account '");
            msg.append(name.as_str());
            msg.append("' already exists");
            return Err(msg);
        }
        let ghost nv = name@;
        let account = Account::new_empty(name);
        self.accounts.push(account);
        assert(self.accounts@.drop_last() =~= old(self).accounts@);
        proof {
            let names = self.account_names();
            let old_names = old(self).account_names();
            assert(names.drop_last() =~= old_names);
            assert(names.last() == nv);
            assert forall|i: int, j: int|
                0 <= i < names.len() && 0 <= j < names.len() && i != j implies !eq_ignore_case(
                #[trigger] names[i],
                #[trigger] names[j],
            ) by {
                if i < old_names.len() && j < old_names.len() {
                    assert(names[i] == old_names[i] && names[j] == old_names[j]);
                } else if i < old_names.len() {
                    assert(names[i] == old_names[i]);
                    assert(!eq_ignore_case(old_names[i], nv));
                } else {
                    assert(names[j] == old_names[j]);
                    assert(!eq_ignore_case(old_names[j], nv));
                }
            }
        }
        Ok(())
    }

    pub fn get_accounts(&self) -> (r: &Vec<Account>)
        ensures
            r@ == self.accounts_view(),
            self.wf() ==> forall|i: int| 0 <= i < r@.len() ==> (#[trigger] r@[i]).wf(),
    {
        &self.accounts
    }

    /// The index of the first account whose name equals `name` up to ASCII
    /// case.
    pub fn find_account(&self, name: &str) -> (r: Option<usize>)
        ensures
            match r {
                Some(i) => first_match(self.account_names(), name@, i as int),
                None => forall|k: int|
                    0 <= k < self.account_names().len() ==> !eq_ignore_case(
                        #[trigger] self.account_names()[k],
                        name@,
                    ),
            },
    {
        let mut i: usize = 0;
        while i < self.accounts.len()
            invariant
                i <= self.accounts@.len(),
                self.account_names().len() == self.accounts@.len(),
                forall|k: int| 0 <= k < i ==> !eq_ignore_case(#[trigger] self.account_names()[k], name@),
            decreases self.accounts@.len() - i,
        {
            if eq_ignore_ascii_case(self.accounts[i].get_name().as_str(), name) {
                return Some(i);
            }
            i = i + 1;
        }
        None
    }

    /// The first account whose name equals `name` up to ASCII case.
    pub fn get_account_by_name_mut(&mut self, name: &str) -> (r: Option<&mut Account>)
        ensures
            match r {
                Some(a) => exists|i: int|
                    #![trigger first_match(old(self).account_names(), name@, i)]
                    {
                        &&& first_match(old(self).account_names(), name@, i)
                        &&& *a == old(self).accounts_view()[i]
                        &&& final(self).accounts_view() == old(self).accounts_view().update(i, *final(a))
                        &&& (old(self).wf() ==> a.wf())
                    },
                None => forall|k: int|
                    0 <= k < old(self).account_names().len() ==> !eq_ignore_case(
                        #[trigger] old(self).account_names()[k],
                        name@,
                    ),
            },
            final(self).categories_view() == old(self).categories_view(),
    {
        match self.find_account(name) {
            Some(i) => {
                assert(first_match(old(self).account_names(), name@, i as int));
                Some(&mut self.accounts[i])
            },
            None => None,
        }
    }

    /// Records a transaction in the account at `index`.
    pub fn add_transaction_to(&mut self, index: usize, transaction: Transaction)
        requires
            old(self).wf(),
            index < old(self).accounts_view().len(),
            i64::MIN <= amounts_sum(old(self).accounts_view()[index as int].transactions_view())
                + transaction.amount_view() <= i64::MAX,
        ensures
            final(self).wf(),
            final(self).categories_view() == old(self).categories_view(),
            final(self).accounts_view().len() == old(self).accounts_view().len(),
            forall|k: int|
                0 <= k < old(self).accounts_view().len() && k != index ==> (
                #[trigger] final(self).accounts_view()[k]) == old(self).accounts_view()[k],
            final(self).accounts_view()[index as int].name_view() == old(self).accounts_view()[index as int].name_view(),
            final(self).accounts_view()[index as int].transactions_view() == old(self).accounts_view()[index as int].transactions_view().push(transaction),
    {
        self.accounts[index].add_transaction(transaction);
        assert(self.account_names() =~= old(self).account_names());
    }

    pub fn get_transaction_categories(&self) -> (r: &TransactionCategories)
        ensures
            *r == self.categories_view(),
            self.wf() ==> r.wf(),
    {
        &self.categories
    }

    pub fn get_transaction_categories_mut(&mut self) -> (r: &mut TransactionCategories)
        ensures
            *r == old(self).categories_view(),
            final(self).categories_view() == *final(r),
            final(self).accounts_view() == old(self).accounts_view(),
            old(self).wf() ==> r.wf(),
            old(self).wf() && final(r).wf() ==> final(self).wf(),
    {
        &mut self.categories
    }
}

} // verus!
