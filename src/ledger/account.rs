//! An account: a name and the transactions recorded in it.
use vstd::prelude::*;
use super::money::Money;
use super::transaction::Transaction;

verus! {

/// The sum, in cents, of the amounts of `ts`.
pub open spec fn amounts_sum(ts: Seq<Transaction>) -> int
    decreases ts.len(),
{
    if ts.len() == 0 {
        0
    } else {
        amounts_sum(ts.drop_last()) + ts.last().amount_view()
    }
}

pub struct Account {
    transactions: Vec<Transaction>,
    name: String,
    total: i64,
}

impl Account {
    /// The running total matches the transactions.
    pub closed spec fn wf(&self) -> bool {
        self.total == amounts_sum(self.transactions@)
    }

    pub closed spec fn name_view(&self) -> Seq<char> {
        self.name@
    }

    pub closed spec fn transactions_view(&self) -> Seq<Transaction> {
        self.transactions@
    }

    pub fn new_empty(name: String) -> (r: Account)
        ensures
            r.wf(),
            r.name_view() == name@,
            r.transactions_view() == Seq::<Transaction>::empty(),
    {
        Account { name, transactions: Vec::new(), total: 0 }
    }

    pub fn get_name(&self) -> (r: &String)
        ensures
            r@ == self.name_view(),
    {
        &self.name
    }

    pub fn get_transactions(&self) -> (r: &Vec<Transaction>)
        ensures
            r@ == self.transactions_view(),
    {
        &self.transactions
    }

    /// The sum of the amounts of all transactions.
    pub fn get_total(&self) -> (r: Money)
        requires
            self.wf(),
        ensures
            r@ == amounts_sum(self.transactions_view()),
    {
        Money::new(self.total)
    }

    /// Whether `amount` can be recorded without the total leaving the range
    /// of `Money`.
    pub fn can_add(&self, amount: Money) -> (r: bool)
        requires
            self.wf(),
        ensures
            r == (i64::MIN <= amounts_sum(self.transactions_view()) + amount@ <= i64::MAX),
    {
        self.total.checked_add(amount.cents()).is_some()
    }

    pub fn add_transaction(&mut self, transaction: Transaction)
        requires
            old(self).wf(),
            i64::MIN <= amounts_sum(old(self).transactions_view()) + transaction.amount_view()
                <= i64::MAX,
        ensures
            final(self).wf(),
            final(self).name_view() == old(self).name_view(),
            final(self).transactions_view() == old(self).transactions_view().push(transaction),
    {
        let amount = transaction.get_amount().cents();
        self.total = self.total + amount;
        self.transactions.push(transaction);
        assert(self.transactions@.drop_last() =~= old(self).transactions@);
    }
}

} // verus!
