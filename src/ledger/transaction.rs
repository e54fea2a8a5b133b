//! A single movement of money in an account.
use vstd::prelude::*;
use super::money::Money;
use super::category::CategoryId;

verus! {

/// A point in time, in whole seconds since the Unix epoch (UTC).
#[derive(Clone, Copy, Debug, PartialEq, Eq, Structural)]
pub struct Timestamp {
    seconds: i64,
}

impl View for Timestamp {
    type V = int;

    closed spec fn view(&self) -> int {
        self.seconds as int
    }
}

impl Timestamp {
    pub fn from_seconds(seconds: i64) -> (r: Timestamp)
        ensures
            r@ == seconds,
    {
        Timestamp { seconds }
    }

    pub fn seconds(&self) -> (r: i64)
        ensures
            r == self@,
    {
        self.seconds
    }
}

#[derive(Debug)]
pub struct Transaction {
    amount: Money,
    time: Timestamp,
    description: String,
    category: Option<CategoryId>,
}

impl Transaction {
    pub closed spec fn amount_view(&self) -> int {
        self.amount@
    }

    pub closed spec fn time_view(&self) -> int {
        self.time@
    }

    pub closed spec fn description_view(&self) -> Seq<char> {
        self.description@
    }

    pub closed spec fn category_view(&self) -> Option<Seq<char>> {
        match self.category {
            Some(c) => Some(c@),
            None => None,
        }
    }

    pub fn new(amount: Money, time: Timestamp, description: String, category: Option<CategoryId>) -> (r:
        Transaction)
        ensures
            r.amount_view() == amount@,
            r.time_view() == time@,
            r.description_view() == description@,
            r.category_view() == match category {
                Some(c) => Some(c@),
                None => None,
            },
    {
        Transaction { amount, time, description, category }
    }

    pub fn get_amount(&self) -> (r: &Money)
        ensures
            r@ == self.amount_view(),
    {
        &self.amount
    }

    pub fn get_time(&self) -> (r: Timestamp)
        ensures
            r@ == self.time_view(),
    {
        self.time
    }

    pub fn get_description(&self) -> (r: &String)
        ensures
            r@ == self.description_view(),
    {
        &self.description
    }

    pub fn get_category(&self) -> (r: &Option<CategoryId>)
        ensures
            match *r {
                Some(c) => self.category_view() == Some(c@),
                None => self.category_view() is None,
            },
    {
        &self.category
    }
}

} // verus!
