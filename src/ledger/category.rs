//! Transaction categories, identified by unique names.
use vstd::prelude::*;

verus! {

#[derive(Debug)]
pub struct CategoryId(String);

impl View for CategoryId {
    type V = Seq<char>;

    closed spec fn view(&self) -> Seq<char> {
        self.0@
    }
}

impl CategoryId {
    pub fn new(value: String) -> (r: CategoryId)
        ensures
            r@ == value@,
    {
        CategoryId(value)
    }

    pub fn as_string(&self) -> (r: &String)
        ensures
            r@ == self@,
    {
        &self.0
    }
}

#[derive(Debug)]
pub struct TransactionCategory {
    id: CategoryId,
}

impl View for TransactionCategory {
    type V = Seq<char>;

    closed spec fn view(&self) -> Seq<char> {
        self.id@
    }
}

impl TransactionCategory {
    pub fn name(&self) -> (r: &String)
        ensures
            r@ == self@,
    {
        &self.id.0
    }
}

#[derive(Debug)]
pub struct TransactionCategories {
    category_set: Vec<TransactionCategory>,
}

pub open spec fn category_views(v: Seq<TransactionCategory>) -> Seq<Seq<char>> {
    v.map_values(|c: TransactionCategory| c@)
}

/// The message for a category that exists already.
pub open spec fn duplicate_category_message(id: Seq<char>) -> Seq<char> {
    "Category "@ + id + " already exists"@
}

impl View for TransactionCategories {
    type V = Seq<Seq<char>>;

    /// The category names, in the order they were created.
    closed spec fn view(&self) -> Seq<Seq<char>> {
        category_views(self.category_set@)
    }
}

impl TransactionCategories {
    /// No two categories share a name.
    pub open spec fn wf(&self) -> bool {
        forall|i: int, j: int|
            0 <= i < self@.len() && 0 <= j < self@.len() && i != j ==> #[trigger] self@[i]
                != #[trigger] self@[j]
    }

    pub fn new_empty() -> (r: TransactionCategories)
        ensures
            r.wf(),
            r@ == Seq::<Seq<char>>::empty(),
    {
        let r = TransactionCategories { category_set: Vec::new() };
        assert(r@ =~= Seq::<Seq<char>>::empty());
        r
    }

    fn index_of(&self, id: &String) -> (r: Option<usize>)
        ensures
            match r {
                Some(i) => i < self@.len() && self@[i as int] == id@,
                None => !self@.contains(id@),
            },
    {
        let mut i: usize = 0;
        while i < self.category_set.len()
            invariant
                i <= self.category_set@.len(),
                self@.len() == self.category_set@.len(),
                forall|k: int| 0 <= k < i ==> self@[k] != id@,
            decreases self.category_set@.len() - i,
        {
            if self.category_set[i].id.0 == *id {
                return Some(i);
            }
            i = i + 1;
        }
        None
    }

    /// Adds a category named `id`, unless one exists already.
    pub fn create_category(&mut self, id: String) -> (r: Result<(), String>)
        requires
            old(self).wf(),
        ensures
            final(self).wf(),
            match r {
                Ok(()) => !old(self)@.contains(id@) && final(self)@ == old(self)@.push(id@),
                Err(msg) => old(self)@.contains(id@) && final(self)@ == old(self)@
                    && msg@ == duplicate_category_message(id@),
            },
    {
        if self.index_of(&id).is_some() {
            let mut msg = String::from_str("Category ");
            msg.append(id.as_str());
            msg.append(" already exists");
            return Err(msg);
        }
        let ghost v = id@;
        self.category_set.push(TransactionCategory { id: CategoryId(id) });
        assert(self@ =~= old(self)@.push(v));
        Ok(())
    }

    /// The categories, in the order they were created.
    pub fn categories(&self) -> (r: &Vec<TransactionCategory>)
        ensures
            category_views(r@) == self@,
    {
        &self.category_set
    }

    pub fn get_category(&self, id: &CategoryId) -> (r: Option<&TransactionCategory>)
        ensures
            match r {
                Some(c) => c@ == id@ && self@.contains(id@),
                None => !self@.contains(id@),
            },
    {
        match self.index_of(&id.0) {
            Some(i) => Some(&self.category_set[i]),
            None => None,
        }
    }
}

} // verus!
