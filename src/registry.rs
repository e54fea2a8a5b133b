//! The command registry: the names (primary name first, then aliases) and
//! help text of each command, in registration order. A name resolves to the
//! last registered command that declares it.
use vstd::prelude::*;
use crate::text::str_eq;
use crate::tokenizer::string_views;

verus! {

/// Command `i` is the one `name` resolves to: the last one that declares it.
pub open spec fn resolves(lists: Seq<Seq<Seq<char>>>, name: Seq<char>, i: int) -> bool {
    &&& 0 <= i < lists.len()
    &&& lists[i].contains(name)
    &&& forall|j: int| i < j < lists.len() ==> !(#[trigger] lists[j]).contains(name)
}

/// Some command declares `name`.
pub open spec fn is_registered(lists: Seq<Seq<Seq<char>>>, name: Seq<char>) -> bool {
    exists|i: int| 0 <= i < lists.len() && (#[trigger] lists[i]).contains(name)
}

/// `items` separated by `sep`.
pub open spec fn join(items: Seq<Seq<char>>, sep: Seq<char>) -> Seq<char>
    decreases items.len(),
{
    if items.len() == 0 {
        Seq::empty()
    } else if items.len() == 1 {
        items[0]
    } else {
        join(items.drop_last(), sep) + sep + items.last()
    }
}

/// The line of the command listing for a command with these names.
pub open spec fn listing_line(names: Seq<Seq<char>>) -> Seq<char> {
    if names.len() == 0 {
        Seq::empty()
    } else if names.len() == 1 {
        "  "@ + names[0] + "\n"@
    } else {
        "  "@ + names[0] + "  ("@ + join(names.skip(1), ", "@) + ")\n"@
    }
}

pub open spec fn listing_lines(lists: Seq<Seq<Seq<char>>>) -> Seq<char>
    decreases lists.len(),
{
    if lists.len() == 0 {
        Seq::empty()
    } else {
        listing_lines(lists.drop_last()) + listing_line(lists.last())
    }
}

/// The full command listing printed by `help`.
pub open spec fn help_listing_text(lists: Seq<Seq<Seq<char>>>) -> Seq<char> {
    "The following commands are available:\n\n"@ + listing_lines(lists)
        + "\n'help COMMAND' will list detailed information on a given command.\n"@
}

pub open spec fn str_views(v: Seq<&str>) -> Seq<Seq<char>> {
    v.map_values(|s: &str| s@)
}

pub struct CommandRegistry {
    names: Vec<Vec<String>>,
    help_texts: Vec<String>,
}

impl CommandRegistry {
    /// The names of each command, in registration order.
    pub closed spec fn names_view(&self) -> Seq<Seq<Seq<char>>> {
        self.names@.map_values(|v: Vec<String>| string_views(v@))
    }

    /// The help text of each command, in registration order.
    pub closed spec fn help_view(&self) -> Seq<Seq<char>> {
        string_views(self.help_texts@)
    }

    pub closed spec fn wf(&self) -> bool {
        self.names@.len() == self.help_texts@.len()
    }

    pub fn new() -> (r: CommandRegistry)
        ensures
            r.wf(),
            r.names_view() == Seq::<Seq<Seq<char>>>::empty(),
            r.help_view() == Seq::<Seq<char>>::empty(),
    {
        let r = CommandRegistry { names: Vec::new(), help_texts: Vec::new() };
        assert(r.names_view() =~= Seq::<Seq<Seq<char>>>::empty());
        assert(r.help_view() =~= Seq::<Seq<char>>::empty());
        r
    }

    pub fn len(&self) -> (r: usize)
        requires
            self.wf(),
        ensures
            r == self.names_view().len(),
            r == self.help_view().len(),
    {
        self.names.len()
    }

    /// Adds a command with these names and help text.
    pub fn register(&mut self, names: Vec<&'static str>, help_text: &'static str)
        requires
            old(self).wf(),
        ensures
            final(self).wf(),
            final(self).names_view() == old(self).names_view().push(str_views(names@)),
            final(self).help_view() == old(self).help_view().push(help_text@),
    {
        let mut owned: Vec<String> = Vec::new();
        let mut i: usize = 0;
        while i < names.len()
            invariant
                i <= names@.len(),
                string_views(owned@) =~= str_views(names@).subrange(0, i as int),
            decreases names@.len() - i,
        {
            let ghost before = owned@;
            let s = String::from_str(names[i]);
            let ghost sv = s@;
            owned.push(s);
            assert(string_views(owned@) =~= string_views(before).push(sv));
            i = i + 1;
        }
        assert(str_views(names@).subrange(0, names@.len() as int) =~= str_views(names@));
        let ghost ov = string_views(owned@);
        self.names.push(owned);
        assert(self.names_view() =~= old(self).names_view().push(ov));
        let help = String::from_str(help_text);
        let ghost hv = help@;
        self.help_texts.push(help);
        assert(self.help_view() =~= old(self).help_view().push(hv));
    }

    fn declares(names: &Vec<String>, name: &str) -> (r: bool)
        ensures
            r == string_views(names@).contains(name@),
    {
        let mut i: usize = 0;
        while i < names.len()
            invariant
                i <= names@.len(),
                forall|k: int| 0 <= k < i ==> (#[trigger] names@[k])@ != name@,
            decreases names@.len() - i,
        {
            if str_eq(names[i].as_str(), name) {
                assert(string_views(names@)[i as int] == name@);
                return true;
            }
            i = i + 1;
        }
        assert forall|k: int| 0 <= k < names@.len() implies string_views(names@)[k] != name@ by {
            assert(string_views(names@)[k] == names@[k]@);
        }
        false
    }

    /// The command that `name` resolves to, compared exactly.
    pub fn lookup(&self, name: &str) -> (r: Option<usize>)
        ensures
            match r {
                Some(i) => resolves(self.names_view(), name@, i as int),
                None => !is_registered(self.names_view(), name@),
            },
    {
        let mut i: usize = self.names.len();
        while i > 0
            invariant
                i <= self.names@.len(),
                self.names_view().len() == self.names@.len(),
                forall|j: int|
                    i <= j < self.names@.len() ==> !(#[trigger] self.names_view()[j]).contains(
                        name@,
                    ),
            decreases i,
        {
            if Self::declares(&self.names[i - 1], name) {
                return Some(i - 1);
            }
            i = i - 1;
        }
        None
    }

    pub fn help_text(&self, index: usize) -> (r: &String)
        requires
            self.wf(),
            index < self.help_view().len(),
        ensures
            r@ == self.help_view()[index as int],
    {
        &self.help_texts[index]
    }

    /// Appends the listing of every command with its aliases.
    pub fn write_listing(&self, out: &mut String)
        ensures
            final(out)@ == old(out)@ + help_listing_text(self.names_view()),
    {
        out.append("The following commands are available:\n\n");
        let ghost start = out@;
        let mut i: usize = 0;
        assert(self.names_view().subrange(0, 0) =~= Seq::<Seq<Seq<char>>>::empty());
        while i < self.names.len()
            invariant
                i <= self.names@.len(),
                self.names_view().len() == self.names@.len(),
                out@ =~= start + listing_lines(self.names_view().subrange(0, i as int)),
            decreases self.names@.len() - i,
        {
            let names = &self.names[i];
            let ghost nv = string_views(names@);
            assert(nv == self.names_view()[i as int]);
            if names.len() > 0 {
                out.append("  ");
                out.append(names[0].as_str());
                if names.len() > 1 {
                    out.append("  (");
                    let mut k: usize = 1;
                    while k < names.len()
                        invariant
                            1 <= k <= names@.len(),
                            i < self.names@.len(),
                            self.names_view().len() == self.names@.len(),
                            nv == string_views(names@),
                            out@ =~= start + listing_lines(self.names_view().subrange(0, i as int))
                                + "  "@ + nv[0] + "  ("@ + join(nv.subrange(1, k as int), ", "@),
                        decreases names@.len() - k,
                    {
                        if k > 1 {
                            out.append(", ");
                        }
                        out.append(names[k].as_str());
                        assert(nv.subrange(1, k + 1).drop_last() =~= nv.subrange(1, k as int));
                        k = k + 1;
                    }
                    assert(nv.subrange(1, k as int) =~= nv.skip(1));
                    out.append(")\n");
                } else {
                    out.append("\n");
                }
            }
            assert(self.names_view().subrange(0, i + 1).drop_last() =~= self.names_view().subrange(
                0,
                i as int,
            ));
            i = i + 1;
        }
        assert(self.names_view().subrange(0, i as int) =~= self.names_view());
        out.append("\n'help COMMAND' will list detailed information on a given command.\n");
    }
}

} // verus!
