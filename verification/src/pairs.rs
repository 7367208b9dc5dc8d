//! An ordered list of named strings in which no name occurs twice: headers,
//! form fields, environment variables.

use crate::text::{fill, filled, same_text};
use vstd::prelude::*;
use vstd::string::*;

verus! {

/// No two entries have the same name.
pub open spec fn distinct_names<V>(s: Seq<(Seq<char>, V)>) -> bool {
    forall|i: int, j: int| 0 <= i < j < s.len() ==> s[i].0 != s[j].0
}

/// The position of the first entry named `name`; the length if there is none.
pub open spec fn position<V>(s: Seq<(Seq<char>, V)>, name: Seq<char>) -> int
    decreases s.len(),
{
    if s.len() == 0 {
        0
    } else if s[0].0 == name {
        0
    } else {
        1 + position(s.skip(1), name)
    }
}

/// The list after `name` was given `value`: the entry of that name is
/// overwritten in place, or a new entry is added at the end.
pub open spec fn put<V>(s: Seq<(Seq<char>, V)>, name: Seq<char>, value: V) -> Seq<(Seq<char>, V)> {
    if position(s, name) < s.len() {
        s.update(position(s, name), (name, value))
    } else {
        s.push((name, value))
    }
}

/// The list with the placeholders of every value filled in; names stay as they are.
pub open spec fn filled_values(
    s: Seq<(Seq<char>, Seq<char>)>,
    title: Seq<char>,
    message: Seq<char>,
) -> Seq<(Seq<char>, Seq<char>)> {
    Seq::new(s.len(), |i: int| (s[i].0, filled(s[i].1, title, message)))
}

/// `position` is the first index at which the name stands.
pub proof fn lemma_position<V>(s: Seq<(Seq<char>, V)>, name: Seq<char>, at: int)
    requires
        0 <= at <= s.len(),
        forall|j: int| 0 <= j < at ==> s[j].0 != name,
        at < s.len() ==> s[at].0 == name,
    ensures
        position(s, name) == at,
    decreases at,
{
    if at > 0 {
        let rest = s.skip(1);
        assert forall|j: int| 0 <= j < at - 1 implies rest[j].0 != name by {
            assert(rest[j] == s[j + 1]);
        }
        lemma_position(rest, name, at - 1);
    }
}

/// Where `position` points, the name stands, and it stands nowhere before.
pub proof fn lemma_position_found<V>(s: Seq<(Seq<char>, V)>, name: Seq<char>)
    ensures
        0 <= position(s, name) <= s.len(),
        position(s, name) < s.len() ==> s[position(s, name)].0 == name,
        forall|j: int| 0 <= j < position(s, name) ==> s[j].0 != name,
    decreases s.len(),
{
    if s.len() > 0 && s[0].0 != name {
        let rest = s.skip(1);
        lemma_position_found(rest, name);
        assert forall|j: int| 0 <= j < position(s, name) implies s[j].0 != name by {
            if j > 0 {
                assert(rest[j - 1] == s[j]);
            }
        }
    }
}

/// Giving a name a value keeps the names distinct.
pub proof fn lemma_put_distinct<V>(s: Seq<(Seq<char>, V)>, name: Seq<char>, value: V)
    requires
        distinct_names(s),
    ensures
        distinct_names(put(s, name, value)),
{
    lemma_position_found(s, name);
    let p = position(s, name);
    let t = put(s, name, value);
    if p < s.len() {
        assert forall|i: int, j: int| 0 <= i < j < t.len() implies t[i].0 != t[j].0 by {
            assert(t[i].0 == s[i].0);
            assert(t[j].0 == s[j].0);
        }
    } else {
        assert forall|i: int, j: int| 0 <= i < j < t.len() implies t[i].0 != t[j].0 by {
            if j < s.len() {
                assert(t[i] == s[i] && t[j] == s[j]);
            } else {
                assert(t[i] == s[i]);
            }
        }
    }
}

/// Named strings in a fixed order.
pub struct Pairs {
    items: Vec<(String, String)>,
}

impl View for Pairs {
    type V = Seq<(Seq<char>, Seq<char>)>;

    closed spec fn view(&self) -> Seq<(Seq<char>, Seq<char>)> {
        Seq::new(self.items@.len(), |i: int| (self.items@[i].0@, self.items@[i].1@))
    }
}

impl Pairs {
    /// No name occurs twice.
    pub open spec fn wf(&self) -> bool {
        distinct_names(self@)
    }

    /// The empty list.
    pub fn new() -> (empty: Pairs)
        ensures
            empty@ == Seq::<(Seq<char>, Seq<char>)>::empty(),
            empty.wf(),
    {
        Pairs { items: Vec::new() }
    }

    /// The number of entries.
    pub fn len(&self) -> (n: usize)
        ensures
            n == self@.len(),
    {
        self.items.len()
    }

    /// The name of entry `i`.
    pub fn name(&self, i: usize) -> (name: &str)
        requires
            i < self@.len(),
        ensures
            name@ == self@[i as int].0,
    {
        self.items[i].0.as_str()
    }

    /// The value of entry `i`.
    pub fn value(&self, i: usize) -> (value: &str)
        requires
            i < self@.len(),
        ensures
            value@ == self@[i as int].1,
    {
        self.items[i].1.as_str()
    }

    fn find(&self, name: &str) -> (at: usize)
        ensures
            at == position(self@, name@),
            at <= self@.len(),
    {
        let mut i: usize = 0;
        while i < self.items.len()
            invariant
                i <= self.items.len(),
                forall|j: int| 0 <= j < i ==> self@[j].0 != name@,
            decreases self.items.len() - i,
        {
            if same_text(self.items[i].0.as_str(), name) {
                proof {
                    lemma_position(self@, name@, i as int);
                }
                return i;
            }
            i += 1;
        }
        proof {
            lemma_position(self@, name@, i as int);
        }
        i
    }

    /// The value that `name` has, if it has one.
    pub fn get(&self, name: &str) -> (value: Option<&str>)
        ensures
            match value {
                Some(v) => position(self@, name@) < self@.len() && v@ == self@[position(
                    self@,
                    name@,
                )].1,
                None => position(self@, name@) == self@.len(),
            },
    {
        let at = self.find(name);
        if at < self.items.len() {
            Some(self.items[at].1.as_str())
        } else {
            None
        }
    }

    /// Gives `name` the value `value`, in place of the one it had or as a new
    /// last entry.
    pub fn insert(&mut self, name: &str, value: &str)
        ensures
            final(self)@ == put(old(self)@, name@, value@),
            old(self).wf() ==> final(self).wf(),
    {
        let at = self.find(name);
        let entry = (String::from_str(name), String::from_str(value));
        if at < self.items.len() {
            self.items.set(at, entry);
        } else {
            self.items.push(entry);
        }
        proof {
            assert(final(self)@ == put(old(self)@, name@, value@));
            if old(self).wf() {
                lemma_put_distinct(old(self)@, name@, value@);
            }
        }
    }

    /// A copy in which the placeholders of every value are filled in.
    pub fn filled(&self, title: &str, message: &str) -> (out: Pairs)
        ensures
            out@ == filled_values(self@, title@, message@),
            self.wf() ==> out.wf(),
    {
        let mut items: Vec<(String, String)> = Vec::new();
        let mut i: usize = 0;
        while i < self.items.len()
            invariant
                i <= self.items.len(),
                items@.len() == i,
                forall|j: int|
                    0 <= j < i ==> (#[trigger] items@[j]).0@ == self@[j].0 && items@[j].1@
                        == filled(self@[j].1, title@, message@),
            decreases self.items.len() - i,
        {
            let name = self.items[i].0.clone();
            let value = fill(self.items[i].1.as_str(), title, message);
            items.push((name, value));
            i += 1;
        }
        let out = Pairs { items };
        assert(out@ == filled_values(self@, title@, message@));
        out
    }

    /// A copy of the list.
    pub fn copy(&self) -> (out: Pairs)
        ensures
            out@ == self@,
    {
        let mut items: Vec<(String, String)> = Vec::new();
        let mut i: usize = 0;
        while i < self.items.len()
            invariant
                i <= self.items.len(),
                items@.len() == i,
                forall|j: int|
                    0 <= j < i ==> (#[trigger] items@[j]).0@ == self@[j].0 && items@[j].1@
                        == self@[j].1,
            decreases self.items.len() - i,
        {
            items.push((self.items[i].0.clone(), self.items[i].1.clone()));
            i += 1;
        }
        let out = Pairs { items };
        assert(out@ == self@);
        out
    }
}

} // verus!
