//! A configuration document: named values, of which a value is a string, a
//! table of named values, or something else.

use crate::error::{text_view, Error, ErrorView};
use crate::pairs::{
    distinct_names, lemma_position, lemma_position_found, lemma_put_distinct, position, put, Pairs,
};
use crate::text::same_text;
use vstd::prelude::*;
use vstd::string::*;

verus! {

/// One value of a document.
pub enum Item {
    /// A string.
    Text(String),
    /// A table.
    Table(Document),
    /// A value that is neither: a number, a truth value, a date, a list.
    Other,
}

/// Named values in a fixed order, no name twice.
pub struct Document {
    entries: Vec<(String, Item)>,
}

/// What reading a name as a given type gave.
pub enum Read<T> {
    /// The document has no value of that name.
    Missing,
    /// The value of that name is of another type.
    Mistyped,
    /// The value.
    Found(T),
}

/// The value of the first entry named `name`, if there is one.
pub open spec fn lookup(entries: Seq<(Seq<char>, Item)>, name: Seq<char>) -> Option<Item> {
    if position(entries, name) < entries.len() {
        Some(entries[position(entries, name)].1)
    } else {
        None
    }
}

/// The value named `name`, read as a string.
pub open spec fn text_at(entries: Seq<(Seq<char>, Item)>, name: Seq<char>) -> Read<Seq<char>> {
    match lookup(entries, name) {
        None => Read::Missing,
        Some(Item::Text(text)) => Read::Found(text@),
        Some(_) => Read::Mistyped,
    }
}

/// The value named `name`, where it is a table.
pub open spec fn table_at(entries: Seq<(Seq<char>, Item)>, name: Seq<char>) -> Option<Document> {
    match lookup(entries, name) {
        Some(Item::Table(table)) => Some(table),
        _ => None,
    }
}

/// Every value is a string.
pub open spec fn all_text(entries: Seq<(Seq<char>, Item)>) -> bool {
    forall|i: int| 0 <= i < entries.len() ==> (#[trigger] entries[i]).1 is Text
}

/// The entries of a table of strings as named strings, in their order; of a
/// name that stands twice the last value counts, at the place of the first.
pub open spec fn gathered(entries: Seq<(Seq<char>, Item)>) -> Seq<(Seq<char>, Seq<char>)>
    decreases entries.len(),
{
    if entries.len() == 0 {
        Seq::empty()
    } else {
        put(
            gathered(entries.drop_last()),
            entries.last().0,
            match entries.last().1 {
                Item::Text(text) => text@,
                _ => Seq::empty(),
            },
        )
    }
}

/// The value named `name`, read as a table in which every value is a string.
pub open spec fn strings_at(entries: Seq<(Seq<char>, Item)>, name: Seq<char>) -> Read<
    Seq<(Seq<char>, Seq<char>)>,
> {
    match lookup(entries, name) {
        None => Read::Missing,
        Some(Item::Table(table)) => if all_text(table.entries()) {
            Read::Found(gathered(table.entries()))
        } else {
            Read::Mistyped
        },
        Some(_) => Read::Mistyped,
    }
}

/// An optional list as an optional sequence.
pub open spec fn pairs_view(pairs: Option<Pairs>) -> Option<Seq<(Seq<char>, Seq<char>)>> {
    match pairs {
        Some(p) => Some(p@),
        None => None,
    }
}

/// The failure for a required field that is not there.
pub open spec fn missing_field(name: Seq<char>) -> ErrorView {
    ErrorView::InvalidBackendConfig("missing field `"@ + name + "`"@)
}

/// The failure for a field whose value is of the wrong type.
pub open spec fn mistyped_field(name: Seq<char>) -> ErrorView {
    ErrorView::InvalidBackendConfig("invalid type for key `"@ + name + "`"@)
}

/// A string that must be there.
pub open spec fn required_text(entries: Seq<(Seq<char>, Item)>, name: Seq<char>) -> Result<
    Seq<char>,
    ErrorView,
> {
    match text_at(entries, name) {
        Read::Missing => Err(missing_field(name)),
        Read::Mistyped => Err(mistyped_field(name)),
        Read::Found(text) => Ok(text),
    }
}

/// A string that may be left out.
pub open spec fn optional_text(entries: Seq<(Seq<char>, Item)>, name: Seq<char>) -> Result<
    Option<Seq<char>>,
    ErrorView,
> {
    match text_at(entries, name) {
        Read::Missing => Ok(None),
        Read::Mistyped => Err(mistyped_field(name)),
        Read::Found(text) => Ok(Some(text)),
    }
}

/// A table of strings that may be left out.
pub open spec fn optional_strings(entries: Seq<(Seq<char>, Item)>, name: Seq<char>) -> Result<
    Option<Seq<(Seq<char>, Seq<char>)>>,
    ErrorView,
> {
    match strings_at(entries, name) {
        Read::Missing => Ok(None),
        Read::Mistyped => Err(mistyped_field(name)),
        Read::Found(pairs) => Ok(Some(pairs)),
    }
}

fn fault(head: &str, name: &str) -> (error: Error)
    ensures
        error@ == ErrorView::InvalidBackendConfig(head@ + name@ + "`"@),
{
    let mut detail = String::from_str(head);
    detail.append(name);
    detail.append("`");
    Error::InvalidBackendConfig(detail)
}

impl Document {
    /// Reads a string that must be there.
    pub fn required_text(&self, name: &str) -> (read: Result<String, Error>)
        ensures
            match read {
                Ok(text) => required_text(self.entries(), name@) == Ok::<Seq<char>, ErrorView>(
                    text@,
                ),
                Err(error) => required_text(self.entries(), name@) == Err::<Seq<char>, ErrorView>(
                    error@,
                ),
            },
    {
        match self.text(name) {
            Read::Missing => Err(fault("missing field `", name)),
            Read::Mistyped => Err(fault("invalid type for key `", name)),
            Read::Found(text) => Ok(text),
        }
    }

    /// Reads a string that may be left out.
    pub fn optional_text(&self, name: &str) -> (read: Result<Option<String>, Error>)
        ensures
            match read {
                Ok(text) => optional_text(self.entries(), name@) == Ok::<
                    Option<Seq<char>>,
                    ErrorView,
                >(text_view(text)),
                Err(error) => optional_text(self.entries(), name@) == Err::<
                    Option<Seq<char>>,
                    ErrorView,
                >(error@),
            },
    {
        match self.text(name) {
            Read::Missing => Ok(None),
            Read::Mistyped => Err(fault("invalid type for key `", name)),
            Read::Found(text) => Ok(Some(text)),
        }
    }

    /// Reads a table of strings that may be left out.
    pub fn optional_strings(&self, name: &str) -> (read: Result<Option<Pairs>, Error>)
        ensures
            match read {
                Ok(pairs) => optional_strings(self.entries(), name@) == Ok::<
                    Option<Seq<(Seq<char>, Seq<char>)>>,
                    ErrorView,
                >(pairs_view(pairs)) && (pairs matches Some(p) ==> p.wf()),
                Err(error) => optional_strings(self.entries(), name@) == Err::<
                    Option<Seq<(Seq<char>, Seq<char>)>>,
                    ErrorView,
                >(error@),
            },
    {
        match self.strings(name) {
            Read::Missing => Ok(None),
            Read::Mistyped => Err(fault("invalid type for key `", name)),
            Read::Found(pairs) => Ok(Some(pairs)),
        }
    }
}

impl Document {
    /// The names with their values, in order.
    pub closed spec fn entries(&self) -> Seq<(Seq<char>, Item)> {
        Seq::new(self.entries@.len(), |i: int| (self.entries@[i].0@, self.entries@[i].1))
    }

    /// No name occurs twice.
    pub open spec fn wf(&self) -> bool {
        distinct_names(self.entries())
    }

    /// The empty document.
    pub fn new() -> (empty: Document)
        ensures
            empty.entries() == Seq::<(Seq<char>, Item)>::empty(),
            empty.wf(),
    {
        Document { entries: Vec::new() }
    }

    /// The number of entries.
    pub fn len(&self) -> (n: usize)
        ensures
            n == self.entries().len(),
    {
        self.entries.len()
    }

    fn find(&self, name: &str) -> (at: usize)
        ensures
            at == position(self.entries(), name@),
            at <= self.entries().len(),
    {
        let mut i: usize = 0;
        while i < self.entries.len()
            invariant
                i <= self.entries.len(),
                forall|j: int| 0 <= j < i ==> self.entries()[j].0 != name@,
            decreases self.entries.len() - i,
        {
            if same_text(self.entries[i].0.as_str(), name) {
                proof {
                    lemma_position(self.entries(), name@, i as int);
                }
                return i;
            }
            i += 1;
        }
        proof {
            lemma_position(self.entries(), name@, i as int);
        }
        i
    }

    /// The value named `name`, if there is one.
    pub fn get(&self, name: &str) -> (item: Option<&Item>)
        ensures
            match item {
                Some(found) => lookup(self.entries(), name@) == Some(*found),
                None => lookup(self.entries(), name@) is None,
            },
    {
        let at = self.find(name);
        if at < self.entries.len() {
            Some(&self.entries[at].1)
        } else {
            None
        }
    }

    /// Gives `name` the value `item`, in place of the one it had or as a new
    /// last entry.
    pub fn set(&mut self, name: &str, item: Item)
        ensures
            final(self).entries() == put(old(self).entries(), name@, item),
            lookup(final(self).entries(), name@) == Some(item),
            forall|other: Seq<char>|
                other != name@ ==> lookup(final(self).entries(), other) == lookup(
                    old(self).entries(),
                    other,
                ),
            old(self).wf() ==> final(self).wf(),
    {
        let at = self.find(name);
        let entry = (String::from_str(name), item);
        if at < self.entries.len() {
            self.entries.set(at, entry);
        } else {
            self.entries.push(entry);
        }
        proof {
            assert(final(self).entries() == put(old(self).entries(), name@, item));
            lemma_put_lookup(old(self).entries(), name@, item);
            if old(self).wf() {
                lemma_put_distinct(old(self).entries(), name@, item);
            }
        }
    }

    /// Gives `name` the string `value`.
    pub fn set_text(&mut self, name: &str, value: &str)
        ensures
            ({
                let item = final(self).entries()[position(old(self).entries(), name@)].1;
                &&& final(self).entries() == put(old(self).entries(), name@, item)
                &&& item matches Item::Text(text) && text@ == value@
            }),
            old(self).wf() ==> final(self).wf(),
    {
        self.set(name, Item::Text(String::from_str(value)));
        proof {
            lemma_position_found(old(self).entries(), name@);
        }
    }

    /// Gives `name` the table `table`.
    pub fn set_table(&mut self, name: &str, table: Document)
        ensures
            final(self).entries() == put(old(self).entries(), name@, Item::Table(table)),
            old(self).wf() ==> final(self).wf(),
    {
        self.set(name, Item::Table(table));
    }

    /// Gives `name` a value that is neither a string nor a table.
    pub fn set_other(&mut self, name: &str)
        ensures
            final(self).entries() == put(old(self).entries(), name@, Item::Other),
            old(self).wf() ==> final(self).wf(),
    {
        self.set(name, Item::Other);
    }

    /// Reads the value named `name` as a string.
    pub fn text(&self, name: &str) -> (read: Read<String>)
        ensures
            match read {
                Read::Missing => text_at(self.entries(), name@) == Read::<Seq<char>>::Missing,
                Read::Mistyped => text_at(self.entries(), name@) == Read::<Seq<char>>::Mistyped,
                Read::Found(text) => text_at(self.entries(), name@) == Read::Found(text@),
            },
    {
        match self.get(name) {
            None => Read::Missing,
            Some(Item::Text(text)) => Read::Found(text.clone()),
            Some(_) => Read::Mistyped,
        }
    }

    /// The table named `name`, where there is one.
    pub fn table(&self, name: &str) -> (table: Option<&Document>)
        ensures
            match table {
                Some(found) => table_at(self.entries(), name@) == Some(*found),
                None => table_at(self.entries(), name@) is None,
            },
    {
        match self.get(name) {
            Some(Item::Table(table)) => Some(table),
            _ => None,
        }
    }

    /// Reads the value named `name` as a table of strings.
    pub fn strings(&self, name: &str) -> (read: Read<Pairs>)
        ensures
            match read {
                Read::Missing => strings_at(self.entries(), name@) == Read::<
                    Seq<(Seq<char>, Seq<char>)>,
                >::Missing,
                Read::Mistyped => strings_at(self.entries(), name@) == Read::<
                    Seq<(Seq<char>, Seq<char>)>,
                >::Mistyped,
                Read::Found(pairs) => strings_at(self.entries(), name@) == Read::Found(pairs@)
                    && pairs.wf(),
            },
    {
        match self.get(name) {
            None => Read::Missing,
            Some(Item::Table(table)) => {
                let mut pairs = Pairs::new();
                let mut i: usize = 0;
                assert(table.entries().take(0) == Seq::<(Seq<char>, Item)>::empty());
                while i < table.entries.len()
                    invariant
                        i <= table.entries.len(),
                        table.entries@.len() == table.entries().len(),
                        lookup(self.entries(), name@) == Some(Item::Table(*table)),
                        forall|j: int| 0 <= j < i ==> (#[trigger] table.entries()[j]).1 is Text,
                        pairs@ == gathered(table.entries().take(i as int)),
                        pairs.wf(),
                    decreases table.entries.len() - i,
                {
                    let ghost upto = table.entries().take(i + 1);
                    assert(upto.drop_last() == table.entries().take(i as int));
                    assert(upto.last() == table.entries()[i as int]);
                    match &table.entries[i].1 {
                        Item::Text(text) => {
                            pairs.insert(table.entries[i].0.as_str(), text.as_str());
                        },
                        _ => {
                            assert(!(table.entries()[i as int].1 is Text));
                            return Read::Mistyped;
                        },
                    }
                    i += 1;
                }
                assert(table.entries().take(i as int) == table.entries());
                Read::Found(pairs)
            },
            Some(_) => Read::Mistyped,
        }
    }
}

/// After `name` was given a value, `name` has that value and every other name
/// has what it had.
pub proof fn lemma_put_lookup(entries: Seq<(Seq<char>, Item)>, name: Seq<char>, item: Item)
    ensures
        lookup(put(entries, name, item), name) == Some(item),
        forall|other: Seq<char>|
            other != name ==> lookup(put(entries, name, item), other) == lookup(entries, other),
{
    let after = put(entries, name, item);
    let p = position(entries, name);
    lemma_position_found(entries, name);
    assert forall|j: int| 0 <= j < p implies after[j].0 != name by {
        assert(after[j].0 == entries[j].0);
    }
    lemma_position(after, name, p);
    assert forall|other: Seq<char>| other != name implies lookup(after, other) == lookup(
        entries,
        other,
    ) by {
        let q = position(entries, other);
        lemma_position_found(entries, other);
        assert forall|j: int| 0 <= j < q implies after[j].0 != other by {
            if j < entries.len() {
                assert(after[j].0 == entries[j].0);
            }
        }
        if q < entries.len() {
            assert(after[q].0 == other);
            lemma_position(after, other, q);
            assert(after[q].1 == entries[q].1);
        } else {
            assert forall|j: int| 0 <= j < after.len() implies after[j].0 != other by {
                if j < entries.len() {
                    assert(after[j].0 == entries[j].0);
                }
            }
            lemma_position(after, other, after.len() as int);
        }
    }
}

} // verus!
