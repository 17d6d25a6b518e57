//! The variable environment: a mapping from names to values that keeps the
//! order in which names were first bound.

use vstd::prelude::*;
use vstd::string::*;

use crate::text::str_eq;
use crate::value::{Value, ValueView};

verus! {

/// The model of one binding: a name and the value bound to it.
pub type Binding = (Seq<char>, ValueView);

/// No name is bound twice.
pub open spec fn distinct_names(b: Seq<Binding>) -> bool {
    forall|i: int, j: int| 0 <= i < j < b.len() ==> b[i].0 != b[j].0
}

/// Some binding of `b` has the name `name`.
pub open spec fn binds(b: Seq<Binding>, name: Seq<char>) -> bool {
    exists|i: int| 0 <= i < b.len() && b[i].0 == name
}

/// An index at which `b` binds `name`; the only one where names are
/// distinct.
pub open spec fn position(b: Seq<Binding>, name: Seq<char>) -> int {
    choose|i: int| 0 <= i < b.len() && b[i].0 == name
}

/// The mapping that a sequence of bindings stands for.
pub open spec fn as_map(b: Seq<Binding>) -> Map<Seq<char>, ValueView> {
    Map::new(|name: Seq<char>| binds(b, name), |name: Seq<char>| b[position(b, name)].1)
}

/// `b` after binding `name` to `value`: an existing binding keeps its place
/// and takes the new value, a new one goes to the end.
pub open spec fn put_binding(b: Seq<Binding>, name: Seq<char>, value: ValueView) -> Seq<Binding> {
    if binds(b, name) {
        b.update(position(b, name), (name, value))
    } else {
        b.push((name, value))
    }
}

/// `b` without the binding of `name`; the others keep their order.
pub open spec fn remove_binding(b: Seq<Binding>, name: Seq<char>) -> Seq<Binding> {
    if binds(b, name) {
        b.remove(position(b, name))
    } else {
        b
    }
}

/// `b` after binding each entry of `other` in turn.
pub open spec fn extend_bindings(b: Seq<Binding>, other: Seq<Binding>) -> Seq<Binding>
    decreases other.len(),
{
    if other.len() == 0 {
        b
    } else {
        put_binding(extend_bindings(b, other.drop_last()), other.last().0, other.last().1)
    }
}

/// One line of a variable listing.
pub open spec fn binding_line(b: Binding) -> Seq<char> {
    b.0 + " = "@ + b.1.text() + "\n"@
}

/// The listing of `b`: one line per binding, in order; with `omit_empty`,
/// bindings of `Empty` are left out.
pub open spec fn show_text(b: Seq<Binding>, omit_empty: bool) -> Seq<char>
    decreases b.len(),
{
    if b.len() == 0 {
        Seq::empty()
    } else if omit_empty && b.last().1 is Empty {
        show_text(b.drop_last(), omit_empty)
    } else {
        show_text(b.drop_last(), omit_empty) + binding_line(b.last())
    }
}

/// Where names are distinct, a name is found at one index only.
pub proof fn lemma_position_unique(b: Seq<Binding>, i: int)
    requires
        distinct_names(b),
        0 <= i < b.len(),
    ensures
        binds(b, b[i].0),
        position(b, b[i].0) == i,
{
    let p = position(b, b[i].0);
    assert(0 <= p < b.len() && b[p].0 == b[i].0);
    if p < i {
        assert(b[p].0 != b[i].0);
    } else if i < p {
        assert(b[i].0 != b[p].0);
    }
}

/// Binding a name is an insertion into the mapping, and keeps names
/// distinct.
pub proof fn lemma_put_binding(b: Seq<Binding>, name: Seq<char>, value: ValueView)
    requires
        distinct_names(b),
    ensures
        distinct_names(put_binding(b, name, value)),
        as_map(put_binding(b, name, value)) == as_map(b).insert(name, value),
{
    let after = put_binding(b, name, value);
    if binds(b, name) {
        let p = position(b, name);
        assert(distinct_names(after));
        assert forall|k: Seq<char>| binds(after, k) == (binds(b, k) || k == name) by {
            if binds(b, k) {
                let i = position(b, k);
                assert(after[i].0 == k);
            }
            if binds(after, k) {
                let i = position(after, k);
                assert(b[i].0 == k);
            }
            if k == name {
                assert(after[p].0 == k);
            }
        }
        assert forall|k: Seq<char>| binds(after, k) implies #[trigger] as_map(after)[k] == as_map(
            b,
        ).insert(name, value)[k] by {
            let i = position(after, k);
            lemma_position_unique(after, i);
            if k != name {
                assert(b[i].0 == k);
                lemma_position_unique(b, i);
            } else {
                lemma_position_unique(after, p);
            }
        }
    } else {
        let n = b.len() as int;
        assert(distinct_names(after)) by {
            assert forall|i: int, j: int| 0 <= i < j < after.len() implies after[i].0
                != after[j].0 by {
                if j == n {
                    assert(b[i].0 != name);
                }
            }
        }
        assert forall|k: Seq<char>| binds(after, k) == (binds(b, k) || k == name) by {
            if binds(b, k) {
                let i = position(b, k);
                assert(after[i].0 == k);
            }
            if binds(after, k) {
                let i = position(after, k);
                if i < n {
                    assert(b[i].0 == k);
                }
            }
            if k == name {
                assert(after[n].0 == k);
            }
        }
        assert forall|k: Seq<char>| binds(after, k) implies #[trigger] as_map(after)[k] == as_map(
            b,
        ).insert(name, value)[k] by {
            let i = position(after, k);
            lemma_position_unique(after, i);
            if k != name {
                assert(b[i].0 == k);
                lemma_position_unique(b, i);
            } else {
                lemma_position_unique(after, n);
            }
        }
    }
    assert(as_map(after) =~= as_map(b).insert(name, value));
}

/// Removing a name removes it from the mapping, and keeps names distinct.
pub proof fn lemma_remove_binding(b: Seq<Binding>, name: Seq<char>)
    requires
        distinct_names(b),
    ensures
        distinct_names(remove_binding(b, name)),
        as_map(remove_binding(b, name)) == as_map(b).remove(name),
        remove_binding(b, name).len() == if binds(b, name) {
            b.len() - 1
        } else {
            b.len() as int
        },
{
    let after = remove_binding(b, name);
    if binds(b, name) {
        let p = position(b, name);
        assert forall|i: int| 0 <= i < after.len() implies after[i] == b[if i < p {
            i
        } else {
            i + 1
        }] by {}
        assert(distinct_names(after)) by {
            assert forall|i: int, j: int| 0 <= i < j < after.len() implies after[i].0
                != after[j].0 by {
                let bi = if i < p {
                    i
                } else {
                    i + 1
                };
                let bj = if j < p {
                    j
                } else {
                    j + 1
                };
                assert(b[bi].0 != b[bj].0);
            }
        }
        assert forall|k: Seq<char>| binds(after, k) == (binds(b, k) && k != name) by {
            if binds(b, k) && k != name {
                let i = position(b, k);
                let ai = if i < p {
                    i
                } else {
                    i - 1
                };
                assert(after[ai].0 == k);
            }
            if binds(after, k) {
                let i = position(after, k);
                let bi = if i < p {
                    i
                } else {
                    i + 1
                };
                assert(b[bi].0 == k);
                lemma_position_unique(b, p);
                if k == name {
                    lemma_position_unique(b, bi);
                }
            }
        }
        assert forall|k: Seq<char>| binds(after, k) implies #[trigger] as_map(after)[k] == as_map(
            b,
        ).remove(name)[k] by {
            let i = position(after, k);
            let bi = if i < p {
                i
            } else {
                i + 1
            };
            assert(b[bi].0 == k);
            lemma_position_unique(b, bi);
        }
        assert(as_map(after) =~= as_map(b).remove(name));
    } else {
        assert(as_map(after) =~= as_map(b).remove(name));
    }
}

/// Merging binds every entry of the other side, later ones over earlier
/// ones, and keeps names distinct.
pub proof fn lemma_extend_bindings(b: Seq<Binding>, other: Seq<Binding>)
    requires
        distinct_names(b),
        distinct_names(other),
    ensures
        distinct_names(extend_bindings(b, other)),
        as_map(extend_bindings(b, other)) == as_map(b).union_prefer_right(as_map(other)),
    decreases other.len(),
{
    if other.len() == 0 {
        assert(as_map(other) =~= Map::empty());
        assert(as_map(b).union_prefer_right(as_map(other)) =~= as_map(b));
    } else {
        let front = other.drop_last();
        let last = other.last();
        lemma_extend_bindings(b, front);
        lemma_put_binding(extend_bindings(b, front), last.0, last.1);
        lemma_drop_last(other);
        assert(as_map(b).union_prefer_right(as_map(front)).insert(last.0, last.1) =~= as_map(
            b,
        ).union_prefer_right(as_map(front).insert(last.0, last.1)));
    }
}

/// The mapping of a sequence with distinct names is that of its front,
/// with the last binding inserted.
pub proof fn lemma_drop_last(b: Seq<Binding>)
    requires
        distinct_names(b),
        b.len() > 0,
    ensures
        distinct_names(b.drop_last()),
        !binds(b.drop_last(), b.last().0),
        as_map(b) == as_map(b.drop_last()).insert(b.last().0, b.last().1),
{
    let front = b.drop_last();
    if binds(front, b.last().0) {
        let i = position(front, b.last().0);
        assert(b[i].0 != b[b.len() - 1].0);
    }
    assert(put_binding(front, b.last().0, b.last().1) =~= b);
    lemma_put_binding(front, b.last().0, b.last().1);
}

/// A mapping has one key for each of its bindings.
pub proof fn lemma_as_map_len(b: Seq<Binding>)
    requires
        distinct_names(b),
    ensures
        as_map(b).dom().finite(),
        as_map(b).len() == b.len(),
    decreases b.len(),
{
    if b.len() == 0 {
        assert(as_map(b) =~= Map::empty());
    } else {
        lemma_drop_last(b);
        lemma_as_map_len(b.drop_last());
        let front = as_map(b.drop_last());
        assert(!front.dom().contains(b.last().0));
        assert(front.insert(b.last().0, b.last().1).dom() =~= front.dom().insert(b.last().0));
    }
}

#[derive(Debug)]
struct Entry {
    name: String,
    value: Value,
}

/// A mapping from names to values. It keeps the names in the order in
/// which they were first bound, which is the order of its listing.
#[derive(Debug)]
pub struct Variables {
    values: Vec<Entry>,
}

impl View for Variables {
    type V = Map<Seq<char>, ValueView>;

    open spec fn view(&self) -> Map<Seq<char>, ValueView> {
        as_map(self.bindings())
    }
}

impl Variables {
    /// The bindings in the order in which their names were first bound.
    pub closed spec fn bindings(&self) -> Seq<Binding> {
        self.values@.map_values(|e: Entry| (e.name@, e.value@))
    }

    #[verifier::type_invariant]
    closed spec fn names_are_distinct(&self) -> bool {
        distinct_names(self.bindings())
    }

    /// An empty environment.
    pub fn new() -> (r: Self)
        ensures
            r@ == Map::<Seq<char>, ValueView>::empty(),
            r.bindings() == Seq::<Binding>::empty(),
    {
        let r = Variables { values: Vec::new() };
        assert(r.bindings() =~= Seq::<Binding>::empty());
        assert(r@ =~= Map::<Seq<char>, ValueView>::empty());
        r
    }

    fn find(&self, name: &str) -> (r: Option<usize>)
        ensures
            distinct_names(self.bindings()),
            match r {
                Some(i) => binds(self.bindings(), name@) && i == position(self.bindings(), name@)
                    && i < self.values.len(),
                None => !binds(self.bindings(), name@),
            },
    {
        proof {
            use_type_invariant(self);
        }
        let mut i: usize = 0;
        while i < self.values.len()
            invariant
                i <= self.values.len(),
                distinct_names(self.bindings()),
                forall|j: int| 0 <= j < i ==> self.bindings()[j].0 != name@,
            decreases self.values.len() - i,
        {
            if str_eq(self.values[i].name.as_str(), name) {
                proof {
                    lemma_position_unique(self.bindings(), i as int);
                }
                return Some(i);
            }
            i = i + 1;
        }
        None
    }

    /// The number of bindings.
    pub fn count(&self) -> (r: usize)
        ensures
            r == self@.len(),
            r == self.bindings().len(),
            distinct_names(self.bindings()),
    {
        proof {
            use_type_invariant(self);
            lemma_as_map_len(self.bindings());
        }
        self.values.len()
    }

    /// Whether `name` is bound.
    pub fn contains(&self, name: &str) -> (r: bool)
        ensures
            r == self@.contains_key(name@),
    {
        self.find(name).is_some()
    }

    /// The value bound to `name`, if any.
    pub fn get(&self, name: &str) -> (r: Option<&Value>)
        ensures
            match r {
                Some(value) => self@.contains_key(name@) && value@ == self@[name@],
                None => !self@.contains_key(name@),
            },
    {
        match self.find(name) {
            Some(i) => Some(&self.values[i].value),
            None => None,
        }
    }

    /// Binds `name` to `value`, over any earlier binding of `name`.
    pub fn put(&mut self, name: String, value: Value)
        ensures
            final(self)@ == old(self)@.insert(name@, value@),
            final(self).bindings() == put_binding(old(self).bindings(), name@, value@),
            distinct_names(final(self).bindings()),
    {
        proof {
            use_type_invariant(&*self);
            lemma_put_binding(self.bindings(), name@, value@);
        }
        let ghost before = self.bindings();
        let found = self.find(name.as_str());
        let mut values: Vec<Entry> = Vec::new();
        core::mem::swap(&mut self.values, &mut values);
        match found {
            Some(i) => {
                assert(values@.update(i as int, Entry { name, value }).map_values(
                    |e: Entry| (e.name@, e.value@),
                ) =~= put_binding(before, name@, value@));
                values.set(i, Entry { name, value });
            },
            None => {
                assert(values@.push(Entry { name, value }).map_values(
                    |e: Entry| (e.name@, e.value@),
                ) =~= put_binding(before, name@, value@));
                values.push(Entry { name, value });
            },
        }
        self.values = values;
    }

    /// Removes the binding of `name`; `true` if there was one.
    pub fn remove(&mut self, name: &str) -> (r: bool)
        ensures
            r == old(self)@.contains_key(name@),
            final(self)@ == old(self)@.remove(name@),
            final(self).bindings() == remove_binding(old(self).bindings(), name@),
            distinct_names(final(self).bindings()),
    {
        proof {
            use_type_invariant(&*self);
            lemma_remove_binding(self.bindings(), name@);
        }
        let ghost before = self.bindings();
        match self.find(name) {
            Some(i) => {
                let mut values: Vec<Entry> = Vec::new();
                core::mem::swap(&mut self.values, &mut values);
                assert(values@.remove(i as int).map_values(|e: Entry| (e.name@, e.value@))
                    =~= remove_binding(before, name@));
                values.remove(i);
                self.values = values;
                true
            },
            None => false,
        }
    }

    /// Binds every entry of `other`, in its order, over earlier bindings
    /// of the same names.
    pub fn extend(&mut self, other: Self)
        ensures
            final(self)@ == old(self)@.union_prefer_right(other@),
            final(self).bindings() == extend_bindings(old(self).bindings(), other.bindings()),
            distinct_names(final(self).bindings()),
    {
        proof {
            use_type_invariant(&*self);
            use_type_invariant(&other);
            lemma_extend_bindings(self.bindings(), other.bindings());
        }
        let ghost before = self.bindings();
        let ghost added = other.bindings();
        let mut rest = other.values;
        let mut i: usize = 0;
        assert(added.take(0) =~= Seq::<Binding>::empty());
        while i < rest.len()
            invariant
                i <= rest.len(),
                rest@.map_values(|e: Entry| (e.name@, e.value@)) == added,
                self.bindings() == extend_bindings(before, added.take(i as int)),
            decreases rest.len() - i,
        {
            let entry = &rest[i];
            proof {
                assert(added.take(i + 1).drop_last() =~= added.take(i as int));
                assert(added.take(i + 1).last() == added[i as int]);
            }
            self.put(entry.name.clone(), entry.value.clone());
            i = i + 1;
        }
        assert(added.take(i as int) =~= added);
    }

    /// The listing of the bindings: a line `name = value` for each, in
    /// order; with `omit_empty`, bindings of `Empty` are left out.
    pub fn show(&self, omit_empty: bool) -> (r: String)
        ensures
            r@ == show_text(self.bindings(), omit_empty),
    {
        let mut res = String::new();
        let mut i: usize = 0;
        assert(self.bindings().take(0) =~= Seq::<Binding>::empty());
        while i < self.values.len()
            invariant
                i <= self.values.len(),
                self.bindings().len() == self.values.len(),
                res@ == show_text(self.bindings().take(i as int), omit_empty),
            decreases self.values.len() - i,
        {
            let entry = &self.values[i];
            proof {
                assert(self.bindings().take(i + 1).drop_last() =~= self.bindings().take(i as int));
                assert(self.bindings().take(i + 1).last() == (entry.name@, entry.value@));
            }
            let skip = omit_empty && matches!(entry.value, Value::Empty);
            if !skip {
                let shown = entry.value.to_string();
                let ghost so_far = res@;
                res.append(entry.name.as_str());
                res.append(" = ");
                res.append(shown.as_str());
                res.append("\n");
                assert(res@ =~= so_far + binding_line((entry.name@, entry.value@)));
            }
            i = i + 1;
        }
        assert(self.bindings().take(i as int) =~= self.bindings());
        res
    }

    /// The bindings, in their order.
    pub fn entries(&self) -> (r: Vec<(String, Value)>)
        ensures
            r@.map_values(|e: (String, Value)| (e.0@, e.1@)) == self.bindings(),
    {
        let mut entries: Vec<(String, Value)> = Vec::new();
        let mut i: usize = 0;
        let ghost pair = |e: (String, Value)| (e.0@, e.1@);
        assert(entries@.map_values(pair) =~= self.bindings().take(0));
        while i < self.values.len()
            invariant
                i <= self.values.len(),
                self.bindings().len() == self.values.len(),
                pair == |e: (String, Value)| (e.0@, e.1@),
                entries@.map_values(pair) == self.bindings().take(i as int),
            decreases self.values.len() - i,
        {
            let entry = &self.values[i];
            let ghost so_far = entries@;
            entries.push((entry.name.clone(), entry.value.clone()));
            proof {
                assert(entries@.map_values(pair) =~= so_far.map_values(pair).push(
                    (entry.name@, entry.value@),
                ));
                assert(self.bindings()[i as int] == (entry.name@, entry.value@));
                assert(self.bindings().take(i + 1) =~= self.bindings().take(i as int).push(
                    self.bindings()[i as int],
                ));
            }
            i = i + 1;
        }
        assert(self.bindings().take(i as int) =~= self.bindings());
        entries
    }

    /// The listing without the bindings of `Empty`.
    pub fn to_string(&self) -> (r: String)
        ensures
            r@ == show_text(self.bindings(), true),
    {
        self.show(true)
    }
}

impl Clone for Variables {
    fn clone(&self) -> (r: Self)
        ensures
            r@ == self@,
            r.bindings() == self.bindings(),
    {
        proof {
            use_type_invariant(self);
        }
        let mut values: Vec<Entry> = Vec::new();
        let mut i: usize = 0;
        while i < self.values.len()
            invariant
                i <= self.values.len(),
                values@.map_values(|e: Entry| (e.name@, e.value@)) == self.bindings().take(
                    i as int,
                ),
            decreases self.values.len() - i,
        {
            let entry = &self.values[i];
            let ghost so_far = values@;
            values.push(Entry { name: entry.name.clone(), value: entry.value.clone() });
            proof {
                let pair = |e: Entry| (e.name@, e.value@);
                assert(values@.map_values(pair) =~= so_far.map_values(pair).push(
                    (entry.name@, entry.value@),
                ));
                assert(self.bindings()[i as int] == (entry.name@, entry.value@));
                assert(self.bindings().take(i + 1) =~= self.bindings().take(i as int).push(
                    self.bindings()[i as int],
                ));
            }
            i = i + 1;
        }
        assert(self.bindings().take(i as int) =~= self.bindings());
        Variables { values }
    }
}

/// What tells the names of a record's fields apart at a glance: a name's
/// length, its fifth character and its eighth character.
pub(crate) open spec fn mark(name: Seq<char>) -> (nat, char, char) {
    (name.len(), name[4], name[7])
}

/// Every name that `variables` binds has its mark in `marks`.
pub(crate) closed spec fn marked(variables: Map<Seq<char>, ValueView>, marks: Set<(nat, char, char)>) -> bool {
    forall|name: Seq<char>| #[trigger] variables.contains_key(name) ==> marks.contains(mark(name))
}

/// An environment without bindings has no marks.
pub(crate) proof fn lemma_nothing_marked()
    ensures
        marked(Map::empty(), Set::empty()),
{
}

/// Binds a name that no binding has yet, as its mark shows: the binding
/// goes to the end. The marks of the bound names are handed on.
pub(crate) fn put_fresh(
    variables: &mut Variables,
    name: &'static str,
    value: Value,
    marks: Ghost<Set<(nat, char, char)>>,
) -> (r: Ghost<Set<(nat, char, char)>>)
    requires
        marked(old(variables)@, marks@),
        !marks@.contains(mark(name@)),
    ensures
        final(variables).bindings() == old(variables).bindings().push((name@, value@)),
        r@ == marks@.insert(mark(name@)),
        marked(final(variables)@, marks@.insert(mark(name@))),
{
    assert(!variables@.contains_key(name@));
    variables.put(name.to_owned(), value);
    Ghost(marks@.insert(mark(name@)))
}

} // verus!
