//! Names kept in the order of their characters, each at most once.
use crate::text;
use vstd::prelude::*;

verus! {

/// Each name precedes all later ones.
pub open spec fn ascending(names: Seq<Seq<char>>) -> bool {
    forall|i: int, j: int|
        0 <= i < j < names.len() ==> text::precedes(#[trigger] names[i], #[trigger] names[j])
}

/// The names that precede `name`.
pub open spec fn before(names: Seq<Seq<char>>, name: Seq<char>) -> Seq<Seq<char>> {
    names.filter(|other: Seq<char>| text::precedes(other, name))
}

/// The names that `name` precedes.
pub open spec fn after(names: Seq<Seq<char>>, name: Seq<char>) -> Seq<Seq<char>> {
    names.filter(|other: Seq<char>| text::precedes(name, other))
}

/// The names with `name` among them, at its place.
pub open spec fn with_name(names: Seq<Seq<char>>, name: Seq<char>) -> Seq<Seq<char>> {
    before(names, name).push(name) + after(names, name)
}

/// A sequence whose first `at` items, and no others, meet a condition is cut
/// there by the condition.
proof fn lemma_filter_takes<A>(items: Seq<A>, keep: spec_fn(A) -> bool, at: int)
    requires
        0 <= at <= items.len(),
        forall|i: int| 0 <= i < at ==> keep(#[trigger] items[i]),
        forall|i: int| at <= i < items.len() ==> !keep(#[trigger] items[i]),
    ensures
        items.filter(keep) == items.take(at),
    decreases items.len(),
{
    reveal(Seq::filter);
    if items.len() == 0 {
        assert(items.take(at) =~= items.filter(keep));
    } else if at == items.len() {
        lemma_filter_takes(items.drop_last(), keep, at - 1);
        assert(items.take(at) =~= items.drop_last().take(at - 1).push(items.last()));
    } else {
        lemma_filter_takes(items.drop_last(), keep, at);
        assert(items.take(at) =~= items.drop_last().take(at));
    }
}

/// A sequence whose items from `at` on, and no others, meet a condition
/// starts there under the condition.
proof fn lemma_filter_skips<A>(items: Seq<A>, keep: spec_fn(A) -> bool, at: int)
    requires
        0 <= at <= items.len(),
        forall|i: int| 0 <= i < at ==> !keep(#[trigger] items[i]),
        forall|i: int| at <= i < items.len() ==> keep(#[trigger] items[i]),
    ensures
        items.filter(keep) == items.skip(at),
    decreases items.len(),
{
    reveal(Seq::filter);
    if items.len() == 0 {
        assert(items.skip(at) =~= items.filter(keep));
    } else if at == items.len() {
        lemma_filter_skips(items.drop_last(), keep, at - 1);
        assert(items.skip(at) =~= Seq::empty());
        assert(items.drop_last().skip(at - 1) =~= Seq::empty());
    } else {
        lemma_filter_skips(items.drop_last(), keep, at);
        assert(items.skip(at) =~= items.drop_last().skip(at).push(items.last()));
    }
}

/// Where ascending names split around `name`.
proof fn lemma_split(names: Seq<Seq<char>>, name: Seq<char>, at: int)
    requires
        ascending(names),
        0 <= at <= names.len(),
        forall|i: int| 0 <= i < at ==> text::precedes(#[trigger] names[i], name),
        at < names.len() ==> !text::precedes(names[at], name),
    ensures
        before(names, name) == names.take(at),
        at < names.len() && names[at] == name ==> after(names, name) == names.skip(at + 1),
        !(at < names.len() && names[at] == name) ==> after(names, name) == names.skip(at)
            && !names.contains(name),
        at < names.len() && names[at] == name ==> with_name(names, name) == names,
{
    let keep_before = |other: Seq<char>| text::precedes(other, name);
    let keep_after = |other: Seq<char>| text::precedes(name, other);
    text::order_is_irreflexive(name);
    assert forall|i: int| at <= i < names.len() implies !keep_before(#[trigger] names[i]) by {
        if text::precedes(names[i], name) && at < i {
            text::order_is_transitive(names[at], names[i], name);
        }
    }
    lemma_filter_takes(names, keep_before, at);
    assert forall|i: int| 0 <= i < at implies !keep_after(#[trigger] names[i]) by {
        if text::precedes(name, names[i]) {
            text::order_is_transitive(name, names[i], name);
        }
    }
    if at < names.len() && names[at] == name {
        assert forall|i: int| at + 1 <= i < names.len() implies keep_after(#[trigger] names[i]) by {
            assert(text::precedes(names[at], names[i]));
        }
        lemma_filter_skips(names, keep_after, at + 1);
        assert(with_name(names, name) =~= names);
    } else {
        if at < names.len() {
            text::order_is_total(names[at], name);
        }
        assert forall|i: int| at <= i < names.len() implies keep_after(#[trigger] names[i]) by {
            if at < i {
                text::order_is_transitive(name, names[at], names[i]);
            }
        }
        lemma_filter_skips(names, keep_after, at);
        if names.contains(name) {
            let i = choose|i: int| 0 <= i < names.len() && names[i] == name;
            if i < at {
                assert(text::precedes(names[i], name));
            } else {
                assert(keep_after(names[i]));
            }
        }
    }
}

/// A name at its place leaves the names ascending.
proof fn lemma_insertion_ascends(names: Seq<Seq<char>>, name: Seq<char>, at: int)
    requires
        ascending(names),
        0 <= at <= names.len(),
        forall|i: int| 0 <= i < at ==> text::precedes(#[trigger] names[i], name),
        at < names.len() ==> text::precedes(name, names[at]),
    ensures
        ascending(names.insert(at, name)),
{
    let result = names.insert(at, name);
    assert forall|i: int, j: int| 0 <= i < j < result.len() implies text::precedes(
        #[trigger] result[i],
        #[trigger] result[j],
    ) by {
        if i == at {
            if at < j - 1 {
                text::order_is_transitive(name, names[at], names[j - 1]);
            }
        }
    }
}

/// The characters of each text.
pub open spec fn texts(list: Seq<String>) -> Seq<Seq<char>> {
    list.map_values(|item: String| item@)
}

/// Where `name` stands, or would stand, among ascending names.
fn place(names: &Vec<String>, name: &str) -> (found: (usize, bool))
    requires
        ascending(texts(names@)),
    ensures
        found.0 <= names@.len(),
        forall|i: int| 0 <= i < found.0 ==> text::precedes(#[trigger] texts(names@)[i], name@),
        found.0 < names@.len() ==> !text::precedes(texts(names@)[found.0 as int], name@),
        found.1 == (found.0 < names@.len() && texts(names@)[found.0 as int] == name@),
        found.1 == texts(names@).contains(name@),
{
    let mut at: usize = 0;
    while at < names.len() && text::comes_before(names[at].as_str(), name)
        invariant
            at <= names@.len(),
            forall|i: int| 0 <= i < at ==> text::precedes(#[trigger] texts(names@)[i], name@),
        decreases names@.len() - at,
    {
        at = at + 1;
    }
    let present = at < names.len() && text::same(names[at].as_str(), name);
    proof {
        lemma_split(texts(names@), name@, at as int);
    }
    (at, present)
}

/// A set of names, listed in ascending order.
pub struct NameSet {
    names: Vec<String>,
}

impl View for NameSet {
    type V = Seq<Seq<char>>;

    closed spec fn view(&self) -> Seq<Seq<char>> {
        texts(self.names@)
    }
}

impl NameSet {
    #[verifier::type_invariant]
    closed spec fn well_formed(self) -> bool {
        ascending(texts(self.names@))
    }

    /// No names.
    pub fn new() -> (set: NameSet)
        ensures
            set@ == Seq::<Seq<char>>::empty(),
    {
        let set = NameSet { names: Vec::new() };
        assert(set@ =~= Seq::empty());
        set
    }

    /// How many names there are.
    pub fn len(&self) -> (count: usize)
        ensures
            count == self@.len(),
            ascending(self@),
    {
        proof {
            use_type_invariant(self);
        }
        self.names.len()
    }

    /// The name at a place.
    pub fn get(&self, at: usize) -> (name: &str)
        requires
            at < self@.len(),
        ensures
            name@ == self@[at as int],
    {
        self.names[at].as_str()
    }

    /// Whether `name` is in the set.
    pub fn contains(&self, name: &str) -> (present: bool)
        ensures
            present == self@.contains(name@),
    {
        proof {
            use_type_invariant(self);
        }
        let (_, present) = place(&self.names, name);
        present
    }

    /// Puts `name` into the set.
    pub fn insert(&mut self, name: String)
        ensures
            final(self)@ == with_name(old(self)@, name@),
            ascending(final(self)@),
    {
        proof {
            use_type_invariant(&*self);
        }
        let (at, present) = place(&self.names, name.as_str());
        proof {
            lemma_split(self@, name@, at as int);
        }
        if !present {
            let mut names: Vec<String> = Vec::new();
            std::mem::swap(&mut names, &mut self.names);
            let ghost earlier = texts(names@);
            let ghost added = name@;
            proof {
                if at < earlier.len() {
                    text::order_is_total(earlier[at as int], added);
                }
                lemma_insertion_ascends(earlier, added, at as int);
            }
            names.insert(at, name);
            assert(texts(names@) =~= earlier.insert(at as int, added));
            assert(with_name(earlier, added) =~= earlier.insert(at as int, added));
            self.names = names;
        }
    }

    /// Puts a name behind all others, which it must not precede.
    pub fn push(&mut self, name: String)
        requires
            forall|i: int| 0 <= i < old(self)@.len() ==> text::precedes(
                #[trigger] old(self)@[i],
                name@,
            ),
        ensures
            final(self)@ == old(self)@.push(name@),
    {
        proof {
            use_type_invariant(&*self);
        }
        let ghost earlier = self@;
        let mut names: Vec<String> = Vec::new();
        std::mem::swap(&mut names, &mut self.names);
        let ghost added = name@;
        names.push(name);
        assert(texts(names@) =~= earlier.push(added));
        assert forall|i: int, j: int| 0 <= i < j < names@.len() implies text::precedes(
            #[trigger] texts(names@)[i],
            #[trigger] texts(names@)[j],
        ) by {
            if j < earlier.len() {
                assert(text::precedes(earlier[i], earlier[j]));
            } else {
                assert(text::precedes(earlier[i], added));
            }
        }
        self.names = names;
    }
}

impl Clone for NameSet {
    fn clone(&self) -> (copy: NameSet)
        ensures
            copy@ == self@,
    {
        proof {
            use_type_invariant(self);
        }
        let names = clone_texts(&self.names);
        NameSet { names }
    }
}

/// A copy of a list of texts.
pub fn clone_texts(list: &Vec<String>) -> (copy: Vec<String>)
    ensures
        copy@ == list@,
{
    let mut copy: Vec<String> = Vec::new();
    let mut i: usize = 0;
    while i < list.len()
        invariant
            i <= list@.len(),
            copy@ == list@.take(i as int),
        decreases list@.len() - i,
    {
        copy.push(list[i].clone());
        i = i + 1;
        assert(list@.take(i as int) =~= list@.take(i - 1).push(list@[i - 1]));
    }
    assert(list@.take(i as int) =~= list@);
    copy
}

/// A named value, by its characters.
pub type Entry = (Seq<char>, Seq<char>);

/// The names of the entries.
pub open spec fn names_of(entries: Seq<Entry>) -> Seq<Seq<char>> {
    entries.map_values(|entry: Entry| entry.0)
}

/// The entries with `name` holding `value`: the entries before it, itself,
/// and the entries behind it.
pub open spec fn with_entry(entries: Seq<Entry>, name: Seq<char>, value: Seq<char>) -> Seq<Entry> {
    entries.filter(|entry: Entry| text::precedes(entry.0, name)).push((name, value))
        + entries.filter(|entry: Entry| text::precedes(name, entry.0))
}

/// What the entries map each name to.
pub open spec fn table(entries: Seq<Entry>) -> Map<Seq<char>, Seq<char>>
    decreases entries.len(),
{
    if entries.len() == 0 {
        Map::empty()
    } else {
        table(entries.drop_last()).insert(entries.last().0, entries.last().1)
    }
}

proof fn lemma_split_entries(entries: Seq<Entry>, name: Seq<char>, value: Seq<char>, at: int)
    requires
        ascending(names_of(entries)),
        0 <= at <= entries.len(),
        forall|i: int| 0 <= i < at ==> text::precedes(#[trigger] names_of(entries)[i], name),
        at < entries.len() ==> !text::precedes(names_of(entries)[at], name),
    ensures
        at < entries.len() && entries[at].0 == name ==> with_entry(entries, name, value)
            == entries.update(at, (name, value)),
        !(at < entries.len() && entries[at].0 == name) ==> with_entry(entries, name, value)
            == entries.insert(at, (name, value)),
{
    let names = names_of(entries);
    let keep_before = |entry: Entry| text::precedes(entry.0, name);
    let keep_after = |entry: Entry| text::precedes(name, entry.0);
    text::order_is_irreflexive(name);
    assert forall|i: int| 0 <= i < at implies keep_before(#[trigger] entries[i])
        && !keep_after(entries[i]) by {
        assert(text::precedes(names[i], name));
        if text::precedes(name, names[i]) {
            text::order_is_transitive(name, names[i], name);
        }
    }
    assert forall|i: int| at <= i < entries.len() implies !keep_before(#[trigger] entries[i]) by {
        if text::precedes(names[i], name) && at < i {
            text::order_is_transitive(names[at], names[i], name);
        }
    }
    lemma_filter_takes(entries, keep_before, at);
    if at < entries.len() && entries[at].0 == name {
        assert forall|i: int| at + 1 <= i < entries.len() implies keep_after(
            #[trigger] entries[i],
        ) by {
            assert(text::precedes(names[at], names[i]));
        }
        lemma_filter_skips(entries, keep_after, at + 1);
        assert(with_entry(entries, name, value) =~= entries.update(at, (name, value)));
    } else {
        if at < entries.len() {
            text::order_is_total(names[at], name);
        }
        assert forall|i: int| at <= i < entries.len() implies keep_after(#[trigger] entries[i]) by {
            if at < i {
                text::order_is_transitive(name, names[at], names[i]);
            }
        }
        lemma_filter_skips(entries, keep_after, at);
        assert(with_entry(entries, name, value) =~= entries.insert(at, (name, value)));
    }
}

/// Names with a value each, listed in ascending order of the names.
pub struct NameMap {
    names: Vec<String>,
    values: Vec<String>,
}

/// The names and values, side by side.
pub open spec fn pair_up(names: Seq<String>, values: Seq<String>) -> Seq<Entry> {
    Seq::new(names.len(), |i: int| (names[i]@, values[i]@))
}

impl View for NameMap {
    type V = Seq<Entry>;

    closed spec fn view(&self) -> Seq<Entry> {
        pair_up(self.names@, self.values@)
    }
}

impl NameMap {
    #[verifier::type_invariant]
    closed spec fn well_formed(self) -> bool {
        &&& ascending(texts(self.names@))
        &&& self.names@.len() == self.values@.len()
    }

    /// No entries.
    pub fn new() -> (map: NameMap)
        ensures
            map@ == Seq::<Entry>::empty(),
    {
        let map = NameMap { names: Vec::new(), values: Vec::new() };
        assert(map@ =~= Seq::empty());
        map
    }

    /// How many entries there are.
    pub fn len(&self) -> (count: usize)
        ensures
            count == self@.len(),
            ascending(names_of(self@)),
    {
        proof {
            use_type_invariant(self);
            assert(names_of(self@) =~= texts(self.names@));
        }
        self.names.len()
    }

    /// The name at a place.
    pub fn name(&self, at: usize) -> (name: &str)
        requires
            at < self@.len(),
        ensures
            name@ == self@[at as int].0,
    {
        self.names[at].as_str()
    }

    /// The value at a place.
    pub fn value(&self, at: usize) -> (value: &str)
        requires
            at < self@.len(),
        ensures
            value@ == self@[at as int].1,
    {
        proof {
            use_type_invariant(self);
        }
        self.values[at].as_str()
    }

    /// Lets `name` hold `value`, whatever it held before.
    pub fn insert(&mut self, name: String, value: String)
        ensures
            final(self)@ == with_entry(old(self)@, name@, value@),
            ascending(names_of(final(self)@)),
    {
        proof {
            use_type_invariant(&*self);
            assert(names_of(self@) =~= texts(self.names@));
        }
        let (at, present) = place(&self.names, name.as_str());
        let ghost earlier = self@;
        let ghost added = (name@, value@);
        let ghost list = texts(self.names@);
        proof {
            lemma_split_entries(earlier, name@, value@, at as int);
        }
        let mut taken = NameMap::new();
        std::mem::swap(&mut taken, self);
        let NameMap { mut names, mut values } = taken;
        if present {
            values.set(at, value);
            assert(pair_up(names@, values@) =~= earlier.update(at as int, added));
        } else {
            proof {
                if at < list.len() {
                    text::order_is_total(list[at as int], added.0);
                }
                lemma_insertion_ascends(list, added.0, at as int);
            }
            names.insert(at, name);
            values.insert(at, value);
            assert(texts(names@) =~= list.insert(at as int, added.0));
            assert(pair_up(names@, values@) =~= earlier.insert(at as int, added));
        }
        *self = NameMap { names, values };
        assert(names_of(self@) =~= texts(self.names@));
    }
}

impl Clone for NameMap {
    fn clone(&self) -> (copy: NameMap)
        ensures
            copy@ == self@,
    {
        proof {
            use_type_invariant(self);
        }
        let names = clone_texts(&self.names);
        let values = clone_texts(&self.values);
        NameMap { names, values }
    }
}

/// A filter keeps exactly the items that meet its condition.
pub proof fn filters_keep_what_they_should<A>(items: Seq<A>, keep: spec_fn(A) -> bool, item: A)
    ensures
        items.filter(keep).contains(item) == (items.contains(item) && keep(item)),
    decreases items.len(),
{
    reveal(Seq::filter);
    if items.len() > 0 {
        let rest = items.drop_last();
        filters_keep_what_they_should(rest, keep, item);
        assert(items =~= rest.push(items.last()));
        lemma_push_contains(rest, items.last(), item);
        lemma_push_contains(rest.filter(keep), items.last(), item);
    }
}

proof fn lemma_push_contains<A>(items: Seq<A>, last: A, item: A)
    ensures
        items.push(last).contains(item) == (items.contains(item) || last == item),
{
    if items.contains(item) {
        let at = choose|at: int| 0 <= at < items.len() && items[at] == item;
        assert(items.push(last)[at] == item);
    }
    if last == item {
        assert(items.push(last)[items.len() as int] == item);
    }
}

proof fn lemma_add_contains<A>(first: Seq<A>, second: Seq<A>, item: A)
    ensures
        (first + second).contains(item) == (first.contains(item) || second.contains(item)),
{
    let all = first + second;
    if first.contains(item) {
        let at = choose|at: int| 0 <= at < first.len() && first[at] == item;
        assert(all[at] == item);
    }
    if second.contains(item) {
        let at = choose|at: int| 0 <= at < second.len() && second[at] == item;
        assert(all[first.len() + at] == item);
    }
    if all.contains(item) {
        let at = choose|at: int| 0 <= at < all.len() && all[at] == item;
        if at >= first.len() {
            assert(second[at - first.len()] == item);
        }
    }
}

/// A name that is put in is in, and so is every name that was in before; no
/// other is.
pub proof fn inserted_names_are_contained(
    names: Seq<Seq<char>>,
    name: Seq<char>,
    other: Seq<char>,
)
    ensures
        with_name(names, name).contains(other) == (other == name || names.contains(other)),
{
    let keep_before = |item: Seq<char>| text::precedes(item, name);
    let keep_after = |item: Seq<char>| text::precedes(name, item);
    filters_keep_what_they_should(names, keep_before, other);
    filters_keep_what_they_should(names, keep_after, other);
    lemma_push_contains(before(names, name), name, other);
    lemma_add_contains(before(names, name).push(name), after(names, name), other);
    text::order_is_total(other, name);
}

/// The entries with a name keep what every other name holds, and are still in
/// order.
pub proof fn entries_are_a_table(entries: Seq<Entry>, name: Seq<char>, value: Seq<char>)
    requires
        ascending(names_of(entries)),
    ensures
        table(with_entry(entries, name, value)) == table(entries).insert(name, value),
        ascending(names_of(with_entry(entries, name, value))),
{
    let at = lemma_place(names_of(entries), name);
    let names = names_of(entries);
    lemma_split_entries(entries, name, value, at);
    let result = with_entry(entries, name, value);
    if at < entries.len() && entries[at].0 == name {
        assert(names_of(result) =~= names);
        assert forall|i: int, j: int| 0 <= i < j < entries.len() implies entries[i].0
            != entries[j].0 by {
            text::order_is_irreflexive(names[i]);
            assert(text::precedes(names[i], names[j]));
        }
        lemma_table_updates(entries, at, value);
    } else {
        if at < entries.len() {
            text::order_is_total(names[at], name);
        }
        lemma_insertion_ascends(names, name, at);
        assert(names_of(result) =~= names.insert(at, name));
        assert forall|i: int| at <= i < entries.len() implies entries[i].0 != name by {
            text::order_is_irreflexive(name);
            if at < i {
                text::order_is_transitive(name, names[at], names[i]);
            }
        }
        lemma_table_inserts(entries, at, (name, value));
    }
}

proof fn lemma_place(names: Seq<Seq<char>>, name: Seq<char>) -> (at: int)
    ensures
        0 <= at <= names.len(),
        forall|i: int| 0 <= i < at ==> text::precedes(#[trigger] names[i], name),
        at < names.len() ==> !text::precedes(names[at], name),
    decreases names.len(),
{
    if names.len() == 0 {
        0
    } else {
        let at = lemma_place(names.drop_last(), name);
        assert forall|i: int| 0 <= i < at implies text::precedes(#[trigger] names[i], name) by {
            assert(text::precedes(names.drop_last()[i], name));
        }
        if at == names.len() - 1 && text::precedes(names.last(), name) {
            at + 1
        } else {
            at
        }
    }
}

proof fn lemma_table_updates(entries: Seq<Entry>, at: int, value: Seq<char>)
    requires
        0 <= at < entries.len(),
        forall|i: int, j: int| 0 <= i < j < entries.len() ==> entries[i].0 != entries[j].0,
    ensures
        table(entries.update(at, (entries[at].0, value))) == table(entries).insert(
            entries[at].0,
            value,
        ),
    decreases entries.len(),
{
    let name = entries[at].0;
    let result = entries.update(at, (name, value));
    let last = entries.len() - 1;
    if at == last {
        assert(result.drop_last() =~= entries.drop_last());
        assert(table(result) =~= table(entries).insert(name, value));
    } else {
        assert(entries.drop_last()[at] == entries[at]);
        lemma_table_updates(entries.drop_last(), at, value);
        assert(result.drop_last() =~= entries.drop_last().update(at, (name, value)));
        assert(entries[at].0 != entries[last].0);
        assert(table(result) =~= table(entries).insert(name, value));
    }
}

proof fn lemma_table_inserts(entries: Seq<Entry>, at: int, added: Entry)
    requires
        0 <= at <= entries.len(),
        forall|i: int| at <= i < entries.len() ==> (#[trigger] entries[i]).0 != added.0,
    ensures
        table(entries.insert(at, added)) == table(entries).insert(added.0, added.1),
    decreases entries.len(),
{
    let result = entries.insert(at, added);
    if at == entries.len() {
        assert(result.drop_last() =~= entries);
    } else {
        lemma_table_inserts(entries.drop_last(), at, added);
        assert(result.drop_last() =~= entries.drop_last().insert(at, added));
        assert(entries[entries.len() - 1].0 != added.0);
        assert(table(result) =~= table(entries).insert(added.0, added.1));
    }
}

} // verus!
