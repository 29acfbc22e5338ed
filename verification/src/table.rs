//! Maps from text to values that remember the order in which their keys came.

use vstd::prelude::*;

use crate::scan::{opt_text, texts};
use crate::text::{same, Text};

verus! {

// ---------------------------------------------------------------------------------------------
// The model
// ---------------------------------------------------------------------------------------------
/// The first position of the key `k` in `t`, or -1.
pub open spec fn slot<V>(t: Seq<(Text, V)>, k: Text) -> int
    decreases t.len(),
{
    if t.len() == 0 {
        -1
    } else if slot(t.drop_last(), k) >= 0 {
        slot(t.drop_last(), k)
    } else if t.last().0 == k {
        t.len() - 1
    } else {
        -1
    }
}

/// The value that `t` holds for `k`.
pub open spec fn lookup<V>(t: Seq<(Text, V)>, k: Text) -> Option<V> {
    if slot(t, k) >= 0 {
        Some(t[slot(t, k)].1)
    } else {
        None
    }
}

/// The value that `t` holds for `k`, or `other`.
pub open spec fn lookup_or<V>(t: Seq<(Text, V)>, k: Text, other: V) -> V {
    match lookup(t, k) {
        Some(v) => v,
        None => other,
    }
}

/// `t` holds a value for `k`.
pub open spec fn has<V>(t: Seq<(Text, V)>, k: Text) -> bool {
    slot(t, k) >= 0
}

/// `t` with the value `v` for `k`: in its place where `k` has one, else behind the rest.
pub open spec fn put<V>(t: Seq<(Text, V)>, k: Text, v: V) -> Seq<(Text, V)> {
    if slot(t, k) >= 0 {
        t.update(slot(t, k), (k, v))
    } else {
        t.push((k, v))
    }
}

/// No key stands in `t` twice.
pub open spec fn distinct<V>(t: Seq<(Text, V)>) -> bool {
    forall|i: int, j: int| 0 <= i < j < t.len() ==> (#[trigger] t[i]).0 != (#[trigger] t[j]).0
}

/// The keys of `t`, in the order in which they came.
pub open spec fn keys_of<V>(t: Seq<(Text, V)>) -> Seq<Text> {
    t.map_values(|e: (Text, V)| e.0)
}

/// Where [`slot`] points, the key stands, and it stands nowhere before.
pub proof fn lemma_slot<V>(t: Seq<(Text, V)>, k: Text)
    ensures
        -1 <= slot(t, k) < t.len(),
        slot(t, k) >= 0 ==> t[slot(t, k)].0 == k,
        forall|i: int|
            0 <= i < t.len() && (slot(t, k) < 0 || i < slot(t, k)) ==> (#[trigger] t[i]).0 != k,
    decreases t.len(),
{
    if t.len() > 0 {
        lemma_slot(t.drop_last(), k);
        assert forall|i: int|
            0 <= i < t.len() && (slot(t, k) < 0 || i < slot(t, k)) implies (#[trigger] t[i]).0 != k by {
            if i < t.len() - 1 {
                assert(t.drop_last()[i] == t[i]);
            }
        }
        if slot(t.drop_last(), k) >= 0 {
            assert(t.drop_last()[slot(t.drop_last(), k)] == t[slot(t, k)]);
        }
    }
}

/// A position that holds the key and follows no other such position is the one that [`slot`] gives.
pub proof fn lemma_slot_is<V>(t: Seq<(Text, V)>, k: Text, i: int)
    requires
        0 <= i < t.len(),
        t[i].0 == k,
        forall|j: int| 0 <= j < i ==> (#[trigger] t[j]).0 != k,
    ensures
        slot(t, k) == i,
{
    lemma_slot(t, k);
    if slot(t, k) < 0 {
        assert(t[i].0 != k);
    } else if slot(t, k) < i {
        assert(t[slot(t, k)].0 != k);
    } else if slot(t, k) > i {
        assert(t[i].0 != k);
    }
}

/// Storing a value keeps every key in one place only, gives the value back for its own key, and
/// leaves the values of the other keys as they were.
pub proof fn lemma_put<V>(t: Seq<(Text, V)>, k: Text, v: V)
    requires
        distinct(t),
    ensures
        distinct(put(t, k, v)),
        lookup(put(t, k, v), k) == Some(v),
        forall|other: Text| other != k ==> #[trigger] lookup(put(t, k, v), other) == lookup(t, other),
{
    let u = put(t, k, v);
    lemma_slot(t, k);
    assert forall|i: int, j: int| 0 <= i < j < u.len() implies (#[trigger] u[i]).0 != (
    #[trigger] u[j]).0 by {
        if slot(t, k) < 0 && j == t.len() {
            assert(t[i].0 != k);
        } else {
            assert(t[i].0 != t[j].0);
        }
    }
    let at = if slot(t, k) >= 0 {
        slot(t, k)
    } else {
        t.len() as int
    };
    lemma_slot_is(u, k, at);
    assert forall|other: Text| other != k implies #[trigger] lookup(u, other) == lookup(t, other) by {
        lemma_slot(t, other);
        lemma_slot(u, other);
        if slot(t, other) >= 0 {
            let p = slot(t, other);
            assert(u[p] == t[p]);
            assert forall|j: int| 0 <= j < p implies (#[trigger] u[j]).0 != other by {
                if j < t.len() {
                    assert(t[j].0 != other);
                }
            }
            lemma_slot_is(u, other, p);
        } else if slot(u, other) >= 0 {
            let p = slot(u, other);
            if p < t.len() {
                assert(t[p].0 != other);
            }
        }
    }
}

// ---------------------------------------------------------------------------------------------
// The table
// ---------------------------------------------------------------------------------------------
/// A map from text to `V`. Every key stands in it once, in the order of first insertion.
pub struct Table<V: View> {
    entries: Vec<(String, V)>,
}

impl<V: View> View for Table<V> {
    type V = Seq<(Text, V::V)>;

    closed spec fn view(&self) -> Seq<(Text, V::V)> {
        self.entries@.map_values(|e: (String, V)| (e.0@, e.1@))
    }
}

impl<V: View> Table<V> {
    /// No key stands in the table twice.
    pub open spec fn well_formed(&self) -> bool {
        distinct(self@)
    }

    /// An empty table.
    pub fn new() -> (r: Self)
        ensures
            r@ == Seq::<(Text, V::V)>::empty(),
            r.well_formed(),
    {
        let entries: Vec<(String, V)> = Vec::new();
        let r = Table { entries };
        assert(r@ == Seq::<(Text, V::V)>::empty());
        r
    }

    /// How many keys the table holds.
    pub fn len(&self) -> (r: usize)
        ensures
            r == self@.len(),
    {
        self.entries.len()
    }

    fn position(&self, k: &str) -> (r: Option<usize>)
        ensures
            match r {
                Some(i) => slot(self@, k@) == i && i < self.entries@.len(),
                None => slot(self@, k@) == -1,
            },
    {
        let mut i: usize = 0;
        while i < self.entries.len()
            invariant
                i <= self.entries@.len(),
                forall|j: int| 0 <= j < i ==> (#[trigger] self@[j]).0 != k@,
            decreases self.entries.len() - i,
        {
            assert(self@[i as int] == (self.entries@[i as int].0@, self.entries@[i as int].1@));
            if same(&self.entries[i].0, k) {
                proof {
                    lemma_slot_is(self@, k@, i as int);
                }
                return Some(i);
            }
            i += 1;
        }
        proof {
            lemma_slot(self@, k@);
        }
        None
    }

    /// Whether there is an entry under `k`.
    pub fn contains(&self, k: &str) -> (r: bool)
        ensures
            r == has(self@, k@),
    {
        match self.position(k) {
            Some(_) => true,
            None => false,
        }
    }

    /// The entry under `k`.
    pub fn get(&self, k: &str) -> (r: Option<&V>)
        ensures
            match r {
                Some(v) => lookup(self@, k@) == Some(v@),
                None => lookup(self@, k@) is None,
            },
    {
        match self.position(k) {
            Some(i) => Some(&self.entries[i].1),
            None => None,
        }
    }

    /// The key at a position.
    pub fn key(&self, i: usize) -> (r: &String)
        requires
            i < self@.len(),
        ensures
            r@ == self@[i as int].0,
    {
        &self.entries[i].0
    }

    /// The value at a position.
    pub fn value(&self, i: usize) -> (r: &V)
        requires
            i < self@.len(),
        ensures
            r@ == self@[i as int].1,
    {
        &self.entries[i].1
    }

    /// Puts `v` under `k`: in place of the entry there, or behind all others.
    pub fn insert(&mut self, k: &str, v: V)
        ensures
            final(self)@ == put(old(self)@, k@, v@),
            old(self).well_formed() ==> final(self).well_formed(),
    {
        let ghost before = self@;
        let ghost value = v@;
        proof {
            lemma_slot(before, k@);
            if distinct(before) {
                lemma_put(before, k@, value);
            }
        }
        let key = k.to_owned();
        match self.position(k) {
            Some(i) => {
                self.entries.set(i, (key, v));
                assert(self@ == put(before, k@, value));
            },
            None => {
                self.entries.push((key, v));
                assert(self@ == put(before, k@, value));
            },
        }
    }

    /// The keys, in the order in which they came.
    pub fn keys(&self) -> (r: Vec<String>)
        ensures
            texts(r@) == keys_of(self@),
    {
        let mut r: Vec<String> = Vec::new();
        let mut i: usize = 0;
        while i < self.entries.len()
            invariant
                i <= self.entries@.len(),
                texts(r@) == keys_of(self@).take(i as int),
            decreases self.entries.len() - i,
        {
            let ghost before = r@;
            r.push(self.entries[i].0.clone());
            assert(texts(r@) == texts(before).push(self@[i as int].0));
            assert(keys_of(self@).take(i + 1) == keys_of(self@).take(i as int).push(self@[i as int].0));
            i += 1;
        }
        assert(keys_of(self@).take(i as int) == keys_of(self@));
        r
    }
}

impl Table<String> {
    /// A table with the same entries.
    pub fn copy(&self) -> (r: Self)
        ensures
            r@ == self@,
    {
        let mut entries: Vec<(String, String)> = Vec::new();
        let mut i: usize = 0;
        while i < self.entries.len()
            invariant
                i <= self.entries@.len(),
                entries@ == self.entries@.take(i as int),
            decreases self.entries.len() - i,
        {
            entries.push((self.entries[i].0.clone(), self.entries[i].1.clone()));
            assert(entries@ == self.entries@.take(i + 1));
            i += 1;
        }
        assert(entries@ == self.entries@);
        let r = Table { entries };
        r
    }
}

// ---------------------------------------------------------------------------------------------
// What a table holds
// ---------------------------------------------------------------------------------------------
/// A list of pairs of `String`s as a list of pairs of texts.
pub open spec fn pairs(v: Seq<(String, String)>) -> Seq<(Text, Text)> {
    v.map_values(|e: (String, String)| (e.0@, e.1@))
}

/// A list of names, each with a text that belongs to it (a field with its type, a method with the
/// function that implements it).
pub struct Pairs {
    pub list: Vec<(String, String)>,
}

impl View for Pairs {
    type V = Seq<(Text, Text)>;

    open spec fn view(&self) -> Seq<(Text, Text)> {
        pairs(self.list@)
    }
}

impl Pairs {
    /// The same pairs again.
    pub fn copy(&self) -> (r: Pairs)
        ensures
            r@ == self@,
    {
        let mut list: Vec<(String, String)> = Vec::new();
        let mut i: usize = 0;
        while i < self.list.len()
            invariant
                i <= self.list@.len(),
                list@ == self.list@.take(i as int),
            decreases self.list.len() - i,
        {
            list.push((self.list[i].0.clone(), self.list[i].1.clone()));
            assert(list@ == self.list@.take(i + 1));
            i += 1;
        }
        assert(list@ == self.list@);
        Pairs { list }
    }

    /// The position of the first pair whose name is `name`.
    pub fn position(&self, name: &str) -> (r: Option<usize>)
        ensures
            match r {
                Some(i) => slot(self@, name@) == i && i < self.list@.len(),
                None => slot(self@, name@) == -1,
            },
    {
        let mut i: usize = 0;
        while i < self.list.len()
            invariant
                i <= self.list@.len(),
                forall|j: int| 0 <= j < i ==> (#[trigger] self@[j]).0 != name@,
            decreases self.list.len() - i,
        {
            assert(self@[i as int] == (self.list@[i as int].0@, self.list@[i as int].1@));
            if same(&self.list[i].0, name) {
                proof {
                    lemma_slot_is(self@, name@, i as int);
                }
                return Some(i);
            }
            i += 1;
        }
        proof {
            lemma_slot(self@, name@);
        }
        None
    }
}

impl Pairs {
    /// No pairs.
    pub fn new() -> (r: Pairs)
        ensures
            r@ == Seq::<(Text, Text)>::empty(),
    {
        let list: Vec<(String, String)> = Vec::new();
        let r = Pairs { list };
        assert(r@ == Seq::<(Text, Text)>::empty());
        r
    }

    /// Adds a pair behind the others.
    pub fn push(&mut self, name: &str, text: &str)
        ensures
            final(self)@ == old(self)@.push((name@, text@)),
    {
        let ghost before = self@;
        self.list.push((name.to_owned(), text.to_owned()));
        assert(self@ == before.push((name@, text@)));
    }

    /// Gives `name` the text `text`: in its place where it has one, else behind the rest.
    pub fn put(&mut self, name: &str, text: &str)
        ensures
            final(self)@ == put(old(self)@, name@, text@),
    {
        let ghost before = self@;
        proof {
            lemma_slot(before, name@);
        }
        match self.position(name) {
            Some(i) => {
                self.list.set(i, (name.to_owned(), text.to_owned()));
                assert(self@ == put(before, name@, text@));
            },
            None => {
                self.push(name, text);
            },
        }
    }
}

// ---------------------------------------------------------------------------------------------
// Tables with two keys
// ---------------------------------------------------------------------------------------------
/// The text that `t` holds for the two keys `a` and `b`.
pub open spec fn lookup2(t: Seq<(Text, Seq<(Text, Text)>)>, a: Text, b: Text) -> Option<Text> {
    match lookup(t, a) {
        Some(list) => lookup(list, b),
        None => None,
    }
}

/// `t` with the text `v` for the two keys `a` and `b`.
pub open spec fn put2(
    t: Seq<(Text, Seq<(Text, Text)>)>,
    a: Text,
    b: Text,
    v: Text,
) -> Seq<(Text, Seq<(Text, Text)>)> {
    put(t, a, put(lookup_or(t, a, Seq::<(Text, Text)>::empty()), b, v))
}

impl Table<Pairs> {
    /// The entry under the two keys.
    pub fn get2(&self, a: &str, b: &str) -> (r: Option<String>)
        ensures
            opt_text(r) == lookup2(self@, a@, b@),
    {
        match self.get(a) {
            Some(list) => match list.position(b) {
                Some(i) => {
                    let r = list.list[i].1.clone();
                    assert(list@[i as int] == (list.list@[i as int].0@, list.list@[i as int].1@));
                    Some(r)
                },
                None => None,
            },
            None => None,
        }
    }

    /// Puts `v` under the two keys.
    pub fn insert2(&mut self, a: &str, b: &str, v: &str)
        ensures
            final(self)@ == put2(old(self)@, a@, b@, v@),
    {
        let mut list = match self.get(a) {
            Some(list) => list.copy(),
            None => Pairs::new(),
        };
        list.put(b, v);
        self.insert(a, list);
    }
}

/// A list of names.
pub struct Names {
    pub list: Vec<String>,
}

impl View for Names {
    type V = Seq<Text>;

    open spec fn view(&self) -> Seq<Text> {
        texts(self.list@)
    }
}

/// The first position of `name` in `list`, or -1.
pub open spec fn place(list: Seq<Text>, name: Text) -> int
    decreases list.len(),
{
    if list.len() == 0 {
        -1
    } else if place(list.drop_last(), name) >= 0 {
        place(list.drop_last(), name)
    } else if list.last() == name {
        list.len() - 1
    } else {
        -1
    }
}

/// `list` with `name` behind the rest, unless it is there already.
pub open spec fn with_name(list: Seq<Text>, name: Text) -> Seq<Text> {
    if place(list, name) >= 0 {
        list
    } else {
        list.push(name)
    }
}

proof fn lemma_place(list: Seq<Text>, name: Text, n: int)
    requires
        0 <= n <= list.len(),
        forall|j: int| 0 <= j < n ==> list[j] != name,
    ensures
        place(list.take(n), name) == -1,
    decreases n,
{
    if n > 0 {
        lemma_place(list, name, n - 1);
        assert(list.take(n).drop_last() == list.take(n - 1));
    }
}

proof fn lemma_place_keeps(list: Seq<Text>, name: Text, i: int, n: int)
    requires
        0 <= i < n <= list.len(),
        place(list.take(i + 1), name) == i,
    ensures
        place(list.take(n), name) == i,
    decreases n,
{
    if n > i + 1 {
        lemma_place_keeps(list, name, i, n - 1);
        assert(list.take(n).drop_last() == list.take(n - 1));
    }
}

impl Names {
    /// No names.
    pub fn new() -> (r: Names)
        ensures
            r@ == Seq::<Text>::empty(),
    {
        let list: Vec<String> = Vec::new();
        let r = Names { list };
        assert(r@ == Seq::<Text>::empty());
        r
    }

    /// The same names again.
    pub fn copy(&self) -> (r: Names)
        ensures
            r@ == self@,
    {
        let mut list: Vec<String> = Vec::new();
        let mut i: usize = 0;
        while i < self.list.len()
            invariant
                i <= self.list@.len(),
                list@ == self.list@.take(i as int),
            decreases self.list.len() - i,
        {
            list.push(self.list[i].clone());
            assert(list@ == self.list@.take(i + 1));
            i += 1;
        }
        assert(list@ == self.list@);
        Names { list }
    }

    /// The position of the first `name` in the list.
    pub fn position(&self, name: &str) -> (r: Option<usize>)
        ensures
            match r {
                Some(i) => place(self@, name@) == i && i < self.list@.len(),
                None => place(self@, name@) == -1,
            },
    {
        let mut i: usize = 0;
        while i < self.list.len()
            invariant
                i <= self.list@.len(),
                forall|j: int| 0 <= j < i ==> self@[j] != name@,
            decreases self.list.len() - i,
        {
            assert(self@[i as int] == self.list@[i as int]@);
            if same(&self.list[i], name) {
                proof {
                    lemma_place(self@, name@, i as int);
                    assert(self@.take(i + 1).drop_last() == self@.take(i as int));
                    lemma_place_keeps(self@, name@, i as int, self@.len() as int);
                    assert(self@.take(self@.len() as int) == self@);
                }
                return Some(i);
            }
            i += 1;
        }
        proof {
            lemma_place(self@, name@, self@.len() as int);
            assert(self@.take(self@.len() as int) == self@);
        }
        None
    }

    /// Whether the name is there.
    pub fn contains(&self, name: &str) -> (r: bool)
        ensures
            r == (place(self@, name@) >= 0),
    {
        match self.position(name) {
            Some(_) => true,
            None => false,
        }
    }

    /// Adds the name, unless it is there.
    pub fn insert(&mut self, name: &str)
        ensures
            final(self)@ == with_name(old(self)@, name@),
    {
        let ghost before = self@;
        if !self.contains(name) {
            self.list.push(name.to_owned());
            assert(self@ == before.push(name@));
        }
    }

    /// Adds a name behind the others.
    pub fn push(&mut self, name: String)
        ensures
            final(self)@ == old(self)@.push(name@),
    {
        let ghost before = self@;
        self.list.push(name);
        assert(self@ == before.push(name@));
    }
}

} // verus!
