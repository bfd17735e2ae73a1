use vstd::prelude::*;

verus! {

/// One attribute of a stored item, as far as this service reads it:
/// a string, a set of strings, or some other kind of attribute.
pub enum AttrValue {
    S(String),
    Ss(Vec<String>),
    Other,
}

/// The mathematical value of an attribute.
pub enum AttrView {
    S(Seq<char>),
    Ss(Seq<Seq<char>>),
    Other,
}

impl View for AttrValue {
    type V = AttrView;

    open spec fn view(&self) -> AttrView {
        match self {
            AttrValue::S(s) => AttrView::S(s@),
            AttrValue::Ss(v) => AttrView::Ss(v.deep_view()),
            AttrValue::Other => AttrView::Other,
        }
    }
}

/// An item of the table: attribute names mapped to attribute values.
pub struct Item {
    entries: Vec<(String, AttrValue)>,
}

impl Item {
    #[verifier::type_invariant]
    closed spec fn names_distinct(self) -> bool {
        forall|i: int, j: int|
            0 <= i < self.entries@.len() && 0 <= j < self.entries@.len() && i != j
                ==> #[trigger] self.entries@[i].0@ != #[trigger] self.entries@[j].0@
    }

    closed spec fn holds_name(self, k: Seq<char>) -> bool {
        exists|i: int| 0 <= i < self.entries@.len() && #[trigger] self.entries@[i].0@ == k
    }

    closed spec fn index_of(self, k: Seq<char>) -> int {
        choose|i: int| 0 <= i < self.entries@.len() && #[trigger] self.entries@[i].0@ == k
    }
}

impl View for Item {
    type V = Map<Seq<char>, AttrView>;

    closed spec fn view(&self) -> Map<Seq<char>, AttrView> {
        Map::new(|k: Seq<char>| self.holds_name(k), |k: Seq<char>| self.entries@[self.index_of(k)].1@)
    }
}

impl Item {
    /// An item with no attributes.
    pub fn new() -> (r: Item)
        ensures
            r@ == Map::<Seq<char>, AttrView>::empty(),
    {
        let r = Item { entries: Vec::new() };
        assert(r@ =~= Map::<Seq<char>, AttrView>::empty());
        r
    }

    /// The position of the entry named `key`, if there is one.
    fn find(&self, key: &str) -> (r: Option<usize>)
        ensures
            match r {
                Some(i) => i < self.entries@.len() && self.entries@[i as int].0@ == key@,
                None => !self.holds_name(key@),
            },
    {
        let k = String::from_str(key);
        let mut i: usize = 0;
        while i < self.entries.len()
            invariant
                i <= self.entries@.len(),
                k@ == key@,
                forall|j: int| 0 <= j < i ==> #[trigger] self.entries@[j].0@ != key@,
            decreases self.entries@.len() - i,
        {
            if self.entries[i].0 == k {
                return Some(i);
            }
            i = i + 1;
        }
        None
    }

    /// The attribute named `key`, if the item has one.
    pub fn get(&self, key: &str) -> (r: Option<&AttrValue>)
        ensures
            match r {
                Some(v) => self@.contains_key(key@) && self@[key@] == v@,
                None => !self@.contains_key(key@),
            },
    {
        proof {
            use_type_invariant(self);
        }
        match self.find(key) {
            Some(i) => {
                let ghost k = key@;
                assert(self.holds_name(k));
                let ghost j = self.index_of(k);
                assert(j == i);
                Some(&self.entries[i].1)
            },
            None => None,
        }
    }

    /// Sets the attribute named `key` to `value`, replacing any attribute
    /// of that name.
    pub fn insert(&mut self, key: String, value: AttrValue)
        ensures
            final(self)@ == old(self)@.insert(key@, value@),
    {
        proof {
            use_type_invariant(&*self);
        }
        let ghost before = *self;
        let pos = self.find(key.as_str());
        let mut entries = Vec::new();
        std::mem::swap(&mut entries, &mut self.entries);
        match pos {
            Some(i) => {
                entries.set(i, (key, value));
            },
            None => {
                entries.push((key, value));
            },
        }
        self.entries = entries;
        proof {
            let ghost k = key@;
            assert forall|n: Seq<char>| #![auto] self@.contains_key(n) == before@.insert(k, value@).contains_key(n) by {
                if before.holds_name(n) {
                    let j = before.index_of(n);
                    if n != k {
                        assert(self.entries@[j].0@ == n);
                    }
                }
                if self.holds_name(n) && n != k {
                    let j = self.index_of(n);
                    assert(before.entries@[j].0@ == n);
                }
                if n == k {
                    match pos {
                        Some(i) => { assert(self.entries@[i as int].0@ == k); },
                        None => { assert(self.entries@[self.entries@.len() - 1].0@ == k); },
                    }
                }
            }
            assert forall|n: Seq<char>| #![auto] self@.contains_key(n) implies self@[n] == before@.insert(k, value@)[n] by {
                let j = self.index_of(n);
                if n == k {
                    match pos {
                        Some(i) => { assert(j == i); },
                        None => { assert(j == self.entries@.len() - 1); },
                    }
                } else {
                    assert(before.entries@[j].0@ == n);
                    assert(before.holds_name(n));
                    assert(before.index_of(n) == j);
                }
            }
            assert(self@ =~= before@.insert(k, value@));
        }
    }

    /// The attributes of the item as name-value pairs, each name once.
    pub fn into_pairs(self) -> (r: Vec<(String, AttrValue)>)
        ensures
            forall|i: int, j: int|
                0 <= i < r@.len() && 0 <= j < r@.len() && i != j ==> #[trigger] r@[i].0@ != #[trigger] r@[j].0@,
            forall|i: int| 0 <= i < r@.len() ==> self@.contains_key(#[trigger] r@[i].0@) && self@[r@[i].0@] == r@[i].1@,
            forall|k: Seq<char>| self@.contains_key(k) ==> exists|i: int| 0 <= i < r@.len() && #[trigger] r@[i].0@ == k,
    {
        proof {
            use_type_invariant(&self);
            assert forall|i: int| 0 <= i < self.entries@.len() implies self@.contains_key(#[trigger] self.entries@[i].0@)
                && self@[self.entries@[i].0@] == self.entries@[i].1@ by {
                let k = self.entries@[i].0@;
                assert(self.holds_name(k));
                assert(self.index_of(k) == i);
            }
        }
        let Item { entries } = self;
        entries
    }
}

} // verus!
