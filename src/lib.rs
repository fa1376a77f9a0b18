use vstd::prelude::*;

verus! {

/// One of the three named fields of a record.
#[derive(Clone, Copy, Debug, PartialEq, Eq, Structural)]
pub enum Item {
    First,
    Second,
    Third,
}

impl Item {
    /// The position of the field within a record: First, Second and Third
    /// take 0, 1 and 2.
    pub open spec fn spec_index(self) -> nat {
        match self {
            Item::First => 0,
            Item::Second => 1,
            Item::Third => 2,
        }
    }

    /// The position of the field, usable as an index into a three-slot array.
    pub fn index(&self) -> (r: usize)
        ensures
            r as nat == self.spec_index(),
            r < 3,
    {
        match self {
            Item::First => 0,
            Item::Second => 1,
            Item::Third => 2,
        }
    }
}

/// Each field has a position below three, and two fields share a position
/// exactly when they are the same field.
pub proof fn lemma_index_unique(a: Item, b: Item)
    ensures
        a.spec_index() < 3,
        (a.spec_index() == b.spec_index()) <==> (a == b),
{
}

/// Every position below three belongs to some field.
pub proof fn lemma_index_covers(i: nat)
    requires
        i < 3,
    ensures
        exists|f: Item| f.spec_index() == i,
{
    if i == 0 {
        assert(Item::First.spec_index() == i);
    } else if i == 1 {
        assert(Item::Second.spec_index() == i);
    } else {
        assert(Item::Third.spec_index() == i);
    }
}

/// Three slots of one type, addressed by `Item`.
#[derive(Debug, PartialEq)]
pub struct Slots<T> {
    pub slots: [T; 3],
}

impl<T> Slots<T> {
    /// The value held in the slot addressed by `item`.
    pub open spec fn view_item(self, item: Item) -> T {
        self.slots@[item.spec_index() as int]
    }

    /// The slots after `value` is written into the one addressed by `item`.
    pub open spec fn with_item(self, item: Item, value: T) -> Seq<T> {
        self.slots@.update(item.spec_index() as int, value)
    }
}

impl<T: Copy> Slots<T> {
    /// Reads the slot addressed by `item`.
    pub fn get_item(&self, item: Item) -> (r: T)
        ensures
            r == self.view_item(item),
    {
        self.slots[item.index()]
    }

    /// Writes `value` into the slot addressed by `item`, leaving the other
    /// two slots as they were.
    pub fn set_item(&mut self, item: Item, value: T)
        ensures
            final(self).slots@ == old(self).with_item(item, value),
    {
        self.slots[item.index()] = value;
    }
}

/// After `value` is written into the slot of `item`, reading that slot gives
/// `value` back, and reading any other slot gives what it held before.
pub proof fn lemma_set_then_get<T>(before: Slots<T>, after: Slots<T>, item: Item, value: T, other: Item)
    requires
        after.slots@ == before.with_item(item, value),
    ensures
        after.view_item(item) == value,
        other != item ==> after.view_item(other) == before.view_item(other),
{
    lemma_index_unique(item, other);
}

/// Two reads of the same slot, with no write between them, give the same
/// value.
pub proof fn lemma_get_twice<T>(s: Slots<T>, item: Item, first: T, second: T)
    requires
        first == s.view_item(item),
        second == s.view_item(item),
    ensures
        first == second,
{
}

/// Writes into two different slots give the same slots in either order.
pub proof fn lemma_set_commutes<T>(s: Slots<T>, a: Item, x: T, b: Item, y: T)
    requires
        a != b,
    ensures
        s.with_item(a, x).update(b.spec_index() as int, y) == s.with_item(b, y).update(
            a.spec_index() as int,
            x,
        ),
{
    lemma_index_unique(a, b);
    assert(s.with_item(a, x).update(b.spec_index() as int, y) =~= s.with_item(b, y).update(
        a.spec_index() as int,
        x,
    ));
}

} // verus!
