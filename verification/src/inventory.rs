//! Inventory: item slots, capacity and currency for one actor, plus the
//! shared read-only item catalog.
//!
//! An inventory is modelled as a mapping from item identifier to a
//! positive quantity.  Zero-quantity slots are never stored: a removal
//! that empties a slot deletes it.  The capacity field counts the
//! maximum distinct slots; it is a soft limit that `add` deliberately
//! does not enforce.  See the tests for the consequence.

use crate::ProgressionError;
use vstd::prelude::*;

verus! {

/// Broad category of an item in the catalog.
#[derive(Clone, Copy, Debug, PartialEq, Eq, Structural)]
pub enum ItemType {
    Resource,
    Equipment,
    Consumable,
    Food,
    Quest,
}

/// One entry of the shared item catalog.
#[derive(Clone, Debug)]
pub struct ItemDefinition {
    pub id: u64,
    pub name: String,
    pub description: String,
    pub stackable: bool,
    pub value: u32,
    pub item_type: ItemType,
}

/// The shared, read-only item catalog.
pub struct ItemDatabase {
    items: Vec<ItemDefinition>,
}

impl ItemDatabase {
    /// The catalog entries, in catalog order.
    pub closed spec fn spec_items(self) -> Seq<ItemDefinition> {
        self.items@
    }

    /// Whether the catalog defines the item identifier.
    pub open spec fn spec_contains(self, item_id: u64) -> bool {
        exists|i: int| 0 <= i < self.spec_items().len() && self.spec_items()[i].id == item_id
    }

    /// Looks an item identifier up in the catalog.
    pub fn get(&self, item_id: u64) -> (r: Option<&ItemDefinition>)
        ensures
            r is Some <==> self.spec_contains(item_id),
            r is Some ==> r->Some_0.id == item_id,
    {
        let n = self.items.len();
        let mut i: usize = 0;
        while i < n
            invariant
                0 <= i <= n,
                n == self.items@.len(),
                forall|j: int| 0 <= j < i ==> self.items@[j].id != item_id,
            decreases n - i,
        {
            if self.items[i].id == item_id {
                return Some(&self.items[i]);
            }
            i = i + 1;
        }
        None
    }

    /// Whether the catalog defines the item identifier.
    pub fn contains(&self, item_id: u64) -> (r: bool)
        ensures
            r == self.spec_contains(item_id),
    {
        self.get(item_id).is_some()
    }
}

impl Default for ItemDatabase {
    /// The catalog of the basic resource items: logs, stone, ore and
    /// fish, under identifiers 1 through 4.
    fn default() -> (db: ItemDatabase)
        ensures
            db.spec_items().len() == 4,
            db.spec_items()[0].id == 1 && db.spec_items()[0].value == 10
                && db.spec_items()[0].stackable && db.spec_items()[0].item_type
                == ItemType::Resource && db.spec_items()[0].name@ == "Logs"@,
            db.spec_items()[1].id == 2 && db.spec_items()[1].value == 5
                && db.spec_items()[1].stackable && db.spec_items()[1].item_type
                == ItemType::Resource && db.spec_items()[1].name@ == "Stone"@,
            db.spec_items()[2].id == 3 && db.spec_items()[2].value == 20
                && db.spec_items()[2].stackable && db.spec_items()[2].item_type
                == ItemType::Resource && db.spec_items()[2].name@ == "Ore"@,
            db.spec_items()[3].id == 4 && db.spec_items()[3].value == 15
                && db.spec_items()[3].stackable && db.spec_items()[3].item_type
                == ItemType::Food && db.spec_items()[3].name@ == "Fish"@,
            forall|id: u64| db.spec_contains(id) <==> 1 <= id <= 4,
    {
        let mut items: Vec<ItemDefinition> = Vec::new();
        items.push(
            ItemDefinition {
                id: 1,
                name: "Logs".to_owned(),
                description: "Wood from a tree.".to_owned(),
                stackable: true,
                value: 10,
                item_type: ItemType::Resource,
            },
        );
        items.push(
            ItemDefinition {
                id: 2,
                name: "Stone".to_owned(),
                description: "A piece of rock.".to_owned(),
                stackable: true,
                value: 5,
                item_type: ItemType::Resource,
            },
        );
        items.push(
            ItemDefinition {
                id: 3,
                name: "Ore".to_owned(),
                description: "Metal ore that can be smelted.".to_owned(),
                stackable: true,
                value: 20,
                item_type: ItemType::Resource,
            },
        );
        items.push(
            ItemDefinition {
                id: 4,
                name: "Fish".to_owned(),
                description: "A fresh fish.".to_owned(),
                stackable: true,
                value: 15,
                item_type: ItemType::Food,
            },
        );
        let db = ItemDatabase { items };
        proof {
            assert forall|id: u64| db.spec_contains(id) <==> 1 <= id <= 4 by {
                if 1 <= id <= 4 {
                    assert(db.spec_items()[id - 1].id == id);
                }
            }
        }
        db
    }
}

/// Whether a slot sequence holds pairwise distinct item identifiers,
/// each with a positive quantity.
spec fn slots_wf(s: Seq<(u64, u32)>) -> bool {
    &&& forall|i: int, j: int| 0 <= i < j < s.len() ==> s[i].0 != s[j].0
    &&& forall|i: int| 0 <= i < s.len() ==> s[i].1 > 0
}

/// Whether some slot carries the item identifier.
spec fn has_id(s: Seq<(u64, u32)>, id: u64) -> bool {
    exists|i: int| 0 <= i < s.len() && s[i].0 == id
}

/// The index of the slot carrying the item identifier.
spec fn index_of(s: Seq<(u64, u32)>, id: u64) -> int {
    choose|i: int| 0 <= i < s.len() && s[i].0 == id
}

/// The mapping a slot sequence represents.
spec fn map_of(s: Seq<(u64, u32)>) -> Map<u64, u32> {
    Map::new(|id: u64| has_id(s, id), |id: u64| s[index_of(s, id)].1)
}

/// With distinct identifiers, the slot of an identifier is unique.
proof fn lemma_index_unique(s: Seq<(u64, u32)>, i: int)
    requires
        slots_wf(s),
        0 <= i < s.len(),
    ensures
        index_of(s, s[i].0) == i,
{
    let id = s[i].0;
    let j = index_of(s, id);
    assert(0 <= j < s.len() && s[j].0 == id);
}

/// Raising the quantity stored at one slot updates exactly that
/// identifier's entry of the represented mapping.
proof fn lemma_map_of_update(s: Seq<(u64, u32)>, i: int, v: u32)
    requires
        slots_wf(s),
        0 <= i < s.len(),
        v > 0,
    ensures
        slots_wf(s.update(i, (s[i].0, v))),
        map_of(s.update(i, (s[i].0, v))) == map_of(s).insert(s[i].0, v),
{
    let id = s[i].0;
    let t = s.update(i, (id, v));
    assert forall|k: u64| #[trigger] has_id(t, k) == has_id(s, k) by {
        if has_id(t, k) {
            let j = choose|j: int| 0 <= j < t.len() && t[j].0 == k;
            assert(s[j].0 == k);
        }
        if has_id(s, k) {
            let j = choose|j: int| 0 <= j < s.len() && s[j].0 == k;
            assert(t[j].0 == k);
        }
    }
    assert forall|k: u64| has_id(t, k) implies t[index_of(t, k)].1 == map_of(s).insert(id, v)[k] by {
        let j = index_of(t, k);
        assert(0 <= j < t.len() && t[j].0 == k);
        if k == id {
            lemma_index_unique(t, i);
        } else {
            lemma_index_unique(s, j);
        }
    }
    assert(map_of(t) =~= map_of(s).insert(id, v));
}

/// Appending a fresh identifier inserts exactly its entry into the
/// represented mapping.
proof fn lemma_map_of_push(s: Seq<(u64, u32)>, id: u64, v: u32)
    requires
        slots_wf(s),
        !has_id(s, id),
        v > 0,
    ensures
        slots_wf(s.push((id, v))),
        map_of(s.push((id, v))) == map_of(s).insert(id, v),
{
    let t = s.push((id, v));
    assert forall|i: int, j: int| 0 <= i < j < t.len() implies t[i].0 != t[j].0 by {
        if j == s.len() {
            assert(t[i].0 == s[i].0);
        }
    }
    assert forall|k: u64| #[trigger] has_id(t, k) == (has_id(s, k) || k == id) by {
        if has_id(t, k) {
            let j = choose|j: int| 0 <= j < t.len() && t[j].0 == k;
            if j < s.len() {
                assert(s[j].0 == k);
            }
        }
        if has_id(s, k) {
            let j = choose|j: int| 0 <= j < s.len() && s[j].0 == k;
            assert(t[j].0 == k);
        }
        assert(t[s.len() as int].0 == id);
    }
    assert forall|k: u64| has_id(t, k) implies t[index_of(t, k)].1 == map_of(s).insert(id, v)[k] by {
        let j = index_of(t, k);
        assert(0 <= j < t.len() && t[j].0 == k);
        if k == id {
            lemma_index_unique(t, s.len() as int);
        } else {
            assert(j < s.len());
            lemma_index_unique(s, j);
        }
    }
    assert(map_of(t) =~= map_of(s).insert(id, v));
}

/// Deleting a slot removes exactly its identifier's entry from the
/// represented mapping.
proof fn lemma_map_of_remove(s: Seq<(u64, u32)>, i: int)
    requires
        slots_wf(s),
        0 <= i < s.len(),
    ensures
        slots_wf(s.remove(i)),
        map_of(s.remove(i)) == map_of(s).remove(s[i].0),
{
    let id = s[i].0;
    let t = s.remove(i);
    assert forall|k: u64| #[trigger] has_id(t, k) == (has_id(s, k) && k != id) by {
        if has_id(t, k) {
            let j = choose|j: int| 0 <= j < t.len() && t[j].0 == k;
            if j < i {
                assert(s[j].0 == k);
                lemma_index_unique(s, j);
            } else {
                assert(s[j + 1].0 == k);
                lemma_index_unique(s, j + 1);
            }
        }
        if has_id(s, k) && k != id {
            let j = choose|j: int| 0 <= j < s.len() && s[j].0 == k;
            if j < i {
                assert(t[j].0 == k);
            } else {
                lemma_index_unique(s, j);
                assert(t[j - 1].0 == k);
            }
        }
    }
    assert forall|k: u64| has_id(t, k) implies t[index_of(t, k)].1 == map_of(s).remove(id)[k] by {
        let j = index_of(t, k);
        assert(0 <= j < t.len() && t[j].0 == k);
        if j < i {
            lemma_index_unique(s, j);
        } else {
            lemma_index_unique(s, j + 1);
        }
    }
    assert(map_of(t) =~= map_of(s).remove(id));
}

/// The quantity a mapping stores under an identifier, with absent
/// entries reading as zero.
pub open spec fn stored_quantity(m: Map<u64, u32>, item_id: u64) -> int {
    if m.dom().contains(item_id) {
        m[item_id] as int
    } else {
        0
    }
}

/// Item slots, capacity and currency of one actor.
pub struct Inventory {
    items: Vec<(u64, u32)>,
    capacity: u32,
    gold: u32,
}

impl Inventory {
    /// The raw slot sequence; the lemmas below relate it to the
    /// mapping.
    closed spec fn spec_slots(self) -> Seq<(u64, u32)> {
        self.items@
    }

    /// Whether the slots are well formed: distinct identifiers, every
    /// quantity positive.
    pub closed spec fn wf(self) -> bool {
        slots_wf(self.items@)
    }

    /// The mapping from item identifier to stored quantity.
    pub closed spec fn as_map(self) -> Map<u64, u32> {
        map_of(self.items@)
    }

    /// The number of distinct slots in use.
    pub closed spec fn spec_slot_count(self) -> nat {
        self.items@.len()
    }

    /// The capacity: the soft maximum of distinct slots.
    pub closed spec fn spec_capacity(self) -> u32 {
        self.capacity
    }

    /// The gold balance.
    pub closed spec fn spec_gold(self) -> u32 {
        self.gold
    }

    /// Reads the capacity.
    pub fn capacity(&self) -> (c: u32)
        ensures
            c == self.spec_capacity(),
    {
        self.capacity
    }

    /// Reads the gold balance.
    pub fn gold(&self) -> (g: u32)
        ensures
            g == self.spec_gold(),
    {
        self.gold
    }

    /// Overwrites the gold balance; reward and economy logic outside
    /// this core mutates the counter directly through this.
    pub fn set_gold(&mut self, gold: u32)
        ensures
            final(self).spec_gold() == gold,
            final(self).as_map() == old(self).as_map(),
            final(self).spec_slot_count() == old(self).spec_slot_count(),
            final(self).spec_capacity() == old(self).spec_capacity(),
            old(self).wf() ==> final(self).wf(),
    {
        self.gold = gold;
    }

    /// An empty inventory with the given capacity and no gold.
    pub fn new(capacity: u32) -> (inv: Inventory)
        ensures
            inv.wf(),
            inv.as_map() == Map::<u64, u32>::empty(),
            inv.spec_slot_count() == 0,
            inv.spec_capacity() == capacity,
            inv.spec_gold() == 0,
    {
        let inv = Inventory { items: Vec::new(), capacity, gold: 0 };
        proof {
            assert(inv.as_map() =~= Map::<u64, u32>::empty());
        }
        inv
    }

    /// The index of the slot storing the identifier, if any.
    fn find_slot(&self, item_id: u64) -> (r: Option<usize>)
        ensures
            r is Some ==> r->Some_0 < self.items@.len() && self.items@[r->Some_0 as int].0
                == item_id,
            r is None ==> !has_id(self.items@, item_id),
    {
        let n = self.items.len();
        let mut i: usize = 0;
        while i < n
            invariant
                0 <= i <= n,
                n == self.items@.len(),
                forall|j: int| 0 <= j < i ==> self.items@[j].0 != item_id,
            decreases n - i,
        {
            if self.items[i].0 == item_id {
                return Some(i);
            }
            i = i + 1;
        }
        None
    }

    /// The quantity stored under an item identifier, zero when the
    /// slot is absent.
    pub fn quantity_of(&self, item_id: u64) -> (q: u32)
        requires
            self.wf(),
        ensures
            q == stored_quantity(self.as_map(), item_id),
    {
        match self.find_slot(item_id) {
            Some(i) => {
                proof {
                    lemma_index_unique(self.items@, i as int);
                }
                self.items[i].1
            },
            None => 0,
        }
    }

    /// The number of distinct item slots in use.
    pub fn distinct_items(&self) -> (n: usize)
        ensures
            n == self.spec_slot_count(),
    {
        self.items.len()
    }

    /// The stored slots as plain pairs of item identifier and
    /// quantity, for presentation outside this core.  Each pair is an
    /// entry of the mapping, and every slot appears once.
    pub fn slots(&self) -> (v: Vec<(u64, u32)>)
        requires
            self.wf(),
        ensures
            v@.len() == self.spec_slot_count(),
            forall|i: int|
                0 <= i < v@.len() ==> self.as_map().dom().contains((#[trigger] v@[i]).0)
                    && self.as_map()[v@[i].0] == v@[i].1,
            forall|i: int, j: int| 0 <= i < j < v@.len() ==> v@[i].0 != v@[j].0,
    {
        let n = self.items.len();
        let mut v: Vec<(u64, u32)> = Vec::new();
        let mut i: usize = 0;
        while i < n
            invariant
                0 <= i <= n,
                n == self.items@.len(),
                self.wf(),
                v@ == self.items@.subrange(0, i as int),
            decreases n - i,
        {
            v.push((self.items[i].0, self.items[i].1));
            proof {
                assert(v@ =~= self.items@.subrange(0, i + 1));
            }
            i = i + 1;
        }
        proof {
            assert(v@ =~= self.items@);
            assert forall|k: int|
                0 <= k < v@.len() implies self.as_map().dom().contains((#[trigger] v@[k]).0)
                && self.as_map()[v@[k].0] == v@[k].1 by {
                lemma_index_unique(self.items@, k);
            }
        }
        v
    }

    /// Adds `quantity` units of an item, creating the slot if absent.
    /// Fails with `UnknownItem`, mutating nothing, when the catalog
    /// does not define the identifier.  The capacity is tracked but not
    /// checked here, so a successful add can exceed it.
    pub fn add(&mut self, catalog: &ItemDatabase, item_id: u64, quantity: u32) -> (r: Result<
        (),
        ProgressionError,
    >)
        requires
            old(self).wf(),
            quantity > 0,
            stored_quantity(old(self).as_map(), item_id) + quantity <= u32::MAX,
        ensures
            final(self).wf(),
            final(self).spec_capacity() == old(self).spec_capacity(),
            final(self).spec_gold() == old(self).spec_gold(),
            catalog.spec_contains(item_id) ==> {
                &&& r == Ok::<(), ProgressionError>(())
                &&& final(self).as_map() == old(self).as_map().insert(
                    item_id,
                    (stored_quantity(old(self).as_map(), item_id) + quantity) as u32,
                )
                &&& final(self).spec_slot_count() == if old(self).as_map().dom().contains(item_id) {
                    old(self).spec_slot_count()
                } else {
                    old(self).spec_slot_count() + 1
                }
            },
            !catalog.spec_contains(item_id) ==> {
                &&& r == Err::<(), ProgressionError>(ProgressionError::UnknownItem)
                &&& *final(self) == *old(self)
            },
    {
        if !catalog.contains(item_id) {
            return Err(ProgressionError::UnknownItem);
        }
        match self.find_slot(item_id) {
            Some(i) => {
                proof {
                    lemma_index_unique(self.items@, i as int);
                }
                let current = self.items[i].1;
                let ghost s = self.items@;
                self.items.set(i, (item_id, current + quantity));
                proof {
                    lemma_map_of_update(s, i as int, (current + quantity) as u32);
                }
                Ok(())
            },
            None => {
                let ghost s = self.items@;
                self.items.push((item_id, quantity));
                proof {
                    lemma_map_of_push(s, item_id, quantity);
                }
                Ok(())
            },
        }
    }

    /// Removes `quantity` units of an item.  Fails with
    /// `ItemNotPresent` when no slot stores the identifier and with
    /// `InsufficientQuantity` when the slot stores fewer units than
    /// requested; either failure mutates nothing.  A removal that
    /// empties the slot deletes it, shrinking the distinct-slot count.
    pub fn remove(&mut self, item_id: u64, quantity: u32) -> (r: Result<(), ProgressionError>)
        requires
            old(self).wf(),
            quantity > 0,
        ensures
            final(self).wf(),
            final(self).spec_capacity() == old(self).spec_capacity(),
            final(self).spec_gold() == old(self).spec_gold(),
            !old(self).as_map().dom().contains(item_id) ==> {
                &&& r == Err::<(), ProgressionError>(ProgressionError::ItemNotPresent)
                &&& *final(self) == *old(self)
            },
            old(self).as_map().dom().contains(item_id) && old(self).as_map()[item_id] < quantity
                ==> {
                &&& r == Err::<(), ProgressionError>(ProgressionError::InsufficientQuantity)
                &&& *final(self) == *old(self)
            },
            old(self).as_map().dom().contains(item_id) && old(self).as_map()[item_id] > quantity
                ==> {
                &&& r == Ok::<(), ProgressionError>(())
                &&& final(self).as_map() == old(self).as_map().insert(
                    item_id,
                    (old(self).as_map()[item_id] - quantity) as u32,
                )
                &&& final(self).spec_slot_count() == old(self).spec_slot_count()
            },
            old(self).as_map().dom().contains(item_id) && old(self).as_map()[item_id] == quantity
                ==> {
                &&& r == Ok::<(), ProgressionError>(())
                &&& final(self).as_map() == old(self).as_map().remove(item_id)
                &&& final(self).spec_slot_count() == old(self).spec_slot_count() - 1
            },
    {
        match self.find_slot(item_id) {
            Some(i) => {
                proof {
                    lemma_index_unique(self.items@, i as int);
                }
                let current = self.items[i].1;
                if current < quantity {
                    Err(ProgressionError::InsufficientQuantity)
                } else if current > quantity {
                    let ghost s = self.items@;
                    self.items.set(i, (item_id, current - quantity));
                    proof {
                        lemma_map_of_update(s, i as int, (current - quantity) as u32);
                    }
                    Ok(())
                } else {
                    let ghost s = self.items@;
                    self.items.remove(i);
                    proof {
                        lemma_map_of_remove(s, i as int);
                    }
                    Ok(())
                }
            },
            None => Err(ProgressionError::ItemNotPresent),
        }
    }
}

/// A well-formed inventory never stores a zero quantity: every entry
/// of its mapping is positive.
pub proof fn lemma_wf_quantities_positive(inv: Inventory)
    requires
        inv.wf(),
    ensures
        forall|id: u64| inv.as_map().dom().contains(id) ==> inv.as_map()[id] > 0,
{
    assert forall|id: u64| inv.as_map().dom().contains(id) implies inv.as_map()[id] > 0 by {
        let s = inv.spec_slots();
        let j = index_of(s, id);
        assert(0 <= j < s.len() && s[j].0 == id);
    }
}

/// The mapping of a well-formed slot sequence has a finite domain of
/// exactly one identifier per slot.
proof fn lemma_map_of_dom_len(s: Seq<(u64, u32)>)
    requires
        slots_wf(s),
    ensures
        map_of(s).dom().finite(),
        map_of(s).dom().len() == s.len(),
    decreases s.len(),
{
    if s.len() == 0 {
        assert(map_of(s) =~= Map::<u64, u32>::empty());
    } else {
        let t = s.drop_last();
        let last = s.last();
        assert(slots_wf(t));
        assert(!has_id(t, last.0)) by {
            if has_id(t, last.0) {
                let j = choose|j: int| 0 <= j < t.len() && t[j].0 == last.0;
                assert(s[j].0 == s[s.len() - 1].0);
            }
        }
        lemma_map_of_dom_len(t);
        lemma_map_of_push(t, last.0, last.1);
        assert(t.push(last) =~= s);
        assert(map_of(s).dom() =~= map_of(t).dom().insert(last.0));
    }
}

/// The distinct-slot count of a well-formed inventory equals the
/// number of identifiers its mapping stores.
pub proof fn lemma_slot_count_is_map_size(inv: Inventory)
    requires
        inv.wf(),
    ensures
        inv.as_map().dom().finite(),
        inv.as_map().dom().len() == inv.spec_slot_count(),
{
    lemma_map_of_dom_len(inv.spec_slots());
}

/// Adding units of an item and then removing the same number returns
/// the mapping - and with it the distinct-slot state - to exactly its
/// prior value, whether or not the slot existed before.
pub proof fn lemma_add_remove_round_trip(m: Map<u64, u32>, item_id: u64, quantity: u32)
    requires
        quantity > 0,
        stored_quantity(m, item_id) + quantity <= u32::MAX,
        forall|id: u64| m.dom().contains(id) ==> m[id] > 0,
    ensures
        ({
            let after_add = m.insert(item_id, (stored_quantity(m, item_id) + quantity) as u32);
            let stored = after_add[item_id];
            &&& stored >= quantity
            &&& (stored == quantity ==> after_add.remove(item_id) == m)
            &&& (stored > quantity ==> after_add.insert(item_id, (stored - quantity) as u32) == m)
        }),
{
    let after_add = m.insert(item_id, (stored_quantity(m, item_id) + quantity) as u32);
    let stored = after_add[item_id];
    if stored == quantity {
        assert(after_add.remove(item_id) =~= m);
    } else {
        assert(after_add.insert(item_id, (stored - quantity) as u32) =~= m);
    }
}

/// A domain event: a signed quantity change for one item, positive to
/// add and negative to remove.
#[derive(Clone, Copy, Debug, PartialEq, Eq, Structural)]
pub struct InventoryUpdateEvent {
    pub item_id: u64,
    pub quantity: i32,
}

} // verus!
