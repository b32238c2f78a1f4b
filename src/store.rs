//! The data-access interface and the in-memory store behind it.
use std::collections::HashMap;
use std::sync::Arc;
use vstd::prelude::*;
use vstd::std_specs::iter::IteratorSpec;

verus! {

broadcast use vstd::std_specs::hash::group_hash_axioms;

/// `listed` holds each entry of `items` exactly once, as an (identifier, name)
/// pair, in some order, and nothing else.
pub open spec fn lists_exactly(listed: Seq<(u128, String)>, items: Map<u128, String>) -> bool {
    &&& listed.len() == items.dom().len()
    &&& forall|i: int, j: int|
        0 <= i < listed.len() && 0 <= j < listed.len() && i != j ==> listed[i].0 != listed[j].0
    &&& forall|i: int|
        #![trigger listed[i]]
        0 <= i < listed.len() ==> items.contains_key(listed[i].0) && items[listed[i].0]@
            == listed[i].1@
    &&& forall|k: u128|
        #[trigger] items.contains_key(k) ==> exists|i: int|
            0 <= i < listed.len() && #[trigger] listed[i].0 == k
}

/// `listed` holds the pair (`id`, `name`) somewhere.
pub open spec fn holds_pair(listed: Seq<(u128, String)>, id: u128, name: Seq<char>) -> bool {
    exists|j: int| 0 <= j < listed.len() && #[trigger] listed[j].0 == id && listed[j].1@ == name
}

/// Any two listings of one table hold the same (identifier, name) pairs,
/// whatever their order.
pub proof fn lemma_listings_hold_same_pairs(
    a: Seq<(u128, String)>,
    b: Seq<(u128, String)>,
    items: Map<u128, String>,
)
    requires
        lists_exactly(a, items),
        lists_exactly(b, items),
    ensures
        forall|i: int| 0 <= i < a.len() ==> #[trigger] holds_pair(b, a[i].0, a[i].1@),
{
    assert forall|i: int| 0 <= i < a.len() implies #[trigger] holds_pair(b, a[i].0, a[i].1@) by {
        assert(items.contains_key(a[i].0));
        let j = choose|j: int| 0 <= j < b.len() && #[trigger] b[j].0 == a[i].0;
        assert(b[j].1@ == a[i].1@);
    }
}

/// The pairs of a listing, with each name as text.
pub open spec fn named_pairs(listed: Seq<(u128, String)>) -> Seq<(u128, Seq<char>)> {
    listed.map_values(|p: (u128, String)| (p.0, p.1@))
}

/// What a lookup of `id` in `items` owes: the stored name, or absence.
pub open spec fn looked_up(items: Map<u128, String>, id: u128, r: Option<String>) -> bool {
    match r {
        Some(name) => items.contains_key(id) && name@ == items[id]@,
        None => !items.contains_key(id),
    }
}

/// Read access to a fixed table from identifier to display name, shareable
/// between threads.
pub trait DB: Send + Sync {
    /// The table: identifier to display name.
    spec fn items(&self) -> Map<u128, String>;

    /// The order in which this store lists its table; fixed for a given
    /// store value, but not promised to be any particular order.
    spec fn listing(&self) -> Seq<(u128, Seq<char>)>;

    /// Every (identifier, name) pair of the table, once each, in no promised order.
    fn all_items(&self) -> (r: Vec<(u128, String)>)
        ensures
            lists_exactly(r@, self.items()),
            named_pairs(r@) == self.listing(),
    ;

    /// The name stored under `item_id`, or `None` where there is none.
    fn get_item(&self, item_id: &u128) -> (r: Option<String>)
        ensures
            looked_up(self.items(), *item_id, r),
    ;
}

/// An immutable table held in memory and shared by every clone.
#[derive(Clone)]
pub struct MemoryDB {
    items: Arc<HashMap<u128, String>>,
}

/// The table that a list of pairs builds when inserted in order: a later
/// pair replaces an earlier one with the same identifier.
pub open spec fn table_of(pairs: Seq<(u128, String)>) -> Map<u128, String>
    decreases pairs.len(),
{
    if pairs.len() == 0 {
        Map::empty()
    } else {
        table_of(pairs.drop_last()).insert(pairs.last().0, pairs.last().1)
    }
}

/// Built from pairs whose identifiers are distinct, the table holds under each
/// identifier exactly the name inserted with it, and holds no other identifier.
pub proof fn lemma_table_holds_inserted(pairs: Seq<(u128, String)>, k: u128)
    requires
        forall|i: int, j: int| 0 <= i < j < pairs.len() ==> pairs[i].0 != pairs[j].0,
    ensures
        forall|i: int|
            0 <= i < pairs.len() && #[trigger] pairs[i].0 == k ==> table_of(pairs).contains_key(k)
                && table_of(pairs)[k] == pairs[i].1,
        (forall|i: int| 0 <= i < pairs.len() ==> pairs[i].0 != k) ==> !table_of(pairs).contains_key(k),
    decreases pairs.len(),
{
    if pairs.len() > 0 {
        let prefix = pairs.drop_last();
        lemma_table_holds_inserted(prefix, k);
        assert forall|i: int| 0 <= i < pairs.len() && #[trigger] pairs[i].0 == k implies table_of(pairs).contains_key(k)
            && table_of(pairs)[k] == pairs[i].1 by {
            if i < pairs.len() - 1 {
                assert(prefix[i] == pairs[i]);
            }
        }
        if forall|i: int| 0 <= i < pairs.len() ==> pairs[i].0 != k {
            assert forall|i: int| 0 <= i < prefix.len() implies prefix[i].0 != k by {
                assert(prefix[i] == pairs[i]);
            }
        }
    }
}

impl MemoryDB {
    /// A store holding the four catalog entries it is seeded with.
    pub fn new() -> (r: Self)
        ensures
            r.items().dom() =~= set![
                0xfd03f48c_af4f_4485_8a56_03e5354277ceu128,
                0xdeba1d8c_81fd_4273_9fcd_f4c5b5666fe2u128,
                0x29cf7887_d228_41ca_883c_516cf3105634u128,
                0x9103a2b0_af58_4db5_a9a8_cbdd7274e15au128,
            ],
            r.items()[0xfd03f48c_af4f_4485_8a56_03e5354277ceu128]@ == "Apple Pie"@,
            r.items()[0xdeba1d8c_81fd_4273_9fcd_f4c5b5666fe2u128]@ == "Marshmallow"@,
            r.items()[0x29cf7887_d228_41ca_883c_516cf3105634u128]@ == "Eclair au chocolat"@,
            r.items()[0x9103a2b0_af58_4db5_a9a8_cbdd7274e15au128]@ == "Merveilleux"@,
    {
        let items = vec![
            (0xfd03f48c_af4f_4485_8a56_03e5354277ceu128, "Apple Pie".to_string()),
            (0xdeba1d8c_81fd_4273_9fcd_f4c5b5666fe2u128, "Marshmallow".to_string()),
            (0x29cf7887_d228_41ca_883c_516cf3105634u128, "Eclair au chocolat".to_string()),
            (0x9103a2b0_af58_4db5_a9a8_cbdd7274e15au128, "Merveilleux".to_string()),
        ];
        let r = Self::from_pairs(items);
        proof {
            reveal_with_fuel(table_of, 5);
        }
        r
    }

    /// A store holding the given pairs; where an identifier repeats, the
    /// last pair with it wins.
    pub fn from_pairs(pairs: Vec<(u128, String)>) -> (r: Self)
        ensures
            r.items() == table_of(pairs@),
    {
        let mut table: HashMap<u128, String> = HashMap::new();
        let mut i: usize = 0;
        while i < pairs.len()
            invariant
                i <= pairs@.len(),
                table@ == table_of(pairs@.take(i as int)),
            decreases pairs@.len() - i,
        {
            proof {
                assert(pairs@.take(i + 1).drop_last() =~= pairs@.take(i as int));
            }
            table.insert(pairs[i].0, pairs[i].1.clone());
            i = i + 1;
        }
        proof {
            assert(pairs@.take(i as int) =~= pairs@);
        }
        MemoryDB { items: Arc::new(table) }
    }
}

impl DB for MemoryDB {
    closed spec fn items(&self) -> Map<u128, String> {
        self.items@
    }

    closed spec fn listing(&self) -> Seq<(u128, Seq<char>)> {
        vstd::std_specs::hash::into_iter(vstd::std_specs::hash::spec_hash_map_iter(&*self.items)).map_values(
            |p: (u128, String)| (p.0, p.1@),
        )
    }

    fn all_items(&self) -> (r: Vec<(u128, String)>) {
        let mut listed: Vec<(u128, String)> = Vec::new();
        let table: &HashMap<u128, String> = &self.items;
        let iter = table.iter();
        let ghost v = iter.remaining();
        proof {
            assert(vstd::std_specs::hash::into_iter(iter) == v.unref());
        }
        for pair in it: iter
            invariant
                it.seq() == v,
                listed@.len() <= v.len(),
                listed@.len() == it.index(),
                forall|i: int|
                    #![trigger listed@[i]]
                    0 <= i < listed@.len() ==> listed@[i].0 == *v[i].0 && listed@[i].1@ == (*v[i].1)@,
        {
            let (id, name) = pair;
            listed.push((*id, name.clone()));
        }
        proof {
            assert(listed@.len() == v.len());
            assert(named_pairs(listed@) =~= self.listing());
            assert forall|i: int, j: int|
                0 <= i < listed@.len() && 0 <= j < listed@.len() && i != j implies listed@[i].0
                != listed@[j].0 by {
                if listed@[i].0 == listed@[j].0 {
                    assert(table@.contains_key(*v[i].0));
                    assert(v[i] == v[j]);
                }
            }
            assert forall|k: u128| #[trigger] table@.contains_key(k) implies exists|i: int|
                0 <= i < listed@.len() && #[trigger] listed@[i].0 == k by {
                assert(v.contains((&k, &table@[k])));
                let i = choose|i: int| 0 <= i < v.len() && v[i] == (&k, &table@[k]);
                assert(listed@[i].0 == k);
            }
        }
        listed
    }

    fn get_item(&self, item_id: &u128) -> (r: Option<String>) {
        match self.items.get(item_id) {
            Some(name) => Some(name.clone()),
            None => None,
        }
    }
}

} // verus!
