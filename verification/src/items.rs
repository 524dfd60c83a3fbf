//! The item store behind the protected query.
//!
//! An external collaborator in spirit: the core only guarantees that it is
//! asked for items with a verified identity id, never with an
//! unauthenticated caller's input. Here it is a plain table of items, each
//! carrying the identity that originated it.

use vstd::prelude::*;

verus! {

/// One stored item: its name and the identity it belongs to.
pub struct Item {
    pub name: String,
    pub originator: String,
}

/// The names of the items whose originator is `id`, in store order.
pub open spec fn spec_items_for(s: Seq<Item>, id: Seq<char>) -> Seq<Seq<char>>
    decreases s.len(),
{
    if s.len() == 0 {
        Seq::empty()
    } else {
        spec_items_for(s.drop_last(), id) + if s.last().originator@ == id {
            seq![s.last().name@]
        } else {
            Seq::empty()
        }
    }
}

/// The table of items, keyed by originator.
pub struct ItemStore {
    pub items: Vec<Item>,
}

impl ItemStore {
    pub fn new() -> (r: ItemStore)
        ensures
            r.items@.len() == 0,
    {
        ItemStore { items: Vec::new() }
    }

    pub fn add(&mut self, name: String, originator: String)
        ensures
            final(self).items@ == old(self).items@.push(Item { name, originator }),
    {
        self.items.push(Item { name, originator });
    }

    /// Every item name originated by `identity_id`, in store order.
    pub fn list_items_for(&self, identity_id: &String) -> (r: Vec<String>)
        ensures
            r.deep_view() == spec_items_for(self.items@, identity_id@),
    {
        let n = self.items.len();
        let mut out: Vec<String> = Vec::new();
        let mut k: usize = 0;
        proof {
            assert(self.items@.take(0) =~= Seq::<Item>::empty());
            assert(out.deep_view() =~= spec_items_for(self.items@.take(0), identity_id@));
        }
        while k < n
            invariant
                n == self.items@.len(),
                k <= n,
                out.deep_view() == spec_items_for(self.items@.take(k as int), identity_id@),
            decreases n - k,
        {
            let ghost prefix = self.items@.take(k as int);
            if self.items[k].originator == *identity_id {
                out.push(self.items[k].name.clone());
            }
            proof {
                let longer = self.items@.take(k + 1);
                assert(longer.drop_last() =~= prefix);
                assert(longer.last() == self.items@[k as int]);
                if self.items@[k as int].originator@ == identity_id@ {
                    assert(out.deep_view() =~= spec_items_for(prefix, identity_id@).push(
                        self.items@[k as int].name@,
                    ));
                    assert(spec_items_for(longer, identity_id@) =~= spec_items_for(
                        prefix,
                        identity_id@,
                    ).push(self.items@[k as int].name@));
                } else {
                    assert(spec_items_for(longer, identity_id@) =~= spec_items_for(
                        prefix,
                        identity_id@,
                    ));
                }
            }
            k += 1;
        }
        proof {
            assert(self.items@.take(n as int) =~= self.items@);
        }
        out
    }
}

} // verus!
