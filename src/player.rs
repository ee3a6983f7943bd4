//! The player's inventory.

use vstd::prelude::*;

verus! {

/// Room in a new bag.
pub const BAG_CAPACITY: i32 = 10;

/// A stack of one kind of item.
#[derive(Debug)]
pub struct ItemBag {
    pub id: i32,
    pub name: String,
    pub amount: i32,
}

/// What the player carries: item stacks, tool ids and key ids.
pub struct Bag {
    pub objects: Vec<ItemBag>,
    pub tools: Vec<i32>,
    pub keys: Vec<i32>,
    pub number_items: i32,
    pub total_items: i32,
}

impl Bag {
    /// An empty bag with room for `BAG_CAPACITY` items.
    pub fn new() -> (r: Bag)
        ensures
            r.objects@.len() == 0,
            r.tools@.len() == 0,
            r.keys@.len() == 0,
            r.number_items == 0,
            r.total_items == BAG_CAPACITY,
    {
        Bag { objects: Vec::new(), tools: Vec::new(), keys: Vec::new(), number_items: 0, total_items: BAG_CAPACITY }
    }

    /// Records one more item of kind `id`: the first stack of that kind gains
    /// one (its amount stops at `i32::MAX`); where there is none, a new stack
    /// named "Test" with amount 0 is added at the end.
    pub fn add_item(&mut self, id: i32)
        ensures
            (forall|i: int| 0 <= i < old(self).objects@.len() ==> #[trigger] old(self).objects@[i].id != id) ==> {
                &&& final(self).objects@.len() == old(self).objects@.len() + 1
                &&& final(self).objects@.take(old(self).objects@.len() as int) == old(self).objects@
                &&& final(self).objects@.last().id == id
                &&& final(self).objects@.last().name@ == "Test"@
                &&& final(self).objects@.last().amount == 0
            },
            (exists|i: int| 0 <= i < old(self).objects@.len() && #[trigger] old(self).objects@[i].id == id) ==> exists|i: int|
                {
                    &&& 0 <= i < old(self).objects@.len()
                    &&& old(self).objects@[i].id == id
                    &&& (forall|j: int| 0 <= j < i ==> #[trigger] old(self).objects@[j].id != id)
                    &&& final(self).objects@ == old(self).objects@.update(
                        i,
                        ItemBag {
                            amount: if old(self).objects@[i].amount < i32::MAX {
                                (old(self).objects@[i].amount + 1) as i32
                            } else {
                                i32::MAX
                            },
                            ..old(self).objects@[i]
                        },
                    )
                },
            final(self).tools@ == old(self).tools@,
            final(self).keys@ == old(self).keys@,
            final(self).number_items == old(self).number_items,
            final(self).total_items == old(self).total_items,
    {
        let mut i: usize = 0;
        while i < self.objects.len()
            invariant
                i <= self.objects@.len(),
                self.objects@ == old(self).objects@,
                self.tools@ == old(self).tools@,
                self.keys@ == old(self).keys@,
                self.number_items == old(self).number_items,
                self.total_items == old(self).total_items,
                forall|j: int| 0 <= j < i ==> #[trigger] self.objects@[j].id != id,
            decreases self.objects@.len() - i,
        {
            if self.objects[i].id == id {
                let ghost before = self.objects@;
                let mut item = self.objects.remove(i);
                if item.amount < i32::MAX {
                    item.amount = item.amount + 1;
                }
                self.objects.insert(i, item);
                proof {
                    let t = before.update(
                        i as int,
                        ItemBag {
                            amount: if before[i as int].amount < i32::MAX {
                                (before[i as int].amount + 1) as i32
                            } else {
                                i32::MAX
                            },
                            ..before[i as int]
                        },
                    );
                    assert(self.objects@ =~= t);
                }
                return;
            }
            i = i + 1;
        }
        let new_item = ItemBag { id, name: "Test".to_owned(), amount: 0 };
        self.objects.push(new_item);
        proof {
            assert(self.objects@.take(old(self).objects@.len() as int) =~= old(self).objects@);
        }
    }
}

} // verus!
