use vstd::prelude::*;
use crate::models::meal::{MealItem, MealItemModel, MealItemStatus, models_of, next_status};

verus! {

/// Aggregate lifecycle of a table's order.
#[derive(Clone, Copy, Debug, PartialEq, Eq, Structural)]
pub enum OrderStatus {
    Received,
    Preparing,
    Completed,
}

/// Mathematical view of an [`Order`].
pub ghost struct OrderModel {
    pub table_id: u32,
    pub status: OrderStatus,
    pub meal_items: Seq<MealItemModel>,
}

/// The aggregate for one table: the table id, the meal items in insertion
/// order (append-only: items are only ever flagged removed, never taken out),
/// and the aggregate status.
#[derive(Clone, Debug)]
pub struct Order {
    table_id: u32,
    meal_items: Vec<MealItem>,
    status: OrderStatus,
}

/// Position of an aggregate status along its one-way lifecycle.
pub open spec fn order_status_rank(s: OrderStatus) -> int {
    match s {
        OrderStatus::Received => 0,
        OrderStatus::Preparing => 1,
        OrderStatus::Completed => 2,
    }
}

/// The aggregate status an order ends up in when `requested` is asked for at
/// `cur`: only strictly forward moves land, so the aggregate never reverts.
pub open spec fn next_order_status(cur: OrderStatus, requested: OrderStatus) -> OrderStatus {
    if order_status_rank(cur) < order_status_rank(requested) {
        requested
    } else {
        cur
    }
}

/// Law: an aggregate status update never reverts, and in particular the move
/// Received -> Preparing can happen at most once: once the order has left
/// Received, no later request brings it back, however many items reach
/// Preparing.
pub proof fn lemma_order_status_monotone(cur: OrderStatus, requested: OrderStatus)
    ensures
        order_status_rank(cur) <= order_status_rank(next_order_status(cur, requested)),
        cur != OrderStatus::Received ==> next_order_status(cur, requested) != OrderStatus::Received,
{
}

/// First position in `items` holding the identifier `id`, or -1 if none does.
pub open spec fn item_index(items: Seq<MealItemModel>, id: u128) -> int
    decreases items.len(),
{
    if items.len() == 0 {
        -1
    } else if items[0].id == id {
        0
    } else {
        let rest = item_index(items.drop_first(), id);
        if rest < 0 {
            -1
        } else {
            rest + 1
        }
    }
}

/// Characterisation of [`item_index`]: it is negative exactly when no item
/// carries the identifier, and otherwise it is the first position that does.
pub proof fn lemma_item_index_props(items: Seq<MealItemModel>, id: u128)
    ensures
        -1 <= item_index(items, id) < items.len(),
        item_index(items, id) < 0 ==> forall|j: int|
            0 <= j < items.len() ==> items[j].id != id,
        item_index(items, id) >= 0 ==> items[item_index(items, id)].id == id,
        item_index(items, id) >= 0 ==> forall|j: int|
            0 <= j < item_index(items, id) ==> items[j].id != id,
    decreases items.len(),
{
    if items.len() == 0 {
    } else if items[0].id == id {
    } else {
        lemma_item_index_props(items.drop_first(), id);
        if item_index(items, id) < 0 {
            assert forall|j: int| 0 <= j < items.len() implies items[j].id != id by {
                if j > 0 {
                    assert(items.drop_first()[j - 1].id != id);
                }
            }
        } else {
            assert(items[item_index(items, id)]
                == items.drop_first()[item_index(items, id) - 1]);
            assert forall|j: int| 0 <= j < item_index(items, id) implies items[j].id != id by {
                if j > 0 {
                    assert(items.drop_first()[j - 1].id != id);
                }
            }
        }
    }
}

/// If `items[k]` carries `id` and no earlier item does, then `k` is exactly
/// the first position [`item_index`] names.
pub proof fn lemma_item_index_first_match(items: Seq<MealItemModel>, id: u128, k: int)
    requires
        0 <= k < items.len(),
        items[k].id == id,
        forall|j: int| 0 <= j < k ==> items[j].id != id,
    ensures
        item_index(items, id) == k,
    decreases k,
{
    if k == 0 {
    } else {
        assert(items[0].id != id);
        assert forall|j: int| 0 <= j < k - 1 implies items.drop_first()[j].id != id by {
            assert(items[j + 1].id != id);
        }
        assert(items.drop_first()[k - 1] == items[k]);
        lemma_item_index_first_match(items.drop_first(), id, k - 1);
    }
}

impl View for Order {
    type V = OrderModel;

    closed spec fn view(&self) -> OrderModel {
        OrderModel {
            table_id: self.table_id,
            status: self.status,
            meal_items: models_of(self.meal_items@),
        }
    }
}

impl Order {
    /// A freshly opened order for a table: no items yet, aggregate status
    /// Received.
    pub fn create(table_id: u32) -> (r: Order)
        ensures
            r@ == (OrderModel {
                table_id,
                status: OrderStatus::Received,
                meal_items: Seq::<MealItemModel>::empty(),
            }),
    {
        let r = Order { table_id, meal_items: Vec::new(), status: OrderStatus::Received };
        proof {
            assert(r@.meal_items =~= Seq::<MealItemModel>::empty());
        }
        r
    }

    pub fn get_table_id(&self) -> (r: u32)
        ensures
            r == self@.table_id,
    {
        self.table_id
    }

    pub fn get_status(&self) -> (r: OrderStatus)
        ensures
            r == self@.status,
    {
        self.status
    }

    pub fn meal_item_count(&self) -> (r: usize)
        ensures
            r == self@.meal_items.len(),
    {
        self.meal_items.len()
    }

    /// Read one meal item by position, in insertion order.
    pub fn meal_item_at(&self, i: usize) -> (r: &MealItem)
        requires
            i < self@.meal_items.len(),
        ensures
            r@ == self@.meal_items[i as int],
    {
        &self.meal_items[i]
    }

    /// Ask for an aggregate status: only strictly forward moves land (see
    /// [`next_order_status`]), so the aggregate never reverts.
    pub fn update_status(&mut self, requested: OrderStatus)
        ensures
            final(self)@ == (OrderModel {
                status: next_order_status(old(self)@.status, requested),
                ..old(self)@
            }),
    {
        let cur_rank: u32 = match self.status {
            OrderStatus::Received => 0,
            OrderStatus::Preparing => 1,
            OrderStatus::Completed => 2,
        };
        let req_rank: u32 = match requested {
            OrderStatus::Received => 0,
            OrderStatus::Preparing => 1,
            OrderStatus::Completed => 2,
        };
        if cur_rank < req_rank {
            self.status = requested;
        }
    }

    /// Append a batch of meal items at the end, preserving every item already
    /// present together with its status, and everything else about the order.
    pub fn add_meal_items(&mut self, items: Vec<MealItem>)
        ensures
            final(self)@ == (OrderModel {
                meal_items: old(self)@.meal_items + models_of(items@),
                ..old(self)@
            }),
    {
        let ghost batch_models = models_of(items@);
        let mut batch = items;
        self.meal_items.append(&mut batch);
        proof {
            assert(self@.meal_items =~= old(self)@.meal_items + batch_models);
        }
    }

    /// Find the first meal item carrying `meal_item_id`, if any.
    pub fn get_meal_item(&self, meal_item_id: u128) -> (r: Option<&MealItem>)
        ensures
            match r {
                Some(mi) => item_index(self@.meal_items, meal_item_id) >= 0
                    && mi@ == self@.meal_items[item_index(self@.meal_items, meal_item_id)],
                None => item_index(self@.meal_items, meal_item_id) < 0,
            },
    {
        let n = self.meal_items.len();
        let mut i: usize = 0;
        while i < n
            invariant
                n == self@.meal_items.len(),
                i <= n,
                forall|j: int| 0 <= j < i ==> self@.meal_items[j].id != meal_item_id,
            decreases n - i,
        {
            if self.meal_items[i].id() == meal_item_id {
                proof {
                    lemma_item_index_first_match(self@.meal_items, meal_item_id, i as int);
                }
                return Some(&self.meal_items[i]);
            }
            i += 1;
        }
        proof {
            lemma_item_index_props(self@.meal_items, meal_item_id);
        }
        None
    }

    /// Ask for a status for the first meal item carrying `meal_item_id`: that
    /// item takes the requested status as far as its one-way lifecycle allows
    /// (see [`next_status`]); every other item, the removal flag and the rest
    /// of the order are untouched. An unknown identifier changes nothing.
    pub fn update_meal_item_status(&mut self, meal_item_id: u128, requested: MealItemStatus)
        ensures
            ({
                let idx = item_index(old(self)@.meal_items, meal_item_id);
                if idx < 0 {
                    final(self)@ == old(self)@
                } else {
                    final(self)@ == (OrderModel {
                        meal_items: old(self)@.meal_items.update(idx, MealItemModel {
                            status: next_status(old(self)@.meal_items[idx].status, requested),
                            ..old(self)@.meal_items[idx]
                        }),
                        ..old(self)@
                    })
                }
            }),
    {
        let n = self.meal_items.len();
        let mut i: usize = 0;
        while i < n
            invariant
                self == old(self),
                n == self@.meal_items.len(),
                i <= n,
                forall|j: int| 0 <= j < i ==> self@.meal_items[j].id != meal_item_id,
            decreases n - i,
        {
            if self.meal_items[i].id() == meal_item_id {
                proof {
                    lemma_item_index_first_match(self@.meal_items, meal_item_id, i as int);
                }
                let item = &mut self.meal_items[i];
                item.update_state(requested);
                proof {
                    let idx = item_index(old(self)@.meal_items, meal_item_id);
                    assert(self@.meal_items =~= old(self)@.meal_items.update(
                        idx,
                        MealItemModel {
                            status: next_status(old(self)@.meal_items[idx].status, requested),
                            ..old(self)@.meal_items[idx]
                        },
                    ));
                }
                return;
            }
            i += 1;
        }
        proof {
            lemma_item_index_props(self@.meal_items, meal_item_id);
            assert(self@ =~= old(self)@);
        }
    }

    /// Flag the first meal item carrying `meal_item_id` as removed; its status
    /// and everything else about the order stay as they are. Reports whether
    /// such an item was found.
    pub fn remove_meal_item(&mut self, meal_item_id: u128) -> (found: bool)
        ensures
            found == (item_index(old(self)@.meal_items, meal_item_id) >= 0),
            ({
                let idx = item_index(old(self)@.meal_items, meal_item_id);
                if idx < 0 {
                    final(self)@ == old(self)@
                } else {
                    final(self)@ == (OrderModel {
                        meal_items: old(self)@.meal_items.update(idx, MealItemModel {
                            removed: true,
                            ..old(self)@.meal_items[idx]
                        }),
                        ..old(self)@
                    })
                }
            }),
    {
        let n = self.meal_items.len();
        let mut i: usize = 0;
        while i < n
            invariant
                self == old(self),
                n == self@.meal_items.len(),
                i <= n,
                forall|j: int| 0 <= j < i ==> self@.meal_items[j].id != meal_item_id,
            decreases n - i,
        {
            if self.meal_items[i].id() == meal_item_id {
                proof {
                    lemma_item_index_first_match(self@.meal_items, meal_item_id, i as int);
                }
                let item = &mut self.meal_items[i];
                item.mark_removed();
                proof {
                    let idx = item_index(old(self)@.meal_items, meal_item_id);
                    assert(self@.meal_items =~= old(self)@.meal_items.update(
                        idx,
                        MealItemModel { removed: true, ..old(self)@.meal_items[idx] },
                    ));
                }
                return true;
            }
            i += 1;
        }
        proof {
            lemma_item_index_props(self@.meal_items, meal_item_id);
            assert(self@ =~= old(self)@);
        }
        false
    }
}

} // verus!
