use vstd::prelude::*;
use dashmap::DashMap;
use crate::models::meal::{
    lemma_status_step_monotone, models_of, next_status, status_progresses, MealItem,
    MealItemModel, MealItemStatus,
};
use crate::models::order::{
    item_index, lemma_item_index_first_match, lemma_item_index_props, next_order_status,
    order_status_rank, Order, OrderModel, OrderStatus,
};

verus! {

#[verifier::external_type_specification]
#[verifier::external_body]
#[verifier::reject_recursive_types(K)]
#[verifier::reject_recursive_types(V)]
#[verifier::reject_recursive_types(S)]
pub struct ExDashMap<K, V, S>(DashMap<K, V, S>);

/// The table-id -> order contents of a concurrent order map.
pub uninterp spec fn orders_map(m: DashMap<u32, Order>) -> Map<u32, OrderModel>;

/// Relies on dashmap's DashMap::new: the new map is empty.
#[verifier::external_body]
fn dm_new() -> (r: DashMap<u32, Order>)
    ensures
        forall|t: u32| !orders_map(r).contains_key(t),
{
    DashMap::new()
}

/// Relies on dashmap's DashMap::insert: the value is stored under the key,
/// replacing whatever was there before.
#[verifier::external_body]
fn dm_insert(m: &mut DashMap<u32, Order>, key: u32, value: Order)
    ensures
        orders_map(*final(m)) == orders_map(*old(m)).insert(key, value@),
{
    m.insert(key, value);
}

/// Relies on dashmap's DashMap::remove: the entry under the key, if there is
/// one, is taken out of the map and handed back.
#[verifier::external_body]
fn dm_remove(m: &mut DashMap<u32, Order>, key: u32) -> (r: Option<Order>)
    ensures
        match r {
            Some(order) => orders_map(*old(m)).contains_key(key)
                && order@ == orders_map(*old(m))[key]
                && orders_map(*final(m)) == orders_map(*old(m)).remove(key),
            None => !orders_map(*old(m)).contains_key(key)
                && orders_map(*final(m)) == orders_map(*old(m)),
        },
{
    m.remove(&key).map(|kv| kv.1)
}

/// Relies on dashmap's DashMap::get, and on the derived Clone of Order
/// handing back a copy with the same view as the stored order.
#[verifier::external_body]
fn dm_get_clone(m: &DashMap<u32, Order>, key: u32) -> (r: Option<Order>)
    ensures
        match r {
            Some(order) => orders_map(*m).contains_key(key) && order@ == orders_map(*m)[key],
            None => !orders_map(*m).contains_key(key),
        },
{
    m.get(&key).map(|entry| entry.value().clone())
}

/// Whether this request makes the addressed item begin preparing: the order
/// holds an item with the identifier, that item is still Pending, and the
/// requested status is Preparing.
pub open spec fn begins_preparing(
    o: OrderModel,
    meal_item_id: u128,
    requested: MealItemStatus,
) -> bool {
    let idx = item_index(o.meal_items, meal_item_id);
    &&& idx >= 0
    &&& o.meal_items[idx].status == MealItemStatus::Pending
    &&& requested == MealItemStatus::Preparing
}

/// The order as it stands after one status-update request for
/// `meal_item_id`: the first item carrying the identifier takes the requested
/// status as far as its one-way lifecycle allows (an unknown identifier
/// changes no item), and the aggregate advances out of Received exactly when
/// a contained item begins preparing on this call — so the first item to
/// begin preparing advances it, and it never reverts.
pub open spec fn updated_order(
    o: OrderModel,
    meal_item_id: u128,
    requested: MealItemStatus,
) -> OrderModel {
    let idx = item_index(o.meal_items, meal_item_id);
    OrderModel {
        status: if begins_preparing(o, meal_item_id, requested) {
            next_order_status(o.status, OrderStatus::Preparing)
        } else {
            o.status
        },
        meal_items: if idx < 0 {
            o.meal_items
        } else {
            o.meal_items.update(idx, MealItemModel {
                status: next_status(o.meal_items[idx].status, requested),
                ..o.meal_items[idx]
            })
        },
        ..o
    }
}

/// Law: one status-update request only ever moves things forward. Every item
/// keeps its identity, menu item, duration and removal flag; its status
/// progresses along Pending -> Preparing -> Completed, by at most the one
/// requested step, and never regresses. The aggregate status never reverts:
/// it changes only when a contained item begins preparing on this call, and
/// then only by the one move Received -> Preparing — which therefore happens
/// at most once over an order's lifetime, however many items reach Preparing.
pub proof fn lemma_updated_order_progresses(
    o: OrderModel,
    meal_item_id: u128,
    requested: MealItemStatus,
)
    ensures
        updated_order(o, meal_item_id, requested).table_id == o.table_id,
        updated_order(o, meal_item_id, requested).meal_items.len() == o.meal_items.len(),
        forall|j: int|
            #![trigger o.meal_items[j]]
            0 <= j < o.meal_items.len() ==> ({
                let before = o.meal_items[j];
                let after = updated_order(o, meal_item_id, requested).meal_items[j];
                &&& after.id == before.id
                &&& after.menu_item == before.menu_item
                &&& after.cooking_time_in_min == before.cooking_time_in_min
                &&& after.removed == before.removed
                &&& status_progresses(before.status, after.status)
            }),
        order_status_rank(o.status) <= order_status_rank(
            updated_order(o, meal_item_id, requested).status,
        ),
        !begins_preparing(o, meal_item_id, requested) ==> updated_order(
            o,
            meal_item_id,
            requested,
        ).status == o.status,
        updated_order(o, meal_item_id, requested).status != o.status ==> o.status
            == OrderStatus::Received && updated_order(o, meal_item_id, requested).status
            == OrderStatus::Preparing && begins_preparing(o, meal_item_id, requested),
        o.status != OrderStatus::Received ==> updated_order(o, meal_item_id, requested).status
            == o.status,
{
    lemma_item_index_props(o.meal_items, meal_item_id);
    let idx = item_index(o.meal_items, meal_item_id);
    assert forall|j: int| #![trigger o.meal_items[j]] 0 <= j < o.meal_items.len() implies ({
        let before = o.meal_items[j];
        let after = updated_order(o, meal_item_id, requested).meal_items[j];
        &&& after.id == before.id
        &&& after.menu_item == before.menu_item
        &&& after.cooking_time_in_min == before.cooking_time_in_min
        &&& after.removed == before.removed
        &&& status_progresses(before.status, after.status)
    }) by {
        if j == idx {
            lemma_status_step_monotone(o.meal_items[j].status, requested);
        }
    }
}

/// Law: one cooking job drives its item through the exact status sequence
/// Pending -> Preparing -> Completed. Starting from an order whose first
/// item carrying the identifier is still Pending, the job's Preparing
/// request moves exactly that item to Preparing and advances the aggregate
/// out of Received, and the job's later Completed request moves the same
/// item to Completed and leaves the aggregate alone; at neither step does
/// any other item's status change.
pub proof fn lemma_cooking_job_sequence(o: OrderModel, meal_item_id: u128)
    requires
        item_index(o.meal_items, meal_item_id) >= 0,
        o.meal_items[item_index(o.meal_items, meal_item_id)].status == MealItemStatus::Pending,
    ensures
        ({
            let idx = item_index(o.meal_items, meal_item_id);
            let after_start = updated_order(o, meal_item_id, MealItemStatus::Preparing);
            let after_finish = updated_order(
                after_start,
                meal_item_id,
                MealItemStatus::Completed,
            );
            &&& item_index(after_start.meal_items, meal_item_id) == idx
            &&& after_start.meal_items[idx].status == MealItemStatus::Preparing
            &&& after_start.status == next_order_status(o.status, OrderStatus::Preparing)
            &&& after_finish.meal_items[idx].status == MealItemStatus::Completed
            &&& after_finish.status == after_start.status
            &&& after_start.meal_items.len() == o.meal_items.len()
            &&& after_finish.meal_items.len() == o.meal_items.len()
            &&& (forall|j: int|
                #![trigger o.meal_items[j]]
                0 <= j < o.meal_items.len() && j != idx
                    ==> after_start.meal_items[j].status == o.meal_items[j].status
                        && after_finish.meal_items[j].status == o.meal_items[j].status)
        }),
{
    lemma_item_index_props(o.meal_items, meal_item_id);
    let idx = item_index(o.meal_items, meal_item_id);
    let after_start = updated_order(o, meal_item_id, MealItemStatus::Preparing);
    assert forall|j: int| 0 <= j < idx implies after_start.meal_items[j].id
        != meal_item_id by {
        assert(o.meal_items[j].id != meal_item_id);
    }
    lemma_item_index_first_match(after_start.meal_items, meal_item_id, idx);
}

/// The single owner of canonical order state: a concurrent map from table id
/// to that table's active order. Every operation touches exactly one table's
/// entry and leaves every other table's order untouched, so operations on
/// different tables are independent.
pub struct OrderRepo {
    orders: DashMap<u32, Order>,
}

impl View for OrderRepo {
    type V = Map<u32, OrderModel>;

    closed spec fn view(&self) -> Map<u32, OrderModel> {
        orders_map(self.orders)
    }
}

impl OrderRepo {
    /// An empty repository: no table has an order.
    pub fn new() -> (r: OrderRepo)
        ensures
            r@ == Map::<u32, OrderModel>::empty(),
    {
        let orders = dm_new();
        proof {
            assert(orders_map(orders) =~= Map::<u32, OrderModel>::empty());
        }
        OrderRepo { orders }
    }

    /// Register an order under its table id. Re-registering a table that
    /// already has an order overwrites it, as the underlying map's insert
    /// does; every other table is untouched.
    pub fn add(&mut self, order: Order)
        ensures
            final(self)@ == old(self)@.insert(order@.table_id, order@),
    {
        let table_id = order.get_table_id();
        dm_insert(&mut self.orders, table_id, order);
    }

    /// A deep, independent snapshot of the table's current order, if the
    /// table has one; the repository itself is not observably changed.
    pub fn get_order_by_table_id(&self, id: u32) -> (r: Option<Order>)
        ensures
            match r {
                Some(order) => self@.contains_key(id) && order@ == self@[id],
                None => !self@.contains_key(id),
            },
    {
        dm_get_clone(&self.orders, id)
    }

    /// Append a batch of meal items to the table's order, if that order
    /// exists, and report whether it did. If it did not, nothing changes: the
    /// items are discarded and the map gains no entry. If it did, the batch
    /// is appended in order after the existing items, which all keep their
    /// statuses; the aggregate status and every other table are untouched.
    pub fn add_order_meal_items(&mut self, table_id: u32, meal_items: Vec<MealItem>) -> (existed:
        bool)
        ensures
            existed == old(self)@.contains_key(table_id),
            !existed ==> final(self)@ == old(self)@,
            existed ==> final(self)@ == old(self)@.insert(table_id, (OrderModel {
                meal_items: old(self)@[table_id].meal_items + models_of(meal_items@),
                ..old(self)@[table_id]
            })),
            existed ==> final(self)@[table_id].meal_items.len()
                == old(self)@[table_id].meal_items.len() + meal_items@.len(),
            existed ==> forall|j: int|
                0 <= j < old(self)@[table_id].meal_items.len()
                    ==> final(self)@[table_id].meal_items[j]
                        == old(self)@[table_id].meal_items[j],
            final(self)@.dom() == old(self)@.dom(),
            forall|t: u32|
                old(self)@.contains_key(t) && t != table_id ==> final(self)@[t] == old(self)@[t],
    {
        match dm_remove(&mut self.orders, table_id) {
            Some(order) => {
                let mut order = order;
                order.add_meal_items(meal_items);
                dm_insert(&mut self.orders, table_id, order);
                proof {
                    assert(self@ =~= old(self)@.insert(table_id, (OrderModel {
                        meal_items: old(self)@[table_id].meal_items + models_of(meal_items@),
                        ..old(self)@[table_id]
                    })));
                    assert(self@.dom() =~= old(self)@.dom());
                }
                true
            },
            None => false,
        }
    }

    /// Inspect one meal item of a table's order: a deep copy of the first
    /// item of that order carrying the identifier, if the table has an order
    /// and such an item is in it. In particular its `removed` flag can be
    /// checked before asking for a status transition.
    pub fn get_order_meal_item(&self, table_id: u32, meal_item_id: u128) -> (r: Option<MealItem>)
        ensures
            match r {
                Some(mi) => self@.contains_key(table_id) && item_index(
                    self@[table_id].meal_items,
                    meal_item_id,
                ) >= 0 && mi@ == self@[table_id].meal_items[item_index(
                    self@[table_id].meal_items,
                    meal_item_id,
                )],
                None => !self@.contains_key(table_id) || item_index(
                    self@[table_id].meal_items,
                    meal_item_id,
                ) < 0,
            },
    {
        match dm_get_clone(&self.orders, table_id) {
            Some(order) => {
                match order.get_meal_item(meal_item_id) {
                    Some(mi) => Some(mi.duplicate()),
                    None => None,
                }
            },
            None => None,
        }
    }

    /// One atomic status-update request for one meal item of one table, as
    /// [`updated_order`] describes: advancing the aggregate out of Received
    /// and setting the item's status happen under the same exclusive access
    /// to the table's entry, and every other table is untouched. Reports
    /// whether the table had an order at all.
    pub fn update_order_meal_item_status(
        &mut self,
        table_id: u32,
        meal_item_id: u128,
        meal_item_status: MealItemStatus,
    ) -> (found: bool)
        ensures
            found == old(self)@.contains_key(table_id),
            !found ==> final(self)@ == old(self)@,
            found ==> final(self)@ == old(self)@.insert(table_id, updated_order(
                old(self)@[table_id],
                meal_item_id,
                meal_item_status,
            )),
            final(self)@.dom() == old(self)@.dom(),
            forall|t: u32|
                old(self)@.contains_key(t) && t != table_id ==> final(self)@[t] == old(self)@[t],
    {
        match dm_remove(&mut self.orders, table_id) {
            Some(order) => {
                let mut order = order;
                let item_begins_preparing = match order.get_meal_item(meal_item_id) {
                    Some(item) => item.status() == MealItemStatus::Pending && meal_item_status
                        == MealItemStatus::Preparing,
                    None => false,
                };
                if item_begins_preparing {
                    order.update_status(OrderStatus::Preparing);
                }
                order.update_meal_item_status(meal_item_id, meal_item_status);
                dm_insert(&mut self.orders, table_id, order);
                proof {
                    assert(self@ =~= old(self)@.insert(table_id, updated_order(
                        old(self)@[table_id],
                        meal_item_id,
                        meal_item_status,
                    )));
                    assert(self@.dom() =~= old(self)@.dom());
                }
                true
            },
            None => false,
        }
    }

    /// Flag one meal item of a table's order as removed, leaving its status
    /// and everything else as they are; any cooking job that looks the item
    /// up afterwards will see the flag and leave the item alone. Reports
    /// whether the table had an order holding such an item.
    pub fn remove_order_meal_item(&mut self, table_id: u32, meal_item_id: u128) -> (found: bool)
        ensures
            found == (old(self)@.contains_key(table_id) && item_index(
                old(self)@[table_id].meal_items,
                meal_item_id,
            ) >= 0),
            !found ==> final(self)@ == old(self)@,
            found ==> final(self)@ == old(self)@.insert(table_id, (OrderModel {
                meal_items: old(self)@[table_id].meal_items.update(
                    item_index(old(self)@[table_id].meal_items, meal_item_id),
                    MealItemModel {
                        removed: true,
                        ..old(self)@[table_id].meal_items[item_index(
                            old(self)@[table_id].meal_items,
                            meal_item_id,
                        )]
                    },
                ),
                ..old(self)@[table_id]
            })),
            final(self)@.dom() == old(self)@.dom(),
            forall|t: u32|
                old(self)@.contains_key(t) && t != table_id ==> final(self)@[t] == old(self)@[t],
    {
        match dm_remove(&mut self.orders, table_id) {
            Some(order) => {
                let mut order = order;
                let found = order.remove_meal_item(meal_item_id);
                dm_insert(&mut self.orders, table_id, order);
                proof {
                    if item_index(old(self)@[table_id].meal_items, meal_item_id) < 0 {
                        assert(self@ =~= old(self)@);
                    } else {
                        assert(self@ =~= old(self)@.insert(table_id, (OrderModel {
                            meal_items: old(self)@[table_id].meal_items.update(
                                item_index(old(self)@[table_id].meal_items, meal_item_id),
                                MealItemModel {
                                    removed: true,
                                    ..old(self)@[table_id].meal_items[item_index(
                                        old(self)@[table_id].meal_items,
                                        meal_item_id,
                                    )]
                                },
                            ),
                            ..old(self)@[table_id]
                        })));
                    }
                    assert(self@.dom() =~= old(self)@.dom());
                }
                found
            },
            None => false,
        }
    }
}

} // verus!
