use vstd::prelude::*;
use crate::models::meal::{MealItem, MealItemStatus};
use crate::models::menu::{MenuItem, MenuItemModel};
use crate::models::order::{item_index, Order};
use crate::repositories::order::{updated_order, OrderRepo};

verus! {

pub const MESSAGE_ORDER_NOT_FOUND: &'static str = "There are no orders associated with this table";

pub const MESSAGE_INTERNAL_ERROR: &'static str = "Internal server error";

/// One requested menu item: the catalog identifier, the display name and the
/// fixed-point price in the currency's minor unit.
pub struct MenuItemReq {
    pub menu_item_id: u128,
    pub name: String,
    pub price: u64,
}

impl View for MenuItemReq {
    type V = MenuItemModel;

    open spec fn view(&self) -> MenuItemModel {
        MenuItemModel { id: self.menu_item_id, name: self.name@, price: self.price }
    }
}

/// An add-meal-items request: the table and the requested menu items, in
/// order.
pub struct AddMealItemsReq {
    pub table_id: u32,
    pub menu_items: Vec<MenuItemReq>,
}

/// Failure reply, carrying a human-readable message.
pub struct ErrResp {
    pub message: String,
}

/// Success reply: the snapshot of the order taken right after the batch was
/// registered. The new items still show as Pending here even though cooking
/// jobs may already be running: fresher status is observable through later
/// snapshot queries, not through this immediate response.
pub struct AddMealItemsResp {
    pub order: Order,
}

/// One cooking job, carrying only the data it needs: which item of which
/// table to cook, and for how long. The caller runs each job on some worker:
/// first [`start_cooking_job`], then, after waiting the returned number of
/// minutes, [`finish_cooking_job`].
#[derive(Clone, Copy, Debug, PartialEq, Eq, Structural)]
pub struct CookingJob {
    pub table_id: u32,
    pub meal_item_id: u128,
    pub cooking_time_in_min: u32,
}

/// Validate and register a batch of meal items for a table, and lay out the
/// cooking jobs, one per new item, for the caller to dispatch.
///
/// If the table has no registered order, the request fails with the
/// order-not-found message and nothing changes: no item is stored, no job is
/// handed out. Otherwise one meal item per requested menu item is appended to
/// the table's order, each starting at Pending and not removed, with its
/// cooking duration derived from its menu item; every item already in the
/// order, the aggregate status and every other table are untouched, and the
/// reply carries a snapshot of the table's order as registered.
pub fn handle(repo: &mut OrderRepo, req: AddMealItemsReq) -> (result: Result<
    (AddMealItemsResp, Vec<CookingJob>),
    ErrResp,
>)
    ensures
        result is Ok <==> old(repo)@.contains_key(req.table_id),
        result matches Err(e) ==> final(repo)@ == old(repo)@ && e.message@
            == MESSAGE_ORDER_NOT_FOUND@,
        result matches Ok(ok) ==> ({
            let t = req.table_id;
            let prior = old(repo)@[t].meal_items;
            let n = prior.len();
            let k = req.menu_items@.len();
            let now = final(repo)@[t].meal_items;
            &&& final(repo)@.dom() == old(repo)@.dom()
            &&& (forall|t2: u32|
                old(repo)@.contains_key(t2) && t2 != t ==> final(repo)@[t2] == old(repo)@[t2])
            &&& final(repo)@[t].table_id == old(repo)@[t].table_id
            &&& final(repo)@[t].status == old(repo)@[t].status
            &&& now.len() == n + k
            &&& (forall|j: int| 0 <= j < n ==> now[j] == prior[j])
            &&& (forall|j: int|
                0 <= j < k ==> now[n + j] == MealItem::created_model(
                    now[n + j].id,
                    req.menu_items@[j]@,
                ))
            &&& ok.0.order@ == final(repo)@[t]
            &&& ok.1@.len() == k
            &&& (forall|j: int|
                0 <= j < k ==> ok.1@[j] == (CookingJob {
                    table_id: t,
                    meal_item_id: now[n + j].id,
                    cooking_time_in_min: now[n + j].cooking_time_in_min,
                }))
        }),
{
    let table_id = req.table_id;
    let menu_items = req.menu_items;
    let n_req = menu_items.len();

    let mut meal_items: Vec<MealItem> = Vec::new();
    let mut i: usize = 0;
    while i < n_req
        invariant
            n_req == menu_items@.len(),
            i <= n_req,
            meal_items@.len() == i,
            forall|j: int|
                0 <= j < i ==> meal_items@[j]@ == MealItem::created_model(
                    meal_items@[j]@.id,
                    menu_items@[j]@,
                ),
        decreases n_req - i,
    {
        let r = &menu_items[i];
        let menu_item = MenuItem::create(r.menu_item_id, r.name.clone(), r.price);
        let meal_item = MealItem::create(menu_item);
        meal_items.push(meal_item);
        i += 1;
    }

    let mut jobs: Vec<CookingJob> = Vec::new();
    let mut i: usize = 0;
    while i < n_req
        invariant
            n_req == meal_items@.len(),
            i <= n_req,
            jobs@.len() == i,
            forall|j: int|
                0 <= j < i ==> jobs@[j] == (CookingJob {
                    table_id: table_id,
                    meal_item_id: meal_items@[j]@.id,
                    cooking_time_in_min: meal_items@[j]@.cooking_time_in_min,
                }),
        decreases n_req - i,
    {
        let mi = &meal_items[i];
        jobs.push(CookingJob {
            table_id,
            meal_item_id: mi.id(),
            cooking_time_in_min: mi.cooking_time_in_min(),
        });
        i += 1;
    }

    let existed = repo.add_order_meal_items(table_id, meal_items);
    if !existed {
        return Err(ErrResp { message: MESSAGE_ORDER_NOT_FOUND.to_owned() });
    }

    match repo.get_order_by_table_id(table_id) {
        Some(order) => Ok((AddMealItemsResp { order }, jobs)),
        None => {
            // The registration just succeeded, so the snapshot cannot be
            // missing: the branch is proved unreachable.
            Err(ErrResp { message: MESSAGE_INTERNAL_ERROR.to_owned() })
        },
    }
}

/// The first half of one cooking job, run on a worker once the job is picked
/// up: look the item up; if its table's order is gone, the item is unknown,
/// or the item is flagged removed, do nothing and report nothing to wait for.
/// Otherwise mark the item Preparing, advancing the order's aggregate status
/// out of Received if this was the first item to begin, and hand back the
/// item's cooking duration for the worker to wait out.
pub fn start_cooking_job(repo: &mut OrderRepo, job: &CookingJob) -> (r: Option<u32>)
    ensures
        ({
            let t = job.table_id;
            let id = job.meal_item_id;
            if !old(repo)@.contains_key(t) || item_index(old(repo)@[t].meal_items, id) < 0 {
                r is None && final(repo)@ == old(repo)@
            } else {
                let item = old(repo)@[t].meal_items[item_index(old(repo)@[t].meal_items, id)];
                if item.removed {
                    r is None && final(repo)@ == old(repo)@
                } else {
                    r == Some(item.cooking_time_in_min) && final(repo)@ == old(repo)@.insert(
                        t,
                        updated_order(old(repo)@[t], id, MealItemStatus::Preparing),
                    )
                }
            }
        }),
{
    match repo.get_order_meal_item(job.table_id, job.meal_item_id) {
        Some(item) => {
            if item.is_removed() {
                return None;
            }
            let minutes = item.cooking_time_in_min();
            repo.update_order_meal_item_status(
                job.table_id,
                job.meal_item_id,
                MealItemStatus::Preparing,
            );
            Some(minutes)
        },
        None => None,
    }
}

/// The second half of one cooking job, run after the cooking duration has
/// been waited out: mark the item Completed, as far as its one-way lifecycle
/// allows. A job that already began is not preempted by a removal in the
/// meantime, so the item completes even if it was flagged removed while
/// cooking; this is an accepted limitation of the design, not a defect.
pub fn finish_cooking_job(repo: &mut OrderRepo, job: &CookingJob) -> (found: bool)
    ensures
        found == old(repo)@.contains_key(job.table_id),
        !found ==> final(repo)@ == old(repo)@,
        found ==> final(repo)@ == old(repo)@.insert(
            job.table_id,
            updated_order(old(repo)@[job.table_id], job.meal_item_id, MealItemStatus::Completed),
        ),
{
    repo.update_order_meal_item_status(job.table_id, job.meal_item_id, MealItemStatus::Completed)
}

} // verus!
