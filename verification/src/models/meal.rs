use vstd::prelude::*;
use crate::models::menu::{MenuItem, MenuItemModel};

verus! {

/// Lifecycle of a single meal item. The core only ever drives an item along
/// Pending -> Preparing -> Completed; `Removed` is reserved for presentation
/// by outer layers, while removal itself is tracked by the separate `removed`
/// flag so that a removed item keeps the status it had when it was flagged.
#[derive(Clone, Copy, Debug, PartialEq, Eq, Structural)]
pub enum MealItemStatus {
    Pending,
    Preparing,
    Completed,
    Removed,
}

/// Mathematical view of a [`MealItem`].
pub ghost struct MealItemModel {
    pub id: u128,
    pub menu_item: MenuItemModel,
    pub cooking_time_in_min: u32,
    pub status: MealItemStatus,
    pub removed: bool,
}

/// One unit of food within an order: a generated identifier, the catalog item
/// it refers to, a cooking duration derived from that catalog item, its own
/// lifecycle status and the removal flag.
#[derive(Clone, Debug)]
pub struct MealItem {
    id: u128,
    menu_item: MenuItem,
    cooking_time_in_min: u32,
    status: MealItemStatus,
    removed: bool,
}

/// Position of a status along the one-way lifecycle.
pub open spec fn status_rank(s: MealItemStatus) -> int {
    match s {
        MealItemStatus::Pending => 0,
        MealItemStatus::Preparing => 1,
        MealItemStatus::Completed => 2,
        MealItemStatus::Removed => 3,
    }
}

/// The status an item ends up in when `requested` is asked for while the item
/// currently is at `cur`: only the two forward lifecycle steps
/// Pending -> Preparing and Preparing -> Completed are ever applied; any other
/// request leaves the status as it was.
pub open spec fn next_status(cur: MealItemStatus, requested: MealItemStatus) -> MealItemStatus {
    if cur == MealItemStatus::Pending && requested == MealItemStatus::Preparing {
        requested
    } else if cur == MealItemStatus::Preparing && requested == MealItemStatus::Completed {
        requested
    } else {
        cur
    }
}

/// `b` is reachable from `a` along the forward lifecycle
/// Pending -> Preparing -> Completed; nothing else is reachable, so a status
/// never regresses and the `Removed` variant is never entered or left.
pub open spec fn status_progresses(a: MealItemStatus, b: MealItemStatus) -> bool {
    b == a
    || (a == MealItemStatus::Pending
        && (b == MealItemStatus::Preparing || b == MealItemStatus::Completed))
    || (a == MealItemStatus::Preparing && b == MealItemStatus::Completed)
}

/// Law: one status update moves an item's status by at most one forward
/// lifecycle step and never backwards, whatever status is requested.
pub proof fn lemma_status_step_monotone(cur: MealItemStatus, requested: MealItemStatus)
    ensures
        status_progresses(cur, next_status(cur, requested)),
        status_rank(cur) <= status_rank(next_status(cur, requested)),
{
}

/// Law: forward progress composes, so across any series of updates an item's
/// status sequence is exactly Pending -> Preparing -> Completed, possibly
/// stopping early, and never regresses.
pub proof fn lemma_status_progress_transitive(
    a: MealItemStatus,
    b: MealItemStatus,
    c: MealItemStatus,
)
    requires
        status_progresses(a, b),
        status_progresses(b, c),
    ensures
        status_progresses(a, c),
{
}

/// Cooking duration policy: derived deterministically from the catalog item,
/// between 5 and 15 minutes depending on its price.
pub open spec fn cooking_minutes(menu_item: MenuItemModel) -> u32 {
    (5 + menu_item.price % 11) as u32
}

/// The models of a batch of meal items, in order.
pub open spec fn models_of(items: Seq<MealItem>) -> Seq<MealItemModel> {
    items.map_values(|mi: MealItem| mi@)
}

/// Relies on uuid's Uuid::new_v4, which draws a random identifier; nothing is
/// promised of the value.
#[verifier::external_body]
fn fresh_meal_item_id() -> u128 {
    uuid::Uuid::new_v4().as_u128()
}

impl View for MealItem {
    type V = MealItemModel;

    closed spec fn view(&self) -> MealItemModel {
        MealItemModel {
            id: self.id,
            menu_item: self.menu_item@,
            cooking_time_in_min: self.cooking_time_in_min,
            status: self.status,
            removed: self.removed,
        }
    }
}

impl MealItem {
    /// Deterministic constructor: a fresh item for `menu_item` under the given
    /// identifier, not yet cooked and not removed.
    pub fn create_with_id(id: u128, menu_item: MenuItem) -> (r: MealItem)
        ensures
            r@ == (MealItemModel {
                id,
                menu_item: menu_item@,
                cooking_time_in_min: cooking_minutes(menu_item@),
                status: MealItemStatus::Pending,
                removed: false,
            }),
    {
        let price = menu_item.price();
        let cooking_time_in_min: u32 = 5 + (price % 11) as u32;
        MealItem {
            id,
            menu_item,
            cooking_time_in_min,
            status: MealItemStatus::Pending,
            removed: false,
        }
    }

    /// As used on request intake: draws a fresh random identifier for the new
    /// item; everything but the identifier is pinned down.
    pub fn create(menu_item: MenuItem) -> (r: MealItem)
        ensures
            r@ == MealItem::created_model(r@.id, menu_item@),
    {
        let id = fresh_meal_item_id();
        MealItem::create_with_id(id, menu_item)
    }

    /// The model of a freshly created item with identifier `id`.
    pub open spec fn created_model(id: u128, menu_item: MenuItemModel) -> MealItemModel {
        MealItemModel {
            id,
            menu_item,
            cooking_time_in_min: cooking_minutes(menu_item),
            status: MealItemStatus::Pending,
            removed: false,
        }
    }

    pub fn id(&self) -> (r: u128)
        ensures
            r == self@.id,
    {
        self.id
    }

    pub fn menu_item(&self) -> (r: &MenuItem)
        ensures
            r@ == self@.menu_item,
    {
        &self.menu_item
    }

    pub fn cooking_time_in_min(&self) -> (r: u32)
        ensures
            r == self@.cooking_time_in_min,
    {
        self.cooking_time_in_min
    }

    pub fn status(&self) -> (r: MealItemStatus)
        ensures
            r == self@.status,
    {
        self.status
    }

    pub fn is_removed(&self) -> (r: bool)
        ensures
            r == self@.removed,
    {
        self.removed
    }

    /// A deep, independent copy equal to this meal item.
    pub fn duplicate(&self) -> (r: MealItem)
        ensures
            r == *self,
    {
        MealItem {
            id: self.id,
            menu_item: self.menu_item.duplicate(),
            cooking_time_in_min: self.cooking_time_in_min,
            status: self.status,
            removed: self.removed,
        }
    }

    /// Apply a requested status: only the forward lifecycle steps land (see
    /// [`next_status`]); the removal flag and everything else are untouched.
    pub fn update_state(&mut self, requested: MealItemStatus)
        ensures
            final(self)@ == (MealItemModel {
                status: next_status(old(self)@.status, requested),
                ..old(self)@
            }),
    {
        let advance = (self.status == MealItemStatus::Pending
            && requested == MealItemStatus::Preparing)
            || (self.status == MealItemStatus::Preparing
                && requested == MealItemStatus::Completed);
        if advance {
            self.status = requested;
        }
    }

    /// Flag the item removed; its status stays whatever it was at this moment.
    pub fn mark_removed(&mut self)
        ensures
            final(self)@ == (MealItemModel { removed: true, ..old(self)@ }),
    {
        self.removed = true;
    }
}

} // verus!
