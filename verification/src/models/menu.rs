use vstd::prelude::*;

verus! {

/// Mathematical view of a [`MenuItem`].
pub ghost struct MenuItemModel {
    pub id: u128,
    pub name: Seq<char>,
    pub price: u64,
}

/// Immutable catalog reference: an opaque identifier, a display name and a
/// fixed-point price in the currency's minor unit. Created once per request
/// from caller input and never mutated afterwards.
#[derive(Clone, Debug)]
pub struct MenuItem {
    id: u128,
    name: String,
    price: u64,
}

impl View for MenuItem {
    type V = MenuItemModel;

    closed spec fn view(&self) -> MenuItemModel {
        MenuItemModel { id: self.id, name: self.name@, price: self.price }
    }
}

impl MenuItem {
    pub fn create(id: u128, name: String, price: u64) -> (r: MenuItem)
        ensures
            r@ == (MenuItemModel { id, name: name@, price }),
    {
        MenuItem { id, name, price }
    }

    pub fn id(&self) -> (r: u128)
        ensures
            r == self@.id,
    {
        self.id
    }

    pub fn name(&self) -> (r: &String)
        ensures
            r@ == self@.name,
    {
        &self.name
    }

    pub fn price(&self) -> (r: u64)
        ensures
            r == self@.price,
    {
        self.price
    }

    /// A deep, independent copy equal to this catalog item.
    pub fn duplicate(&self) -> (r: MenuItem)
        ensures
            r == *self,
    {
        MenuItem { id: self.id, name: self.name.clone(), price: self.price }
    }
}

} // verus!
