use order_core::handlers::add_meal_items::{
    finish_cooking_job, handle, start_cooking_job, AddMealItemsReq, MenuItemReq,
};
use order_core::models::meal::{MealItem, MealItemStatus};
use order_core::models::menu::MenuItem;
use order_core::models::order::{Order, OrderStatus};
use order_core::repositories::order::OrderRepo;

fn one_item_request(table_id: u32, price: u64) -> AddMealItemsReq {
    AddMealItemsReq {
        table_id,
        menu_items: vec![MenuItemReq { menu_item_id: 1, name: "Dish".to_string(), price }],
    }
}

#[test]
fn cooking_time_is_derived_from_the_price() {
    let five = MealItem::create_with_id(1, MenuItem::create(1, "Water".to_string(), 0));
    assert_eq!(five.cooking_time_in_min(), 5);
    let fifteen = MealItem::create_with_id(2, MenuItem::create(2, "Roast".to_string(), 10));
    assert_eq!(fifteen.cooking_time_in_min(), 15);
    let thirteen = MealItem::create_with_id(3, MenuItem::create(3, "Soda".to_string(), 250));
    assert_eq!(thirteen.cooking_time_in_min(), 13);
}

#[test]
fn fresh_items_start_pending_and_not_removed() {
    let item = MealItem::create(MenuItem::create(9, "Pasta".to_string(), 1200));
    assert_eq!(item.status(), MealItemStatus::Pending);
    assert!(!item.is_removed());
    assert_eq!(item.menu_item().id(), 9);
    assert_eq!(item.menu_item().price(), 1200);
}

#[test]
fn items_in_one_batch_get_distinct_identifiers() {
    let a = MealItem::create(MenuItem::create(1, "A".to_string(), 100));
    let b = MealItem::create(MenuItem::create(1, "A".to_string(), 100));
    assert_ne!(a.id(), b.id());
}

#[test]
fn item_status_never_regresses() {
    let mut repo = OrderRepo::new();
    repo.add(Order::create(20));
    let (_, jobs) = handle(&mut repo, one_item_request(20, 600)).ok().unwrap();
    let id = jobs[0].meal_item_id;

    // Pending: a completion request is not a forward step from Pending, and
    // since no item begins preparing, the aggregate stays Received too.
    repo.update_order_meal_item_status(20, id, MealItemStatus::Completed);
    assert_eq!(repo.get_order_meal_item(20, id).unwrap().status(), MealItemStatus::Pending);
    assert_eq!(repo.get_order_by_table_id(20).unwrap().get_status(), OrderStatus::Received);

    start_cooking_job(&mut repo, &jobs[0]);
    assert_eq!(repo.get_order_meal_item(20, id).unwrap().status(), MealItemStatus::Preparing);

    // Preparing: asking for Pending again does not regress.
    repo.update_order_meal_item_status(20, id, MealItemStatus::Pending);
    assert_eq!(repo.get_order_meal_item(20, id).unwrap().status(), MealItemStatus::Preparing);

    finish_cooking_job(&mut repo, &jobs[0]);
    assert_eq!(repo.get_order_meal_item(20, id).unwrap().status(), MealItemStatus::Completed);

    // Completed is terminal.
    repo.update_order_meal_item_status(20, id, MealItemStatus::Preparing);
    assert_eq!(repo.get_order_meal_item(20, id).unwrap().status(), MealItemStatus::Completed);
}

#[test]
fn aggregate_status_advances_once_and_never_reverts() {
    let mut repo = OrderRepo::new();
    repo.add(Order::create(21));
    let (_, jobs) = handle(
        &mut repo,
        AddMealItemsReq {
            table_id: 21,
            menu_items: vec![
                MenuItemReq { menu_item_id: 1, name: "A".to_string(), price: 100 },
                MenuItemReq { menu_item_id: 2, name: "B".to_string(), price: 200 },
            ],
        },
    )
    .ok()
    .unwrap();

    assert_eq!(repo.get_order_by_table_id(21).unwrap().get_status(), OrderStatus::Received);

    start_cooking_job(&mut repo, &jobs[0]);
    assert_eq!(repo.get_order_by_table_id(21).unwrap().get_status(), OrderStatus::Preparing);

    // A second item reaching Preparing leaves the aggregate where it is.
    start_cooking_job(&mut repo, &jobs[1]);
    assert_eq!(repo.get_order_by_table_id(21).unwrap().get_status(), OrderStatus::Preparing);

    // No later update brings it back to Received.
    finish_cooking_job(&mut repo, &jobs[0]);
    finish_cooking_job(&mut repo, &jobs[1]);
    assert_eq!(repo.get_order_by_table_id(21).unwrap().get_status(), OrderStatus::Preparing);
}

#[test]
fn removal_during_cooking_still_completes() {
    let mut repo = OrderRepo::new();
    repo.add(Order::create(22));
    let (_, jobs) = handle(&mut repo, one_item_request(22, 500)).ok().unwrap();
    let id = jobs[0].meal_item_id;

    // The job has already begun when the removal lands: the item still
    // completes, which the design accepts.
    let started = start_cooking_job(&mut repo, &jobs[0]);
    assert!(started.is_some());
    repo.remove_order_meal_item(22, id);

    finish_cooking_job(&mut repo, &jobs[0]);
    let item = repo.get_order_meal_item(22, id).unwrap();
    assert!(item.is_removed());
    assert_eq!(item.status(), MealItemStatus::Completed);
}

#[test]
fn order_update_status_only_moves_forward() {
    let mut order = Order::create(30);
    order.update_status(OrderStatus::Preparing);
    assert_eq!(order.get_status(), OrderStatus::Preparing);
    order.update_status(OrderStatus::Received);
    assert_eq!(order.get_status(), OrderStatus::Preparing);
    order.update_status(OrderStatus::Completed);
    assert_eq!(order.get_status(), OrderStatus::Completed);
}

#[test]
fn aggregate_advances_only_when_an_item_begins_preparing() {
    let mut repo = OrderRepo::new();
    repo.add(Order::create(23));
    let (_, jobs) = handle(&mut repo, one_item_request(23, 450)).ok().unwrap();

    // An update for an unknown item moves nothing, the aggregate included.
    repo.update_order_meal_item_status(23, 987654, MealItemStatus::Preparing);
    assert_eq!(repo.get_order_by_table_id(23).unwrap().get_status(), OrderStatus::Received);

    // A completion request on a Pending item does not begin preparing it,
    // so the aggregate stays Received as well.
    repo.update_order_meal_item_status(23, jobs[0].meal_item_id, MealItemStatus::Completed);
    assert_eq!(repo.get_order_by_table_id(23).unwrap().get_status(), OrderStatus::Received);

    // Only the item actually moving into Preparing advances the order.
    repo.update_order_meal_item_status(23, jobs[0].meal_item_id, MealItemStatus::Preparing);
    assert_eq!(repo.get_order_by_table_id(23).unwrap().get_status(), OrderStatus::Preparing);
}
