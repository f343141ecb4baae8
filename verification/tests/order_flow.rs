use order_core::handlers::add_meal_items::{
    finish_cooking_job, handle, start_cooking_job, AddMealItemsReq, MenuItemReq,
    MESSAGE_ORDER_NOT_FOUND,
};
use order_core::models::meal::MealItemStatus;
use order_core::models::order::{Order, OrderStatus};
use order_core::repositories::order::OrderRepo;

fn request(table_id: u32, items: Vec<(u128, &str, u64)>) -> AddMealItemsReq {
    AddMealItemsReq {
        table_id,
        menu_items: items
            .into_iter()
            .map(|(menu_item_id, name, price)| MenuItemReq {
                menu_item_id,
                name: name.to_string(),
                price,
            })
            .collect(),
    }
}

#[test]
fn missing_order_reports_not_found_and_changes_nothing() {
    let mut repo = OrderRepo::new();
    let result = handle(&mut repo, request(99, vec![(1, "Burger", 850)]));
    let err = result.err().expect("table 99 has no order");
    assert_eq!(err.message, MESSAGE_ORDER_NOT_FOUND);
    assert!(repo.get_order_by_table_id(99).is_none());
}

#[test]
fn submit_two_items_for_table_seven_then_cook_both() {
    let mut repo = OrderRepo::new();
    repo.add(Order::create(7));

    let result = handle(&mut repo, request(7, vec![(1, "Burger", 850), (2, "Soda", 250)]));
    let (resp, jobs) = result.ok().expect("table 7 has an order");

    assert_eq!(resp.order.get_table_id(), 7);
    assert_eq!(resp.order.get_status(), OrderStatus::Received);
    assert_eq!(resp.order.meal_item_count(), 2);
    assert_eq!(resp.order.meal_item_at(0).status(), MealItemStatus::Pending);
    assert_eq!(resp.order.meal_item_at(1).status(), MealItemStatus::Pending);
    assert_eq!(resp.order.meal_item_at(0).menu_item().name(), "Burger");
    assert_eq!(resp.order.meal_item_at(1).menu_item().price(), 250);
    assert_eq!(jobs.len(), 2);

    // In place of waiting out the cooking durations, drive both jobs through
    // both halves, as the workers would.
    for job in &jobs {
        let minutes = start_cooking_job(&mut repo, job);
        assert!(minutes.is_some());
        assert!(finish_cooking_job(&mut repo, job));
    }

    let after = repo.get_order_by_table_id(7).expect("order still registered");
    assert_eq!(after.get_status(), OrderStatus::Preparing);
    assert_eq!(after.meal_item_count(), 2);
    assert_eq!(after.meal_item_at(0).status(), MealItemStatus::Completed);
    assert_eq!(after.meal_item_at(1).status(), MealItemStatus::Completed);
}

#[test]
fn second_batch_appends_and_preserves_prior_items() {
    let mut repo = OrderRepo::new();
    repo.add(Order::create(4));

    let (_, jobs) = handle(&mut repo, request(4, vec![(1, "Soup", 400)])).ok().unwrap();
    start_cooking_job(&mut repo, &jobs[0]);
    finish_cooking_job(&mut repo, &jobs[0]);

    let (resp, new_jobs) =
        handle(&mut repo, request(4, vec![(2, "Cake", 300), (3, "Tea", 150)])).ok().unwrap();
    assert_eq!(new_jobs.len(), 2);
    assert_eq!(resp.order.meal_item_count(), 3);
    assert_eq!(resp.order.meal_item_at(0).status(), MealItemStatus::Completed);
    assert_eq!(resp.order.meal_item_at(0).menu_item().name(), "Soup");
    assert_eq!(resp.order.meal_item_at(1).status(), MealItemStatus::Pending);
    assert_eq!(resp.order.meal_item_at(2).status(), MealItemStatus::Pending);
}

#[test]
fn empty_batch_succeeds_and_adds_nothing() {
    let mut repo = OrderRepo::new();
    repo.add(Order::create(5));
    let (resp, jobs) = handle(&mut repo, request(5, vec![])).ok().unwrap();
    assert_eq!(jobs.len(), 0);
    assert_eq!(resp.order.meal_item_count(), 0);
    assert_eq!(resp.order.get_status(), OrderStatus::Received);
}

#[test]
fn tables_are_independent() {
    let mut repo = OrderRepo::new();
    repo.add(Order::create(1));
    repo.add(Order::create(2));

    let (_, jobs_a) = handle(&mut repo, request(1, vec![(1, "Stew", 700)])).ok().unwrap();
    let (_, _jobs_b) = handle(&mut repo, request(2, vec![(2, "Pie", 500)])).ok().unwrap();

    // A cooking job making progress for table 1 leaves table 2 exactly as it
    // was: still Received, its item still Pending.
    start_cooking_job(&mut repo, &jobs_a[0]);
    let table_two = repo.get_order_by_table_id(2).unwrap();
    assert_eq!(table_two.get_status(), OrderStatus::Received);
    assert_eq!(table_two.meal_item_at(0).status(), MealItemStatus::Pending);

    let table_one = repo.get_order_by_table_id(1).unwrap();
    assert_eq!(table_one.get_status(), OrderStatus::Preparing);
    assert_eq!(table_one.meal_item_at(0).status(), MealItemStatus::Preparing);
}

#[test]
fn removed_item_is_left_alone_by_its_job() {
    let mut repo = OrderRepo::new();
    repo.add(Order::create(8));
    let (_, jobs) = handle(&mut repo, request(8, vec![(1, "Salad", 450)])).ok().unwrap();

    // Flag the item removed before its job's lookup runs.
    assert!(repo.remove_order_meal_item(8, jobs[0].meal_item_id));

    let started = start_cooking_job(&mut repo, &jobs[0]);
    assert!(started.is_none());

    let item = repo.get_order_meal_item(8, jobs[0].meal_item_id).unwrap();
    assert!(item.is_removed());
    assert_eq!(item.status(), MealItemStatus::Pending);
    // The item stays in the order as a historical record.
    assert_eq!(repo.get_order_by_table_id(8).unwrap().meal_item_count(), 1);
}

#[test]
fn snapshot_is_an_independent_copy() {
    let mut repo = OrderRepo::new();
    repo.add(Order::create(6));
    let (_, jobs) = handle(&mut repo, request(6, vec![(1, "Rice", 350)])).ok().unwrap();

    let before = repo.get_order_by_table_id(6).unwrap();
    start_cooking_job(&mut repo, &jobs[0]);

    // The earlier snapshot does not see the later update.
    assert_eq!(before.meal_item_at(0).status(), MealItemStatus::Pending);
    assert_eq!(before.get_status(), OrderStatus::Received);
    let after = repo.get_order_by_table_id(6).unwrap();
    assert_eq!(after.meal_item_at(0).status(), MealItemStatus::Preparing);
}

#[test]
fn re_adding_a_table_overwrites_its_order() {
    let mut repo = OrderRepo::new();
    repo.add(Order::create(3));
    handle(&mut repo, request(3, vec![(1, "Fish", 900)])).ok().unwrap();
    assert_eq!(repo.get_order_by_table_id(3).unwrap().meal_item_count(), 1);

    repo.add(Order::create(3));
    let fresh = repo.get_order_by_table_id(3).unwrap();
    assert_eq!(fresh.meal_item_count(), 0);
    assert_eq!(fresh.get_status(), OrderStatus::Received);
}

#[test]
fn unknown_items_and_tables_are_reported() {
    let mut repo = OrderRepo::new();
    repo.add(Order::create(10));
    assert!(repo.get_order_meal_item(10, 12345).is_none());
    assert!(repo.get_order_meal_item(11, 12345).is_none());
    assert!(!repo.remove_order_meal_item(10, 12345));
    assert!(!repo.update_order_meal_item_status(11, 12345, MealItemStatus::Preparing));
}
