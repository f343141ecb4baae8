pub mod add_meal_items;
