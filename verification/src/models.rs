pub mod meal;
pub mod menu;
pub mod order;
