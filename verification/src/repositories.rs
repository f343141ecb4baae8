pub mod order;
