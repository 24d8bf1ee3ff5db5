pub mod addr;
