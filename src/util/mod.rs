pub mod error;
pub mod lock;
pub mod spin_lock;
