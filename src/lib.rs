pub mod arch;
pub mod logging;
pub mod memory;
pub mod util;
