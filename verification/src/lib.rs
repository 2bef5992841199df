//! Socket addresses, result codes and the decision logic of a small Zephyr
//! TCP echo server and UART driver, with their contracts.

pub mod byte_order;
pub mod socket;
pub mod echo;
pub mod uart;
pub mod io;
pub mod device;
