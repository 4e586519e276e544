//! A capability boundary between a sandboxed bytecode guest and the
//! peripherals of a microcontroller. The host side keeps the tables of
//! claimed GPIO lines and the open UART connection, resolves and dispatches
//! the guest's host calls, and reads and writes the guest's linear memory
//! only inside its bounds. The guest side wraps those calls in pins whose
//! direction is fixed by their type.
use vstd::prelude::*;

pub mod abi;
pub mod board;
pub mod dispatch;
pub mod guest;
pub mod host;
pub mod laws;
pub mod memory;
pub mod pins;

verus! {

} // verus!
