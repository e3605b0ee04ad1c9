//! A driver for the DW1000 ultra-wideband radio, written as a type-state
//! machine over a register capability. Each handle records, as ghost state,
//! the register operations it has issued; the contracts state those
//! sequences exactly.
pub mod configs;
pub mod registers;
pub mod time;
pub mod error;
pub mod device;
pub mod uninitialized;
pub mod ready;
pub mod sending;
pub mod frame;
