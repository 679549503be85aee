//! Layout layer of an event-table circuit: cell descriptors, a cursor-based
//! cell allocator over a fixed step region, and the configuration contract
//! that every opcode plugin implements to obtain storage and contribute
//! constraints.

pub mod allocator;
pub mod cells;
pub mod event;
pub mod laws;
pub mod op_configure;
pub mod op_const;
pub mod op_drop;
pub mod op_return;
pub mod substrate;
