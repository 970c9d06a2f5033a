//! Two small containers for controlled mutable access to a single value:
//! a raw storage cell with no bookkeeping of its own, and a dynamic-borrow
//! cell that tracks outstanding borrows at runtime and enforces that they
//! are either many readers or exactly one writer, never both.

pub mod cell;
pub mod refcell;
