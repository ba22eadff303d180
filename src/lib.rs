//! Shared-memory segments and memory-resident condition objects, handed to a
//! host runtime through opaque integer handles.
//!
//! `handle_table` holds the resource table that turns a native resource into a
//! non-zero handle and back; `segment` owns one mapped shared-memory segment;
//! `bridge` runs the segment operations by handle; `condition` decides how a
//! wait on a condition object is carried out and states what the condition's
//! control structure does.
pub mod bridge;
pub mod condition;
pub mod error;
pub mod handle_table;
pub mod segment;
