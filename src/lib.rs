//! An owning wrapper around the address of a foreign, reference-counted object
//! that is reached through a function table in the COM fashion.
//!
//! A `ComPtr<T>` holds a non-null address of an interface `T`. The library
//! states, and proves, the rules that govern such an address: how it is made,
//! how it is handed on, and which counting call each change of ownership owes
//! the foreign object (see `refcount`). The calls themselves go through the
//! object's function table and are made by the program that embeds the library.

pub mod com_ptr;
pub mod refcount;

pub use com_ptr::ComPtr;
pub use refcount::{call_for, CountCall, Event};
