//! Minimal verified containers: a stack backed by a growable array, and a
//! singly linked list.

pub mod linked_list;
pub mod stack;
