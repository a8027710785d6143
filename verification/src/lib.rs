//! Linked-list containers with three ownership disciplines, each verified
//! against a sequence model:
//!
//! * an exclusively owned LIFO stack ([`ok_stack`], with monomorphic
//!   variants in [`bad_stack`] and [`stack`]),
//! * a double-ended queue built from exclusively owned nodes ([`bad_deque`]),
//! * a persistent list whose versions share structure ([`persistence_list`]).

pub mod bad_deque;
pub mod bad_stack;
pub mod ok_stack;
pub mod persistence_list;
pub mod stack;
