//! A small persisted shopping list: parsing of submitted form bodies, the
//! HTML pages the service answers with, and the list table's behaviour.
pub mod form;
pub mod item;
pub mod page;
pub mod handler;
pub mod table;
