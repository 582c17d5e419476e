//! Asset collections loaded per game state: a registry and phase driver that
//! decide each tick's work, and a parser for the declarative field attributes
//! of a collection.
pub mod attributes;
pub mod collection;
pub mod loading;
