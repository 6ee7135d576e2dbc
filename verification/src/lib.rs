//! Boolean search expressions for a flashcard collection.
//!
//! A caller states what it looks for as a structured filter ([`filter`]).
//! The builder turns a filter into an expression tree ([`builder`],
//! [`node`]); two trees can be joined with a separator, and one operand put
//! in the place of another ([`combine`]). Beside that the crate resolves
//! sort orders ([`sort`]), formats the rows of the card browser
//! ([`browser`]), and prepares the pattern of a find-and-replace
//! ([`find_replace`]).
//!
//! Reading a query that a user typed, rendering a tree as such a query, and
//! running a search against the collection are not done here. Text that was
//! parsed comes in as the parser returned it, and what is to be rendered
//! goes out as a sequence of nodes.

pub mod browser;
pub mod builder;
pub mod combine;
pub mod filter;
pub mod find_replace;
pub mod node;
pub mod sort;
pub mod text;
