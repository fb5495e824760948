//! Branded cells and tokens.
//!
//! A [`GhostToken`] is a zero-size capability tied to a brand, a lifetime that
//! is unique to one call of [`GhostToken::with`]. A [`GhostCell`] holds one
//! payload and carries a brand as well; its payload is reached by presenting a
//! token of the same brand. Brands are compared at compile time alone:
//! nothing of them exists at run time.
//!
//! Reading takes a shared reference to the cell and to the token, so any
//! number of reads may be outstanding at once, over any number of cells.
//! Writing takes an exclusive reference to the token, so at most one write is
//! outstanding under a brand, whatever the number of its cells. In this
//! library a write takes the cell by exclusive reference too: every function
//! here is safe code whose contract is proved, and safe code does not write
//! through a shared reference.
//!
//! [`entry`] holds the rule by which a function that asks for tokens is
//! rewritten into nested calls of [`GhostToken::with`].

pub mod brand;
pub mod cell;
pub mod entry;
pub mod laws;
pub mod token;

pub use cell::GhostCell;
pub use token::GhostToken;
