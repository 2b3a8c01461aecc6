//! A string interner: hand it arbitrarily many strings and get back small,
//! copyable identifiers, with equal strings always mapping to the same
//! identifier and identifier equality meaning string equality. Strings
//! live once in an append-only arena; a hash index maps a string's hash
//! back to its slot, re-checking true equality through the arena on every
//! probe. Identifiers store the slot index plus one in a non-zero integer
//! of selectable width, so an absent identifier costs no extra space.
//!
//! [`intern::Interner`] mints fixed 32-bit identifiers;
//! [`interner::Interner`] is generic over the widths in [`istr::IstrRepr`].
//! The model both are specified against, and the laws they obey, live in
//! [`model`].

pub mod arena;
pub mod intern;
pub mod interner;
pub mod istr;
pub mod model;
pub mod nonzero;
mod sealed;
mod table;
