//! What the operations of the library are for: laws that relate what a function is given to what
//! it gives back, for every call.
//!
//! A law about a function takes a call of it, `call_ensures(function, arguments, result)`, and says
//! what holds of any such call.
pub mod depot;
pub mod dll;
pub mod downloads;
pub mod folders;
pub mod settings;
pub mod text;
