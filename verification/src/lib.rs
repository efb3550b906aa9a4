use vstd::prelude::*;

pub mod text;
pub mod terminal;
pub mod gui;
pub mod history;
pub mod advanced;
pub mod features;
pub mod config;
pub mod debug;
pub mod session;
pub mod simple_terminal;
pub mod startup;
pub mod stamps;

verus! {

} // verus!
