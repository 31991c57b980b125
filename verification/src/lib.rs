//! Core of a Wireworld cellular automaton: a rectangular grid of cells,
//! each `Void`, `Wire`, `Signal` or `TailSignal`, evolving synchronously
//! under the classic Wireworld rule. The grid model, bounded neighbor
//! counting and the transition rule live here; rendering and input
//! handling are left to an unverified driver.

pub mod laws;
pub mod table;
