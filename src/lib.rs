//! The CPU core of a Game Boy (DMG): a cycle-counting interpreter for the Sharp LR35902
//! instruction set, proved against a specification of every instruction.
pub mod flags;
pub mod registers;
pub mod bus;
pub mod state;
pub mod alu;
pub mod semantics;
pub mod cpu;
pub mod loads;
pub mod arith;
pub mod bits;
pub mod control;
pub mod execute;
pub mod timing;
pub mod laws;
