//! Operand marshaling for the BN254 scalar-field accelerator.
//!
//! The accelerator is invoked by a numeric operation code and a list of
//! memory addresses. This crate decides what that list is for each
//! operation, packs operands where the calling convention asks for one wide
//! buffer, and states which bytes an invocation lets the accelerator touch.
//! Performing the invocation is left to the caller.

pub mod bn254;
pub mod invocation;
pub mod operand;
pub mod pack;
