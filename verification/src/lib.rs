//! JIT compilation through LLVM's ORC interface, release 18 or later.
//!
//! The library decides what is asked of LLVM, in which order, and what is made
//! of the replies. It does not call LLVM itself: an operation hands out one
//! request at a time, as a [`call::Call`], and goes on when it is handed the
//! [`call::Reply`].
//!
//! A session goes like this: create a
//! [`ThreadSafeContext`](context::ThreadSafeContext), build modules in its
//! context, wrap them, add them to a library of an [`LLJit`](lljit::LLJit), and
//! look up their functions.
//!
//! Handles that own something in LLVM have a `drop` that gives it back. What
//! happens to everything that is owned is stated in [`run`], what single
//! operations do from start to end in [`laws`], and that they take every answer
//! that LLVM can give in [`answers`].
//!
//! `LLVMOrcMaterializationResponsibilityAddDependencies` and
//! `LLVMOrcMaterializationResponsibilityAddDependenciesForAll`, which LLVM 19
//! removed, have no request.

pub mod answers;
pub mod call;
pub mod context;
pub mod continuation;
pub mod dump;
pub mod dylib;
pub mod error;
pub mod laws;
pub mod layer;
pub mod lazy;
pub mod lljit;
pub mod materialization;
pub mod operation;
pub mod run;
pub mod session;
pub mod target;
pub mod text;
