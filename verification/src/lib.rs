//! A small interpreter core for compiled class files of a stack-based
//! object-oriented virtual machine.
//!
//! - [`blob`]: a cursor over the bytes of a class file.
//! - [`constant_pool`] and [`class_file`]: the class-file decoder.
//! - [`decoder`] and [`bytecode`]: the instructions, the bytecode decoder and
//!   the dispatch loop.
//! - [`jvm`]: values, the heap of shared arrays and instances, frames.
//! - [`java_class`], [`classes`] and [`native_java_classes`]: compiled and
//!   intrinsic classes behind one set of operations, and the registry that
//!   holds them by name.
//! - [`semantics`]: what an instruction, a call and a run mean; the
//!   executable code is proved to compute exactly that.
//! - [`arith`], [`descriptor`], [`text`]: integer arithmetic of the opcodes,
//!   method descriptors, helpers on text.
//! - [`references`]: the proof that references never dangle.
//! - [`errors`]: the failures, and the question that a run puts to its host.
//!
//! Every function is verified against a contract stated over mathematical
//! views of the data (`Seq`, `Map`, `int`). The exception are the four
//! functions of [`text`] that call the standard library for what it alone
//! computes: their contracts are trusted.

pub mod arith;
pub mod blob;
pub mod bytecode;
pub mod class_file;
pub mod classes;
pub mod constant_pool;
pub mod decoder;
pub mod descriptor;
pub mod errors;
pub mod java_class;
pub mod jvm;
pub mod native_java_classes;
pub mod references;
pub mod semantics;
pub mod text;
