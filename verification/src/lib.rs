//! A small Java virtual machine core: class-file decoding, runtime class
//! descriptors with field layout, the tagged value universe, per-frame
//! operand stacks and local variable arrays, a system dictionary, class-path
//! resolution, monitors, lazy class initialization, the native registry with
//! its host port, and the bytecode semantics of the integral, reference and
//! control families (the float and double families stay outside).

pub mod arith;
pub mod class;
pub mod classfile;
pub mod codec;
pub mod cp_manager;
pub mod dataarea;
pub mod errors;
pub mod field;
pub mod interp;
pub mod local;
pub mod monitor;
pub mod native_io;
pub mod native_loader;
pub mod oop;
pub mod oop_util;
pub mod runtime;
pub mod slot;
pub mod stack;
pub mod sys_dic;
pub mod timeouts;
