//! The error taxonomy of the virtual machine.
//!
//! Inside the engine an exception is a Java-level value; these kinds name the
//! conditions the runtime itself synthesizes before an exception object
//! exists, and the loader- and linker-level failures.

use vstd::prelude::*;

verus! {

/// A condition the runtime raises on its own behalf.
#[derive(Clone, Copy, Debug, PartialEq, Eq, Structural)]
pub enum ExKind {
    NullPointer,
    ArrayIndexOutOfBounds,
    Arithmetic,
    ClassCast,
    NegativeArraySize,
    ArrayStore,
    StackOverflow,
    AbstractMethod,
    IllegalMonitorState,
    ExceptionInInitializer,
    NoClassDefFound,
    Io,
    Internal,
    /// A Java-level `athrow`: the thrown object travels in the runtime's
    /// thrown slot, and its class, not this kind, decides the handler.
    Thrown,
}

/// A failure of the class-file decoder: the bytes are not a well-formed
/// class file.
#[derive(Clone, Copy, Debug, PartialEq, Eq, Structural)]
pub enum ClassFormat {
    Truncated,
    BadMagic,
    UnknownTag,
    BadIndex,
    MalformedUtf8,
}

/// An inconsistency discovered during linking.
#[derive(Clone, Copy, Debug, PartialEq, Eq, Structural)]
pub enum LinkageError {
    BadConstantPoolRef,
    FieldAbsent,
    MethodAbsent,
    SuperMissing,
}

} // verus!
