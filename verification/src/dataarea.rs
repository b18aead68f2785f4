//! The mutable data area of a frame: the operand stack and the pending
//! return-value slot. The frame shape around it (code, constant pool,
//! program counter) is immutable once the frame is pushed.

use vstd::prelude::*;

use crate::oop::Oop;
use crate::stack::Stack;

verus! {

pub struct DataArea {
    pub stack: Stack,
    pub return_v: Option<Oop>,
}

impl DataArea {
    pub fn new(max_stack: usize) -> (r: Self)
        ensures
            r.stack.slots().len() == 0,
            r.return_v is None,
    {
        let stack = Stack::new(max_stack);
        Self { stack, return_v: None }
    }
}

} // verus!
