//! The per-activation binding of a name: the value handle it stands for,
//! and whether it is a function parameter.  A parameter's handle is the live
//! value itself and is never loaded or stored; a non-parameter local's
//! handle is its stack slot, which is loaded before each use.

use vstd::prelude::*;

use crate::codegen::ir::ValId;

verus! {

#[derive(Clone, Copy, Debug, PartialEq, Eq, Structural)]
pub struct Variable {
    pub value: ValId,
    pub is_function_arg: bool,
}

impl Variable {
    pub fn new(value: ValId, is_function_arg: bool) -> (r: Self)
        ensures
            r == (Variable { value, is_function_arg }),
    {
        Self { value, is_function_arg }
    }
}

} // verus!
