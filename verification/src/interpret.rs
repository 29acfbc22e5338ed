//! Functions as values.

use vstd::prelude::*;

use crate::syntax::ast::{Param, StmtNode};

verus! {

/// A function: its parameters and the statements of its body.
pub struct FnDef {
    pub params: Vec<Param>,
    pub body: Vec<StmtNode>,
}

impl FnDef {
    /// A function with these parameters and this body.
    pub fn new(params: Vec<Param>, body: Vec<StmtNode>) -> (r: FnDef)
        ensures
            r.params == params,
            r.body == body,
    {
        FnDef { params, body }
    }
}

} // verus!
