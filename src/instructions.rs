use vstd::prelude::*;

use prolog_parser::ast::{Constant, RegType};

use crate::term::{ClauseType, Level};

verus! {

/// Instructions that match a clause head against the call's arguments.
#[derive(Debug)]
pub enum FactInstruction {
    GetConstant(Level, Constant, RegType),
    GetList(Level, RegType),
    GetStructure(ClauseType, usize, RegType),
    GetValue(RegType, usize),
    GetVariable(RegType, usize),
    UnifyConstant(Constant),
    UnifyVariable(RegType),
    UnifyValue(RegType),
    UnifyVoid(usize),
}

/// Instructions that build a goal's arguments before the call.
#[derive(Debug)]
pub enum QueryInstruction {
    GetVariable(RegType, usize),
    PutConstant(Level, Constant, RegType),
    PutList(Level, RegType),
    PutStructure(ClauseType, usize, RegType),
    PutValue(RegType, usize),
    PutVariable(RegType, usize),
    SetConstant(Constant),
    SetVariable(RegType),
    SetValue(RegType),
    SetVoid(usize),
}

} // verus!
