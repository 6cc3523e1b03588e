use vstd::prelude::*;

use prolog_parser::ast::{Constant, RegType};

use crate::instructions::{FactInstruction, QueryInstruction};
use crate::term::{
    breadth_first_iter, fact_order, post_order_iter, query_order, refs_view, ClauseType, Level,
    Term, TermRef,
};

verus! {

/// One instruction family: how each kind of subterm is compiled in one
/// direction. Each operation is stated by a spec function of the same name.
pub trait CompilationTarget<'a>: Sized {
    spec fn order(t: Term) -> Seq<(Level, Term)>;

    spec fn constant_spec(lvl: Level, c: Constant, reg: RegType) -> Self;

    spec fn list_spec(lvl: Level, reg: RegType) -> Self;

    spec fn structure_spec(ct: ClauseType, arity: usize, reg: RegType) -> Self;

    spec fn void_spec(n: usize) -> Self;

    spec fn is_void(&self) -> bool;

    spec fn void_count(&self) -> usize;

    spec fn constant_subterm_spec(c: Constant) -> Self;

    spec fn argument_to_variable_spec(reg: RegType, arg: usize) -> Self;

    spec fn argument_to_value_spec(reg: RegType, arg: usize) -> Self;

    spec fn move_to_register_spec(reg: RegType, arg: usize) -> Self;

    spec fn subterm_to_variable_spec(reg: RegType) -> Self;

    spec fn subterm_to_value_spec(reg: RegType) -> Self;

    spec fn clause_arg_to_instr_spec(reg: RegType) -> Self;

    /// A void instruction is recognised as one and carries its count.
    proof fn lemma_void(n: usize)
        ensures
            Self::void_spec(n).is_void(),
            Self::void_spec(n).void_count() == n,
    ;

    /// Only `void_spec` builds a void instruction.
    proof fn lemma_not_void(lvl: Level, c: Constant, reg: RegType, ct: ClauseType, arity: usize, arg: usize)
        ensures
            !Self::constant_spec(lvl, c, reg).is_void(),
            !Self::list_spec(lvl, reg).is_void(),
            !Self::structure_spec(ct, arity, reg).is_void(),
            !Self::constant_subterm_spec(c).is_void(),
            !Self::argument_to_variable_spec(reg, arg).is_void(),
            !Self::argument_to_value_spec(reg, arg).is_void(),
            !Self::move_to_register_spec(reg, arg).is_void(),
            !Self::subterm_to_variable_spec(reg).is_void(),
            !Self::subterm_to_value_spec(reg).is_void(),
            !Self::clause_arg_to_instr_spec(reg).is_void(),
    ;

    /// The subterms of `term` in the order in which this direction compiles them.
    fn iter(term: &'a Term) -> (r: Vec<TermRef<'a>>)
        ensures
            refs_view(r@) == Self::order(*term),
    ;

    fn to_constant(lvl: Level, c: Constant, reg: RegType) -> (r: Self)
        ensures
            r == Self::constant_spec(lvl, c, reg),
    ;

    fn to_list(lvl: Level, reg: RegType) -> (r: Self)
        ensures
            r == Self::list_spec(lvl, reg),
    ;

    fn to_structure(ct: ClauseType, arity: usize, reg: RegType) -> (r: Self)
        ensures
            r == Self::structure_spec(ct, arity, reg),
    ;

    fn to_void(n: usize) -> (r: Self)
        ensures
            r == Self::void_spec(n),
    ;

    fn is_void_instr(&self) -> (r: bool)
        ensures
            r == self.is_void(),
    ;

    /// Adds one to the count of a void instruction; leaves any other unchanged.
    fn incr_void_instr(&mut self)
        requires
            old(self).is_void() ==> old(self).void_count() < usize::MAX,
        ensures
            old(self).is_void() ==> *final(self) == Self::void_spec(
                (old(self).void_count() + 1) as usize,
            ),
            !old(self).is_void() ==> *final(self) == *old(self),
    ;

    fn constant_subterm(c: Constant) -> (r: Self)
        ensures
            r == Self::constant_subterm_spec(c),
    ;

    fn argument_to_variable(reg: RegType, arg: usize) -> (r: Self)
        ensures
            r == Self::argument_to_variable_spec(reg, arg),
    ;

    fn argument_to_value(reg: RegType, arg: usize) -> (r: Self)
        ensures
            r == Self::argument_to_value_spec(reg, arg),
    ;

    fn move_to_register(reg: RegType, arg: usize) -> (r: Self)
        ensures
            r == Self::move_to_register_spec(reg, arg),
    ;

    fn subterm_to_variable(reg: RegType) -> (r: Self)
        ensures
            r == Self::subterm_to_variable_spec(reg),
    ;

    fn subterm_to_value(reg: RegType) -> (r: Self)
        ensures
            r == Self::subterm_to_value_spec(reg),
    ;

    fn clause_arg_to_instr(reg: RegType) -> (r: Self)
        ensures
            r == Self::clause_arg_to_instr_spec(reg),
    ;
}

impl<'a> CompilationTarget<'a> for FactInstruction {
    open spec fn order(t: Term) -> Seq<(Level, Term)> {
        fact_order(t)
    }

    open spec fn constant_spec(lvl: Level, c: Constant, reg: RegType) -> Self {
        FactInstruction::GetConstant(lvl, c, reg)
    }

    open spec fn list_spec(lvl: Level, reg: RegType) -> Self {
        FactInstruction::GetList(lvl, reg)
    }

    open spec fn structure_spec(ct: ClauseType, arity: usize, reg: RegType) -> Self {
        FactInstruction::GetStructure(ct, arity, reg)
    }

    open spec fn void_spec(n: usize) -> Self {
        FactInstruction::UnifyVoid(n)
    }

    open spec fn is_void(&self) -> bool {
        self is UnifyVoid
    }

    open spec fn void_count(&self) -> usize {
        match self {
            FactInstruction::UnifyVoid(n) => *n,
            _ => 0,
        }
    }

    open spec fn constant_subterm_spec(c: Constant) -> Self {
        FactInstruction::UnifyConstant(c)
    }

    open spec fn argument_to_variable_spec(reg: RegType, arg: usize) -> Self {
        FactInstruction::GetVariable(reg, arg)
    }

    open spec fn argument_to_value_spec(reg: RegType, arg: usize) -> Self {
        FactInstruction::GetValue(reg, arg)
    }

    open spec fn move_to_register_spec(reg: RegType, arg: usize) -> Self {
        FactInstruction::GetVariable(reg, arg)
    }

    open spec fn subterm_to_variable_spec(reg: RegType) -> Self {
        FactInstruction::UnifyVariable(reg)
    }

    open spec fn subterm_to_value_spec(reg: RegType) -> Self {
        FactInstruction::UnifyValue(reg)
    }

    open spec fn clause_arg_to_instr_spec(reg: RegType) -> Self {
        FactInstruction::UnifyVariable(reg)
    }

    proof fn lemma_void(n: usize) {
    }

    proof fn lemma_not_void(lvl: Level, c: Constant, reg: RegType, ct: ClauseType, arity: usize, arg: usize) {
    }

    fn iter(term: &'a Term) -> (r: Vec<TermRef<'a>>) {
        breadth_first_iter(term)
    }

    fn to_constant(lvl: Level, c: Constant, reg: RegType) -> (r: Self) {
        FactInstruction::GetConstant(lvl, c, reg)
    }

    fn to_list(lvl: Level, reg: RegType) -> (r: Self) {
        FactInstruction::GetList(lvl, reg)
    }

    fn to_structure(ct: ClauseType, arity: usize, reg: RegType) -> (r: Self) {
        FactInstruction::GetStructure(ct, arity, reg)
    }

    fn to_void(n: usize) -> (r: Self) {
        FactInstruction::UnifyVoid(n)
    }

    fn is_void_instr(&self) -> (r: bool) {
        match self {
            FactInstruction::UnifyVoid(_) => true,
            _ => false,
        }
    }

    fn incr_void_instr(&mut self) {
        match self {
            FactInstruction::UnifyVoid(n) => *n = *n + 1,
            _ => {},
        }
    }

    fn constant_subterm(c: Constant) -> (r: Self) {
        FactInstruction::UnifyConstant(c)
    }

    fn argument_to_variable(reg: RegType, arg: usize) -> (r: Self) {
        FactInstruction::GetVariable(reg, arg)
    }

    fn argument_to_value(reg: RegType, arg: usize) -> (r: Self) {
        FactInstruction::GetValue(reg, arg)
    }

    fn move_to_register(reg: RegType, arg: usize) -> (r: Self) {
        FactInstruction::GetVariable(reg, arg)
    }

    fn subterm_to_variable(reg: RegType) -> (r: Self) {
        FactInstruction::UnifyVariable(reg)
    }

    fn subterm_to_value(reg: RegType) -> (r: Self) {
        FactInstruction::UnifyValue(reg)
    }

    fn clause_arg_to_instr(reg: RegType) -> (r: Self) {
        FactInstruction::UnifyVariable(reg)
    }
}

impl<'a> CompilationTarget<'a> for QueryInstruction {
    open spec fn order(t: Term) -> Seq<(Level, Term)> {
        query_order(t)
    }

    open spec fn constant_spec(lvl: Level, c: Constant, reg: RegType) -> Self {
        QueryInstruction::PutConstant(lvl, c, reg)
    }

    open spec fn list_spec(lvl: Level, reg: RegType) -> Self {
        QueryInstruction::PutList(lvl, reg)
    }

    open spec fn structure_spec(ct: ClauseType, arity: usize, reg: RegType) -> Self {
        QueryInstruction::PutStructure(ct, arity, reg)
    }

    open spec fn void_spec(n: usize) -> Self {
        QueryInstruction::SetVoid(n)
    }

    open spec fn is_void(&self) -> bool {
        self is SetVoid
    }

    open spec fn void_count(&self) -> usize {
        match self {
            QueryInstruction::SetVoid(n) => *n,
            _ => 0,
        }
    }

    open spec fn constant_subterm_spec(c: Constant) -> Self {
        QueryInstruction::SetConstant(c)
    }

    open spec fn argument_to_variable_spec(reg: RegType, arg: usize) -> Self {
        QueryInstruction::PutVariable(reg, arg)
    }

    open spec fn argument_to_value_spec(reg: RegType, arg: usize) -> Self {
        QueryInstruction::PutValue(reg, arg)
    }

    /// Handing on a value already held goes through the head's "get variable".
    open spec fn move_to_register_spec(reg: RegType, arg: usize) -> Self {
        QueryInstruction::GetVariable(reg, arg)
    }

    open spec fn subterm_to_variable_spec(reg: RegType) -> Self {
        QueryInstruction::SetVariable(reg)
    }

    open spec fn subterm_to_value_spec(reg: RegType) -> Self {
        QueryInstruction::SetValue(reg)
    }

    /// A structure argument of a goal is built before its parent, so the
    /// parent refers to its value.
    open spec fn clause_arg_to_instr_spec(reg: RegType) -> Self {
        QueryInstruction::SetValue(reg)
    }

    proof fn lemma_void(n: usize) {
    }

    proof fn lemma_not_void(lvl: Level, c: Constant, reg: RegType, ct: ClauseType, arity: usize, arg: usize) {
    }

    fn iter(term: &'a Term) -> (r: Vec<TermRef<'a>>) {
        post_order_iter(term)
    }

    fn to_constant(lvl: Level, c: Constant, reg: RegType) -> (r: Self) {
        QueryInstruction::PutConstant(lvl, c, reg)
    }

    fn to_list(lvl: Level, reg: RegType) -> (r: Self) {
        QueryInstruction::PutList(lvl, reg)
    }

    fn to_structure(ct: ClauseType, arity: usize, reg: RegType) -> (r: Self) {
        QueryInstruction::PutStructure(ct, arity, reg)
    }

    fn to_void(n: usize) -> (r: Self) {
        QueryInstruction::SetVoid(n)
    }

    fn is_void_instr(&self) -> (r: bool) {
        match self {
            QueryInstruction::SetVoid(_) => true,
            _ => false,
        }
    }

    fn incr_void_instr(&mut self) {
        match self {
            QueryInstruction::SetVoid(n) => *n = *n + 1,
            _ => {},
        }
    }

    fn constant_subterm(c: Constant) -> (r: Self) {
        QueryInstruction::SetConstant(c)
    }

    fn argument_to_variable(reg: RegType, arg: usize) -> (r: Self) {
        QueryInstruction::PutVariable(reg, arg)
    }

    fn argument_to_value(reg: RegType, arg: usize) -> (r: Self) {
        QueryInstruction::PutValue(reg, arg)
    }

    fn move_to_register(reg: RegType, arg: usize) -> (r: Self) {
        QueryInstruction::GetVariable(reg, arg)
    }

    fn subterm_to_variable(reg: RegType) -> (r: Self) {
        QueryInstruction::SetVariable(reg)
    }

    fn subterm_to_value(reg: RegType) -> (r: Self) {
        QueryInstruction::SetValue(reg)
    }

    fn clause_arg_to_instr(reg: RegType) -> (r: Self) {
        QueryInstruction::SetValue(reg)
    }
}

} // verus!
