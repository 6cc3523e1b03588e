use prolog_parser::ast::{ClauseName, Constant, RegType};
use wam_targets::compile::{append_instr, compile};
use wam_targets::instructions::{FactInstruction, QueryInstruction};
use wam_targets::targets::CompilationTarget;
use wam_targets::term::{ClauseType, Level, Occurrence, Term};

fn functor(name: &'static str) -> ClauseType {
    ClauseType::Named(ClauseName::BuiltIn(name))
}

fn structure(reg: RegType, name: &'static str, args: Vec<Term>) -> Term {
    Term::Clause(reg, functor(name), args)
}

fn var(reg: RegType, arg: usize, occ: Occurrence) -> Term {
    Term::Var(reg, arg, occ)
}

fn name_of(ct: &ClauseType) -> &str {
    match ct {
        ClauseType::BuiltIn(n) | ClauseType::Named(n) => n.as_str(),
    }
}

#[test]
fn atomic_root_traversals() {
    let c = Term::Const(RegType::Temp(1), Constant::Usize(7));
    assert!(<FactInstruction as CompilationTarget>::iter(&c).is_empty());
    let q = <QueryInstruction as CompilationTarget>::iter(&c);
    assert_eq!(q.len(), 1);
    assert_eq!(q[0].level, Level::Shallow);
    assert!(std::ptr::eq(q[0].term, &c));

    let v = var(RegType::Temp(2), 1, Occurrence::First);
    assert!(<FactInstruction as CompilationTarget>::iter(&v).is_empty());
    let q = <QueryInstruction as CompilationTarget>::iter(&v);
    assert_eq!(q.len(), 1);
    assert!(std::ptr::eq(q[0].term, &v));
}

#[test]
fn head_traversal_is_level_order() {
    // p(f(a), b): f(a) and b first (shallow), then a (deep).
    let t = structure(
        RegType::Temp(0),
        "p",
        vec![
            structure(RegType::Temp(1), "f", vec![Term::Const(RegType::Temp(3), Constant::Char('a'))]),
            Term::Const(RegType::Temp(2), Constant::Char('b')),
        ],
    );
    let r = <FactInstruction as CompilationTarget>::iter(&t);
    assert_eq!(r.len(), 3);
    assert_eq!(r[0].level, Level::Shallow);
    assert_eq!(r[1].level, Level::Shallow);
    assert_eq!(r[2].level, Level::Deep);
    assert!(matches!(r[0].term, Term::Clause(..)));
    assert!(matches!(r[1].term, Term::Const(_, Constant::Char('b'))));
    assert!(matches!(r[2].term, Term::Const(_, Constant::Char('a'))));
}

#[test]
fn goal_traversal_is_post_order() {
    // f(g(Y), Y): Y inside g, then g(Y), then the outer Y, then f.
    let t = structure(
        RegType::Temp(0),
        "f",
        vec![
            structure(RegType::Temp(1), "g", vec![var(RegType::Temp(3), 0, Occurrence::First)]),
            var(RegType::Temp(3), 2, Occurrence::Later),
        ],
    );
    let r = <QueryInstruction as CompilationTarget>::iter(&t);
    assert_eq!(r.len(), 4);
    assert_eq!(r[0].level, Level::Deep);
    assert!(matches!(r[0].term, Term::Var(_, _, Occurrence::First)));
    assert_eq!(r[1].level, Level::Shallow);
    assert!(matches!(r[1].term, Term::Clause(..)));
    assert_eq!(r[2].level, Level::Shallow);
    assert!(matches!(r[2].term, Term::Var(_, _, Occurrence::Later)));
    assert_eq!(r[3].level, Level::Shallow);
    assert!(std::ptr::eq(r[3].term, &t));
}

#[test]
fn traversal_repeats_identically() {
    let t = structure(
        RegType::Temp(0),
        "p",
        vec![
            structure(RegType::Temp(1), "f", vec![Term::AnonVar, Term::AnonVar]),
            Term::Cons(
                RegType::Temp(2),
                Box::new(Term::Const(RegType::Temp(4), Constant::Usize(1))),
                Box::new(Term::Const(RegType::Temp(5), Constant::EmptyList)),
            ),
        ],
    );
    let a = <FactInstruction as CompilationTarget>::iter(&t);
    let b = <FactInstruction as CompilationTarget>::iter(&t);
    assert_eq!(a.len(), b.len());
    for (x, y) in a.iter().zip(b.iter()) {
        assert_eq!(x.level, y.level);
        assert!(std::ptr::eq(x.term, y.term));
    }
    let a = <QueryInstruction as CompilationTarget>::iter(&t);
    let b = <QueryInstruction as CompilationTarget>::iter(&t);
    assert_eq!(a.len(), b.len());
    for (x, y) in a.iter().zip(b.iter()) {
        assert_eq!(x.level, y.level);
        assert!(std::ptr::eq(x.term, y.term));
    }
}

#[test]
fn structure_gives_one_instruction_then_its_arguments() {
    // p(f(1, X, g(Z))): get_structure f/3, then one instruction per argument.
    let t = structure(
        RegType::Temp(0),
        "p",
        vec![structure(
            RegType::Temp(1),
            "f",
            vec![
                Term::Const(RegType::Temp(5), Constant::Usize(1)),
                var(RegType::Temp(2), 0, Occurrence::First),
                structure(RegType::Temp(3), "g", vec![var(RegType::Temp(4), 0, Occurrence::First)]),
            ],
        )],
    );
    let r: Vec<FactInstruction> = compile(&t);
    assert_eq!(r.len(), 6);
    match &r[0] {
        FactInstruction::GetStructure(ct, 3, RegType::Temp(1)) => assert_eq!(name_of(ct), "f"),
        other => panic!("unexpected {:?}", other),
    }
    assert!(matches!(r[1], FactInstruction::UnifyConstant(Constant::Usize(1))));
    assert!(matches!(r[2], FactInstruction::UnifyVariable(RegType::Temp(2))));
    assert!(matches!(r[3], FactInstruction::UnifyVariable(RegType::Temp(3))));
    match &r[4] {
        FactInstruction::GetStructure(ct, 1, RegType::Temp(3)) => assert_eq!(name_of(ct), "g"),
        other => panic!("unexpected {:?}", other),
    }
    assert!(matches!(r[5], FactInstruction::UnifyVariable(RegType::Temp(4))));
}

#[test]
fn head_structure_with_voids() {
    // p(f(X, _, _)) with X used elsewhere in the clause.
    let t = structure(
        RegType::Temp(0),
        "p",
        vec![structure(
            RegType::Temp(1),
            "f",
            vec![var(RegType::Temp(2), 0, Occurrence::First), Term::AnonVar, Term::AnonVar],
        )],
    );
    let r: Vec<FactInstruction> = compile(&t);
    assert_eq!(r.len(), 3);
    match &r[0] {
        FactInstruction::GetStructure(ct, 3, RegType::Temp(1)) => assert_eq!(name_of(ct), "f"),
        other => panic!("unexpected {:?}", other),
    }
    assert!(matches!(r[1], FactInstruction::UnifyVariable(RegType::Temp(2))));
    assert!(matches!(r[2], FactInstruction::UnifyVoid(2)));
}

#[test]
fn void_run_becomes_one_instruction() {
    let t = structure(
        RegType::Temp(0),
        "p",
        vec![structure(RegType::Temp(1), "f", vec![Term::AnonVar, Term::AnonVar, Term::AnonVar, Term::AnonVar])],
    );
    let r: Vec<FactInstruction> = compile(&t);
    assert_eq!(r.len(), 2);
    assert!(matches!(r[1], FactInstruction::UnifyVoid(4)));
    let q: Vec<QueryInstruction> = compile(&t);
    // put_structure f/4, set_void 4, put_structure p/1, set_value.
    assert_eq!(q.len(), 4);
    assert!(matches!(q[1], QueryInstruction::SetVoid(4)));
    assert!(matches!(q[2], QueryInstruction::PutStructure(_, 1, RegType::Temp(0))));
    assert!(matches!(q[3], QueryInstruction::SetValue(RegType::Temp(1))));
}

#[test]
fn void_runs_do_not_merge_across_other_instructions() {
    let t = structure(
        RegType::Temp(0),
        "p",
        vec![structure(
            RegType::Temp(1),
            "f",
            vec![Term::AnonVar, Term::Const(RegType::Temp(2), Constant::Char('a')), Term::AnonVar, Term::AnonVar],
        )],
    );
    let r: Vec<FactInstruction> = compile(&t);
    assert_eq!(r.len(), 4);
    assert!(matches!(r[1], FactInstruction::UnifyVoid(1)));
    assert!(matches!(r[2], FactInstruction::UnifyConstant(Constant::Char('a'))));
    assert!(matches!(r[3], FactInstruction::UnifyVoid(2)));
}

#[test]
fn voids_of_neighbouring_structures_merge() {
    // p(f(_), g(_)) in the head: the void ending f and the one in g's
    // arguments are separated by get_structure g/1.
    let t = structure(
        RegType::Temp(0),
        "p",
        vec![
            structure(RegType::Temp(1), "f", vec![Term::AnonVar]),
            structure(RegType::Temp(2), "g", vec![Term::AnonVar]),
        ],
    );
    let r: Vec<FactInstruction> = compile(&t);
    assert_eq!(r.len(), 4);
    assert!(matches!(r[1], FactInstruction::UnifyVoid(1)));
    assert!(matches!(r[2], FactInstruction::GetStructure(_, 1, RegType::Temp(2))));
    assert!(matches!(r[3], FactInstruction::UnifyVoid(1)));
}

#[test]
fn goal_structure_built_inside_out() {
    // f(g(Y), Y) as a goal.
    let t = structure(
        RegType::Temp(0),
        "f",
        vec![
            structure(RegType::Temp(1), "g", vec![var(RegType::Temp(3), 0, Occurrence::First)]),
            var(RegType::Temp(3), 2, Occurrence::Later),
        ],
    );
    let r: Vec<QueryInstruction> = compile(&t);
    assert_eq!(r.len(), 6);
    match &r[0] {
        QueryInstruction::PutStructure(ct, 1, RegType::Temp(1)) => assert_eq!(name_of(ct), "g"),
        other => panic!("unexpected {:?}", other),
    }
    assert!(matches!(r[1], QueryInstruction::SetVariable(RegType::Temp(3))));
    assert!(matches!(r[2], QueryInstruction::PutValue(RegType::Temp(3), 2)));
    match &r[3] {
        QueryInstruction::PutStructure(ct, 2, RegType::Temp(0)) => assert_eq!(name_of(ct), "f"),
        other => panic!("unexpected {:?}", other),
    }
    assert!(matches!(r[4], QueryInstruction::SetValue(RegType::Temp(1))));
    assert!(matches!(r[5], QueryInstruction::SetValue(RegType::Temp(3))));
}

#[test]
fn forwarded_goal_argument_is_moved() {
    // p(X) as a goal, where X is a head variable handed on unchanged.
    let t = structure(RegType::Temp(0), "p", vec![var(RegType::Perm(1), 1, Occurrence::Moved)]);
    let r: Vec<QueryInstruction> = compile(&t);
    assert_eq!(r.len(), 3);
    assert!(matches!(r[0], QueryInstruction::GetVariable(RegType::Perm(1), 1)));
    assert!(matches!(r[1], QueryInstruction::PutStructure(_, 1, RegType::Temp(0))));
    assert!(matches!(r[2], QueryInstruction::SetValue(RegType::Perm(1))));
}

#[test]
fn goal_without_moves_only_constructs() {
    let t = structure(
        RegType::Temp(0),
        "p",
        vec![
            var(RegType::Temp(1), 1, Occurrence::First),
            Term::Const(RegType::Temp(2), Constant::Usize(5)),
            Term::Cons(
                RegType::Temp(3),
                Box::new(Term::AnonVar),
                Box::new(var(RegType::Temp(1), 0, Occurrence::Later)),
            ),
        ],
    );
    let r: Vec<QueryInstruction> = compile(&t);
    assert!(!r.iter().any(|i| matches!(i, QueryInstruction::GetVariable(..))));
    assert!(matches!(r[0], QueryInstruction::PutVariable(RegType::Temp(1), 1)));
    assert!(matches!(r[1], QueryInstruction::PutConstant(Level::Shallow, Constant::Usize(5), RegType::Temp(2))));
    assert!(matches!(r[2], QueryInstruction::PutList(Level::Shallow, RegType::Temp(3))));
    assert!(matches!(r[3], QueryInstruction::SetVoid(1)));
    assert!(matches!(r[4], QueryInstruction::SetValue(RegType::Temp(1))));
}

#[test]
fn head_top_level_arguments() {
    // p(X, Y, Z, 3, [_|_]) with X first, Y later, Z moved.
    let t = structure(
        RegType::Temp(0),
        "p",
        vec![
            var(RegType::Temp(6), 1, Occurrence::First),
            var(RegType::Temp(6), 2, Occurrence::Later),
            var(RegType::Perm(1), 3, Occurrence::Moved),
            Term::Const(RegType::Temp(4), Constant::Usize(3)),
            Term::Cons(RegType::Temp(5), Box::new(Term::AnonVar), Box::new(Term::AnonVar)),
        ],
    );
    let r: Vec<FactInstruction> = compile(&t);
    assert_eq!(r.len(), 6);
    assert!(matches!(r[0], FactInstruction::GetVariable(RegType::Temp(6), 1)));
    assert!(matches!(r[1], FactInstruction::GetValue(RegType::Temp(6), 2)));
    assert!(matches!(r[2], FactInstruction::GetVariable(RegType::Perm(1), 3)));
    assert!(matches!(r[3], FactInstruction::GetConstant(Level::Shallow, Constant::Usize(3), RegType::Temp(4))));
    assert!(matches!(r[4], FactInstruction::GetList(Level::Shallow, RegType::Temp(5))));
    assert!(matches!(r[5], FactInstruction::UnifyVoid(2)));
}

#[test]
fn atomic_goal_compiles_to_its_root() {
    let t = Term::Const(RegType::Temp(1), Constant::Char('z'));
    let q: Vec<QueryInstruction> = compile(&t);
    assert_eq!(q.len(), 1);
    assert!(matches!(q[0], QueryInstruction::PutConstant(Level::Shallow, Constant::Char('z'), RegType::Temp(1))));
    let f: Vec<FactInstruction> = compile(&t);
    assert!(f.is_empty());
}

#[test]
fn append_merges_voids_only() {
    let mut out: Vec<FactInstruction> = Vec::new();
    append_instr(&mut out, FactInstruction::UnifyVoid(1));
    append_instr(&mut out, FactInstruction::UnifyVoid(1));
    assert_eq!(out.len(), 1);
    assert!(matches!(out[0], FactInstruction::UnifyVoid(2)));
    append_instr(&mut out, FactInstruction::UnifyValue(RegType::Temp(1)));
    append_instr(&mut out, FactInstruction::UnifyVoid(1));
    assert_eq!(out.len(), 3);
    assert!(matches!(out[2], FactInstruction::UnifyVoid(1)));

    let mut q: Vec<QueryInstruction> = Vec::new();
    append_instr(&mut q, QueryInstruction::SetValue(RegType::Temp(2)));
    append_instr(&mut q, QueryInstruction::SetVoid(1));
    append_instr(&mut q, QueryInstruction::SetVoid(1));
    append_instr(&mut q, QueryInstruction::SetVoid(1));
    assert_eq!(q.len(), 2);
    assert!(matches!(q[1], QueryInstruction::SetVoid(3)));
}

#[test]
fn incr_void_instr_changes_only_voids() {
    let mut v = <FactInstruction as CompilationTarget>::to_void(4);
    v.incr_void_instr();
    assert!(matches!(v, FactInstruction::UnifyVoid(5)));
    let mut g = FactInstruction::GetVariable(RegType::Temp(1), 1);
    g.incr_void_instr();
    assert!(matches!(g, FactInstruction::GetVariable(RegType::Temp(1), 1)));
    let mut s = <QueryInstruction as CompilationTarget>::to_void(1);
    assert!(s.is_void_instr());
    s.incr_void_instr();
    assert!(matches!(s, QueryInstruction::SetVoid(2)));
    assert!(!QueryInstruction::SetValue(RegType::Temp(1)).is_void_instr());
}

#[test]
fn families_differ_where_documented() {
    assert!(matches!(
        <FactInstruction as CompilationTarget>::move_to_register(RegType::Temp(2), 1),
        FactInstruction::GetVariable(RegType::Temp(2), 1)
    ));
    assert!(matches!(
        <QueryInstruction as CompilationTarget>::move_to_register(RegType::Temp(2), 1),
        QueryInstruction::GetVariable(RegType::Temp(2), 1)
    ));
    assert!(matches!(
        <QueryInstruction as CompilationTarget>::argument_to_variable(RegType::Temp(2), 1),
        QueryInstruction::PutVariable(RegType::Temp(2), 1)
    ));
    assert!(matches!(
        <FactInstruction as CompilationTarget>::clause_arg_to_instr(RegType::Temp(3)),
        FactInstruction::UnifyVariable(RegType::Temp(3))
    ));
    assert!(matches!(
        <QueryInstruction as CompilationTarget>::clause_arg_to_instr(RegType::Temp(3)),
        QueryInstruction::SetValue(RegType::Temp(3))
    ));
    assert!(matches!(
        <QueryInstruction as CompilationTarget>::constant_subterm(Constant::Usize(9)),
        QueryInstruction::SetConstant(Constant::Usize(9))
    ));
    assert!(matches!(
        <FactInstruction as CompilationTarget>::to_list(Level::Deep, RegType::Temp(4)),
        FactInstruction::GetList(Level::Deep, RegType::Temp(4))
    ));
}

#[test]
fn clause_type_duplicate_keeps_name() {
    let ct = ClauseType::BuiltIn(ClauseName::BuiltIn("call"));
    let d = ct.duplicate();
    assert!(matches!(d, ClauseType::BuiltIn(_)));
    assert_eq!(name_of(&d), "call");
}
