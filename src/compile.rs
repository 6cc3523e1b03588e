use vstd::prelude::*;

use crate::instructions::QueryInstruction;
use crate::targets::CompilationTarget;
use prolog_parser::ast::RegType;

use crate::term::{query_order, refs_view, ClauseType, Level, Occurrence, Term};

verus! {

/// Appends `instr` to `out`, merging a void instruction into a void
/// instruction that ends `out` by adding one to its count.
pub open spec fn push_merged<'a, T: CompilationTarget<'a>>(out: Seq<T>, instr: T) -> Seq<T> {
    if out.len() > 0 && out.last().is_void() && instr.is_void() {
        out.drop_last().push(T::void_spec((out.last().void_count() + 1) as usize))
    } else {
        out.push(instr)
    }
}

/// Appends each of `instrs` to `out` in turn, merging voids.
pub open spec fn push_all<'a, T: CompilationTarget<'a>>(out: Seq<T>, instrs: Seq<T>) -> Seq<T>
    decreases instrs.len(),
{
    if instrs.len() == 0 {
        out
    } else {
        push_merged(push_all(out, instrs.drop_last()), instrs.last())
    }
}

/// The instruction for `a` as an argument of the structure or list cell being compiled.
pub open spec fn subterm_instr<'a, T: CompilationTarget<'a>>(a: Term) -> T {
    match a {
        Term::AnonVar => T::void_spec(1),
        Term::Clause(reg, _, _) => T::clause_arg_to_instr_spec(reg),
        Term::Cons(reg, _, _) => T::clause_arg_to_instr_spec(reg),
        Term::Const(_, c) => T::constant_subterm_spec(c),
        Term::Var(reg, _, occ) => if occ == Occurrence::First {
            T::subterm_to_variable_spec(reg)
        } else {
            T::subterm_to_value_spec(reg)
        },
    }
}

/// The instruction for a top-level variable argument.
pub open spec fn argument_instr<'a, T: CompilationTarget<'a>>(
    reg: RegType,
    arg: usize,
    occ: Occurrence,
) -> T {
    match occ {
        Occurrence::First => T::argument_to_variable_spec(reg, arg),
        Occurrence::Later => T::argument_to_value_spec(reg, arg),
        Occurrence::Moved => T::move_to_register_spec(reg, arg),
    }
}

/// The instructions for one visited subterm, before merging. A structure or a
/// list cell gives its own instruction and one for each argument; a constant or
/// a variable gives one at shallow level, and none when deep, where the
/// enclosing structure has covered it.
pub open spec fn item_instrs<'a, T: CompilationTarget<'a>>(lvl: Level, t: Term) -> Seq<T> {
    match t {
        Term::Clause(reg, ct, args) => seq![T::structure_spec(ct, args.len(), reg)] + args@.map_values(
            |a: Term| subterm_instr::<T>(a),
        ),
        Term::Cons(reg, h, tl) => seq![
            T::list_spec(lvl, reg),
            subterm_instr::<T>(*h),
            subterm_instr::<T>(*tl),
        ],
        Term::Const(reg, c) => if lvl == Level::Shallow {
            seq![T::constant_spec(lvl, c, reg)]
        } else {
            seq![]
        },
        Term::Var(reg, arg, occ) => if lvl == Level::Shallow {
            seq![argument_instr::<T>(reg, arg, occ)]
        } else {
            seq![]
        },
        Term::AnonVar => seq![],
    }
}

/// The instructions for a traversal, merged in order.
pub open spec fn compile_items<'a, T: CompilationTarget<'a>>(items: Seq<(Level, Term)>) -> Seq<T>
    decreases items.len(),
{
    if items.len() == 0 {
        seq![]
    } else {
        push_all(compile_items::<T>(items.drop_last()), item_instrs::<T>(items.last().0, items.last().1))
    }
}

/// How many instructions a traversal gives before merging.
pub open spec fn emitted<'a, T: CompilationTarget<'a>>(items: Seq<(Level, Term)>) -> nat
    decreases items.len(),
{
    if items.len() == 0 {
        0
    } else {
        emitted::<T>(items.drop_last()) + item_instrs::<T>(items.last().0, items.last().1).len()
    }
}

/// Every void instruction of `out` has a count of at most `k`.
pub open spec fn voids_at_most<'a, T: CompilationTarget<'a>>(out: Seq<T>, k: nat) -> bool {
    forall|j: int| 0 <= j < out.len() && (#[trigger] out[j]).is_void() ==> out[j].void_count() <= k
}

/// Appends `instr` to `out`; where both it and the last instruction of `out`
/// are void, adds one to the count of that last instruction instead.
pub fn append_instr<'a, T: CompilationTarget<'a>>(out: &mut Vec<T>, instr: T)
    requires
        old(out)@.len() > 0 && old(out)@.last().is_void() && instr.is_void() ==> old(out)@.last().void_count() < usize::MAX,
    ensures
        final(out)@ == push_merged(old(out)@, instr),
{
    let n = out.len();
    if n > 0 && instr.is_void_instr() && out[n - 1].is_void_instr() {
        let mut last = out.pop().unwrap();
        last.incr_void_instr();
        out.push(last);
    } else {
        out.push(instr);
    }
}

proof fn lemma_push_all_step<'a, T: CompilationTarget<'a>>(out: Seq<T>, s: Seq<T>, i: int)
    requires
        0 <= i < s.len(),
    ensures
        push_all(out, s.take(i + 1)) == push_merged(push_all(out, s.take(i)), s[i]),
{
    assert(s.take(i + 1).drop_last() =~= s.take(i));
}

proof fn lemma_subterm_instr_void<'a, T: CompilationTarget<'a>>(a: Term)
    ensures
        subterm_instr::<T>(a).is_void() ==> subterm_instr::<T>(a).void_count() == 1,
{
    T::lemma_void(1);
    match a {
        Term::Clause(reg, ct, _) => T::lemma_not_void(Level::Deep, arbitrary(), reg, ct, 0, 0),
        Term::Cons(reg, _, _) => T::lemma_not_void(Level::Deep, arbitrary(), reg, arbitrary(), 0, 0),
        Term::Const(reg, c) => T::lemma_not_void(Level::Deep, c, reg, arbitrary(), 0, 0),
        Term::Var(reg, _, _) => T::lemma_not_void(Level::Deep, arbitrary(), reg, arbitrary(), 0, 0),
        Term::AnonVar => {},
    }
}

/// Appends one instruction, keeping every void count within the number of
/// instructions appended so far.
fn emit<'a, T: CompilationTarget<'a>>(out: &mut Vec<T>, instr: T, Ghost(k): Ghost<nat>)
    requires
        voids_at_most(old(out)@, k),
        k < usize::MAX,
        instr.is_void() ==> instr.void_count() <= 1,
    ensures
        final(out)@ == push_merged(old(out)@, instr),
        voids_at_most(final(out)@, k + 1),
{
    proof {
        if old(out)@.len() > 0 {
            let last = old(out)@.last();
            assert(old(out)@[old(out)@.len() - 1] == last);
            T::lemma_void((last.void_count() + 1) as usize);
        }
    }
    append_instr(out, instr);
}

fn subterm_of<'a, T: CompilationTarget<'a>>(a: &Term) -> (r: T)
    ensures
        r == subterm_instr::<T>(*a),
{
    match a {
        Term::AnonVar => T::to_void(1),
        Term::Clause(reg, _, _) => T::clause_arg_to_instr(*reg),
        Term::Cons(reg, _, _) => T::clause_arg_to_instr(*reg),
        Term::Const(_, c) => T::constant_subterm(c.clone()),
        Term::Var(reg, _, occ) => {
            if *occ == Occurrence::First {
                T::subterm_to_variable(*reg)
            } else {
                T::subterm_to_value(*reg)
            }
        },
    }
}

fn compile_item<'a, T: CompilationTarget<'a>>(
    lvl: Level,
    t: &Term,
    out: &mut Vec<T>,
    Ghost(k): Ghost<nat>,
)
    requires
        voids_at_most(old(out)@, k),
        k + item_instrs::<T>(lvl, *t).len() < usize::MAX,
    ensures
        final(out)@ == push_all(old(out)@, item_instrs::<T>(lvl, *t)),
        voids_at_most(final(out)@, k + item_instrs::<T>(lvl, *t).len()),
{
    let ghost start = out@;
    let ghost s = item_instrs::<T>(lvl, *t);
    assert(s.take(0) =~= seq![]);
    match t {
        Term::Clause(reg, ct, args) => {
            proof {
                lemma_push_all_step(start, s, 0);
                T::lemma_not_void(lvl, arbitrary(), *reg, *ct, args.len(), 0);
            }
            emit(out, T::to_structure(ct.duplicate(), args.len(), *reg), Ghost(k));
            let mut i: usize = 0;
            while i < args.len()
                invariant
                    s == item_instrs::<T>(lvl, *t),
                    *t == Term::Clause(*reg, *ct, *args),
                    s.len() == args@.len() + 1,
                    i <= args@.len(),
                    k + s.len() < usize::MAX,
                    out@ == push_all(start, s.take(i + 1)),
                    voids_at_most(out@, (k + i + 1) as nat),
                decreases args@.len() - i,
            {
                proof {
                    lemma_push_all_step(start, s, i + 1);
                    lemma_subterm_instr_void::<T>(args@[i as int]);
                }
                let instr = subterm_of::<T>(&args[i]);
                emit(out, instr, Ghost((k + i + 1) as nat));
                i = i + 1;
            }
            assert(s.take(i + 1) =~= s);
        },
        Term::Cons(reg, h, tl) => {
            proof {
                lemma_push_all_step(start, s, 0);
                lemma_push_all_step(start, s, 1);
                lemma_push_all_step(start, s, 2);
                T::lemma_not_void(lvl, arbitrary(), *reg, arbitrary(), 0, 0);
                lemma_subterm_instr_void::<T>(**h);
                lemma_subterm_instr_void::<T>(**tl);
            }
            emit(out, T::to_list(lvl, *reg), Ghost(k));
            emit(out, subterm_of::<T>(h), Ghost(k + 1));
            emit(out, subterm_of::<T>(tl), Ghost(k + 2));
            assert(s.take(3) =~= s);
        },
        Term::Const(reg, c) => {
            if lvl == Level::Shallow {
                proof {
                    lemma_push_all_step(start, s, 0);
                    T::lemma_not_void(lvl, *c, *reg, arbitrary(), 0, 0);
                }
                emit(out, T::to_constant(lvl, c.clone(), *reg), Ghost(k));
                assert(s.take(1) =~= s);
            }
        },
        Term::Var(reg, arg, occ) => {
            if lvl == Level::Shallow {
                proof {
                    lemma_push_all_step(start, s, 0);
                    T::lemma_not_void(lvl, arbitrary(), *reg, arbitrary(), 0, *arg);
                }
                let instr = match occ {
                    Occurrence::First => T::argument_to_variable(*reg, *arg),
                    Occurrence::Later => T::argument_to_value(*reg, *arg),
                    Occurrence::Moved => T::move_to_register(*reg, *arg),
                };
                emit(out, instr, Ghost(k));
                assert(s.take(1) =~= s);
            }
        },
        Term::AnonVar => {},
    }
}

proof fn lemma_emitted_prefix<'a, T: CompilationTarget<'a>>(items: Seq<(Level, Term)>, i: int)
    requires
        0 <= i <= items.len(),
    ensures
        emitted::<T>(items.take(i)) <= emitted::<T>(items),
    decreases items.len() - i,
{
    if i == items.len() {
        assert(items.take(i) =~= items);
    } else {
        lemma_emitted_prefix::<T>(items, i + 1);
        assert(items.take(i + 1).drop_last() =~= items.take(i));
    }
}

/// Compiles `term` in the direction of `T`: each subterm that the direction's
/// traversal visits gives its instructions in turn, and consecutive void
/// instructions merge into one.
pub fn compile<'a, T: CompilationTarget<'a>>(term: &'a Term) -> (r: Vec<T>)
    requires
        emitted::<T>(T::order(*term)) < usize::MAX,
    ensures
        r@ == compile_items::<T>(T::order(*term)),
{
    let refs = T::iter(term);
    let ghost items = T::order(*term);
    let mut out: Vec<T> = Vec::new();
    let mut i: usize = 0;
    assert(items.take(0) =~= seq![]);
    while i < refs.len()
        invariant
            items == T::order(*term),
            refs_view(refs@) == items,
            refs@.len() == items.len(),
            i <= items.len(),
            emitted::<T>(items) < usize::MAX,
            out@ == compile_items::<T>(items.take(i as int)),
            voids_at_most(out@, emitted::<T>(items.take(i as int))),
        decreases items.len() - i,
    {
        let r = &refs[i];
        proof {
            assert(items[i as int] == (r.level, *r.term));
            assert(items.take(i as int + 1).drop_last() =~= items.take(i as int));
            lemma_emitted_prefix::<T>(items, i as int + 1);
        }
        compile_item(r.level, r.term, &mut out, Ghost(emitted::<T>(items.take(i as int))));
        i = i + 1;
    }
    assert(items.take(i as int) =~= items);
    out
}

/// A structure of arity `n` gives one structure instruction, followed by one
/// instruction for each of its `n` arguments, left to right.
pub proof fn lemma_structure_instrs<'a, T: CompilationTarget<'a>>(
    lvl: Level,
    reg: RegType,
    ct: ClauseType,
    args: Vec<Term>,
)
    ensures
        item_instrs::<T>(lvl, Term::Clause(reg, ct, args)).len() == args@.len() + 1,
        item_instrs::<T>(lvl, Term::Clause(reg, ct, args))[0] == T::structure_spec(ct, args.len(), reg),
        forall|i: int|
            0 <= i < args@.len() ==> #[trigger] item_instrs::<T>(lvl, Term::Clause(reg, ct, args))[i
                + 1] == subterm_instr::<T>(args@[i]),
{
}

/// The run of `k` single void instructions.
pub open spec fn void_run<'a, T: CompilationTarget<'a>>(k: nat) -> Seq<T> {
    Seq::new(k, |i: int| T::void_spec(1))
}

/// A run of `k` void instructions appended after anything but a void
/// instruction becomes one void instruction with count `k`.
pub proof fn lemma_void_run<'a, T: CompilationTarget<'a>>(out: Seq<T>, k: nat)
    requires
        1 <= k < usize::MAX,
        out.len() == 0 || !out.last().is_void(),
    ensures
        push_all(out, void_run::<T>(k)) == out.push(T::void_spec(k as usize)),
    decreases k,
{
    T::lemma_void(1);
    let run = void_run::<T>(k);
    assert(run.drop_last() =~= void_run::<T>((k - 1) as nat));
    assert(run.last() == T::void_spec(1));
    if k == 1 {
        assert(void_run::<T>(0) =~= Seq::<T>::empty());
        assert(push_all(out, Seq::<T>::empty()) == out);
    } else {
        lemma_void_run::<T>(out, (k - 1) as nat);
        let prev = out.push(T::void_spec((k - 1) as usize));
        T::lemma_void((k - 1) as usize);
        assert(prev.last() == T::void_spec((k - 1) as usize));
        assert(prev.drop_last() =~= out);
        assert(prev.last().void_count() == k - 1);
        assert(push_merged(prev, T::void_spec(1)) == out.push(T::void_spec(k as usize)));
    }
}

/// Nothing merges across an instruction that is not void: after one, the next
/// instruction is appended as it is.
pub proof fn lemma_no_merge_after_non_void<'a, T: CompilationTarget<'a>>(out: Seq<T>, instr: T)
    requires
        out.len() > 0,
        !out.last().is_void(),
    ensures
        push_merged(out, instr) == out.push(instr),
{
}

/// A goal instruction either builds (a "put" or "set" instruction), or is the
/// "get variable" that hands on a top-level argument whose value a register
/// already holds, and then `items` visits that argument.
pub open spec fn constructs_or_moves(x: QueryInstruction, items: Seq<(Level, Term)>) -> bool {
    match x {
        QueryInstruction::GetVariable(reg, arg) => exists|i: int|
            0 <= i < items.len() && #[trigger] items[i] == (Level::Shallow, Term::Var(
                reg,
                arg,
                Occurrence::Moved,
            )),
        _ => true,
    }
}

proof fn lemma_item_constructs(items: Seq<(Level, Term)>, i: int)
    requires
        0 <= i < items.len(),
    ensures
        forall|j: int|
            0 <= j < item_instrs::<QueryInstruction>(items[i].0, items[i].1).len()
                ==> constructs_or_moves(
                #[trigger] item_instrs::<QueryInstruction>(items[i].0, items[i].1)[j],
                items,
            ),
{
    let (lvl, t) = items[i];
    let s = item_instrs::<QueryInstruction>(lvl, t);
    assert forall|j: int| 0 <= j < s.len() implies constructs_or_moves(#[trigger] s[j], items) by {
        match t {
            Term::Var(reg, arg, occ) => {
                if occ == Occurrence::Moved {
                    assert(items[i] == (Level::Shallow, Term::Var(reg, arg, Occurrence::Moved)));
                }
            },
            Term::Clause(_, _, args) => {
                if j > 0 {
                    assert(s[j] == subterm_instr::<QueryInstruction>(args@[j - 1]));
                }
            },
            _ => {},
        }
    }
}

proof fn lemma_push_all_constructs(
    out: Seq<QueryInstruction>,
    instrs: Seq<QueryInstruction>,
    items: Seq<(Level, Term)>,
)
    requires
        forall|j: int| 0 <= j < out.len() ==> constructs_or_moves(#[trigger] out[j], items),
        forall|j: int| 0 <= j < instrs.len() ==> constructs_or_moves(#[trigger] instrs[j], items),
    ensures
        forall|j: int|
            0 <= j < push_all(out, instrs).len() ==> constructs_or_moves(
                #[trigger] push_all(out, instrs)[j],
                items,
            ),
    decreases instrs.len(),
{
    if instrs.len() > 0 {
        let front = instrs.drop_last();
        assert forall|j: int| 0 <= j < front.len() implies constructs_or_moves(
            #[trigger] front[j],
            items,
        ) by {
            assert(front[j] == instrs[j]);
        }
        lemma_push_all_constructs(out, front, items);
        let prev = push_all(out, front);
        let last = instrs.last();
        assert(constructs_or_moves(instrs[instrs.len() - 1], items));
        let r = push_all(out, instrs);
        assert forall|j: int| 0 <= j < r.len() implies constructs_or_moves(#[trigger] r[j], items) by {
            if j < prev.len() - 1 || (j == prev.len() - 1 && !(prev.last().is_void() && last.is_void())) {
                assert(r[j] == prev[j]);
            }
        }
    }
}

proof fn lemma_compile_items_constructs(items: Seq<(Level, Term)>, n: int)
    requires
        0 <= n <= items.len(),
    ensures
        forall|j: int|
            0 <= j < compile_items::<QueryInstruction>(items.take(n)).len() ==> constructs_or_moves(
                #[trigger] compile_items::<QueryInstruction>(items.take(n))[j],
                items,
            ),
    decreases n,
{
    if n > 0 {
        lemma_compile_items_constructs(items, n - 1);
        assert(items.take(n).drop_last() =~= items.take(n - 1));
        lemma_item_constructs(items, n - 1);
        lemma_push_all_constructs(
            compile_items::<QueryInstruction>(items.take(n - 1)),
            item_instrs::<QueryInstruction>(items[n - 1].0, items[n - 1].1),
            items,
        );
    }
}

/// Goal compilation only builds: the one instruction it borrows from the
/// head's vocabulary is the "get variable" of `move_to_register`, for a
/// top-level argument that hands on a value already held. (Head instructions
/// have no "put" or "set" form at all.)
pub proof fn lemma_goal_constructs(t: Term)
    ensures
        forall|j: int|
            0 <= j < compile_items::<QueryInstruction>(query_order(t)).len() ==> constructs_or_moves(
                #[trigger] compile_items::<QueryInstruction>(query_order(t))[j],
                query_order(t),
            ),
{
    let items = query_order(t);
    lemma_compile_items_constructs(items, items.len() as int);
    assert(items.take(items.len() as int) =~= items);
}

} // verus!
