use vstd::prelude::*;

use prolog_parser::ast::{ClauseName, Constant, RegType};

verus! {

/// `prolog_parser::ast::RegType`, the register the allocator chose: carried
/// into instructions as it is, never read.
#[verifier::external_type_specification]
#[verifier::external_body]
pub struct ExRegType(RegType);

/// `prolog_parser::ast::Constant`: carried into instructions as it is, never read.
#[verifier::external_type_specification]
#[verifier::external_body]
pub struct ExConstant(Constant);

/// `prolog_parser::ast::ClauseName`, the name of a functor: carried as it is, never read.
#[verifier::external_type_specification]
#[verifier::external_body]
pub struct ExClauseName(ClauseName);

/// Relies on the derived `Clone` of `prolog_parser::ast::Constant`: the copy holds the same value.
pub assume_specification[ <Constant as Clone>::clone ](c: &Constant) -> (r: Constant)
    ensures
        r == *c,
;

/// Relies on the derived `Clone` of `prolog_parser::ast::ClauseName`: the copy names the same atom.
pub assume_specification[ <ClauseName as Clone>::clone ](n: &ClauseName) -> (r: ClauseName)
    ensures
        r == *n,
;

/// Whether an instruction works on a top-level argument or inside a structure.
#[derive(Clone, Copy, Debug, PartialEq, Eq, Structural)]
pub enum Level {
    Shallow,
    Deep,
}

/// The functor of a structure, with its call classification.
#[derive(Debug)]
pub enum ClauseType {
    BuiltIn(ClauseName),
    Named(ClauseName),
}

impl ClauseType {
    /// A copy of this functor.
    pub fn duplicate(&self) -> (r: ClauseType)
        ensures
            r == *self,
    {
        match self {
            ClauseType::BuiltIn(n) => ClauseType::BuiltIn(n.clone()),
            ClauseType::Named(n) => ClauseType::Named(n.clone()),
        }
    }
}

/// What the register allocator decided for one occurrence of a named variable.
#[derive(Clone, Copy, Debug, PartialEq, Eq, Structural)]
pub enum Occurrence {
    /// The first occurrence: it introduces a fresh binding.
    First,
    /// A later occurrence: its value is already known.
    Later,
    /// A top-level argument that hands on a value already held in a register.
    Moved,
}

/// A clause term whose registers have been allocated.
#[derive(Debug)]
pub enum Term {
    /// An anonymous variable with no other occurrence.
    AnonVar,
    /// A structure: its register, its functor and its arguments.
    Clause(RegType, ClauseType, Vec<Term>),
    /// A list cell: its register, head and tail.
    Cons(RegType, Box<Term>, Box<Term>),
    /// A constant and its register.
    Const(RegType, Constant),
    /// A named variable: its register, the argument position it stands at when
    /// it is a top-level argument, and its occurrence.
    Var(RegType, usize, Occurrence),
}

/// A visited subterm, with the level at which it is visited.
#[derive(Debug)]
pub struct TermRef<'a> {
    pub level: Level,
    pub term: &'a Term,
}

/// A visited subterm as a value: its level and the subterm.
pub open spec fn ref_view(r: TermRef) -> (Level, Term) {
    (r.level, *r.term)
}

pub open spec fn refs_view(s: Seq<TermRef>) -> Seq<(Level, Term)> {
    s.map_values(|r: TermRef| ref_view(r))
}

/// A term with no subterms.
pub open spec fn is_atomic(t: Term) -> bool {
    match t {
        Term::Clause(..) | Term::Cons(..) => false,
        _ => true,
    }
}

/// The immediate subterms of a term, left to right.
pub open spec fn subterms(t: Term) -> Seq<Term> {
    match t {
        Term::Clause(_, _, args) => args@,
        Term::Cons(_, h, tl) => seq![*h, *tl],
        _ => seq![],
    }
}

/// Post-order over `t`, visited at level `lvl`; its subterms are visited deep.
pub open spec fn post_order(t: Term, lvl: Level) -> Seq<(Level, Term)>
    decreases t,
{
    match t {
        Term::Clause(_, _, args) => post_order_list(args@, Level::Deep).push((lvl, t)),
        Term::Cons(_, h, tl) => (post_order(*h, Level::Deep) + post_order(*tl, Level::Deep)).push(
            (lvl, t),
        ),
        _ => seq![(lvl, t)],
    }
}

/// Post-order over each term of `s` in turn, each visited at level `lvl`.
pub open spec fn post_order_list(s: Seq<Term>, lvl: Level) -> Seq<(Level, Term)>
    decreases s,
{
    if s.len() == 0 {
        seq![]
    } else {
        post_order_list(s.drop_last(), lvl) + post_order(s.last(), lvl)
    }
}

/// The goal traversal: the arguments of the root post-order at shallow level,
/// everything below them deep, and the root last.
pub open spec fn query_order(t: Term) -> Seq<(Level, Term)> {
    match t {
        Term::Clause(_, _, args) => post_order_list(args@, Level::Shallow).push((Level::Shallow, t)),
        Term::Cons(_, h, tl) => (post_order(*h, Level::Shallow) + post_order(
            *tl,
            Level::Shallow,
        )).push((Level::Shallow, t)),
        _ => seq![(Level::Shallow, t)],
    }
}

fn post_order_into<'a>(t: &'a Term, lvl: Level, out: &mut Vec<TermRef<'a>>)
    ensures
        refs_view(final(out)@) == refs_view(old(out)@) + post_order(*t, lvl),
    decreases t,
{
    match t {
        Term::Clause(_, _, args) => {
            post_order_list_into(args, Level::Deep, out);
        },
        Term::Cons(_, h, tl) => {
            post_order_into(h, Level::Deep, out);
            post_order_into(tl, Level::Deep, out);
        },
        _ => {},
    }
    let ghost before = refs_view(out@);
    out.push(TermRef { level: lvl, term: t });
    assert(refs_view(out@) =~= before.push((lvl, *t)));
}

fn post_order_list_into<'a>(args: &'a Vec<Term>, lvl: Level, out: &mut Vec<TermRef<'a>>)
    ensures
        refs_view(final(out)@) == refs_view(old(out)@) + post_order_list(args@, lvl),
    decreases args,
{
    let ghost start = refs_view(out@);
    let mut i: usize = 0;
    while i < args.len()
        invariant
            i <= args@.len(),
            refs_view(out@) == start + post_order_list(args@.subrange(0, i as int), lvl),
        decreases args@.len() - i,
    {
        assert(args@.subrange(0, i as int + 1).drop_last() =~= args@.subrange(0, i as int));
        post_order_into(&args[i], lvl, out);
        i = i + 1;
    }
    assert(args@.subrange(0, i as int) =~= args@);
}

/// Builds the goal traversal of `t`: see `query_order`.
pub fn post_order_iter<'a>(t: &'a Term) -> (r: Vec<TermRef<'a>>)
    ensures
        refs_view(r@) == query_order(*t),
{
    let mut out: Vec<TermRef<'a>> = Vec::new();
    assert(refs_view(out@) =~= seq![]);
    match t {
        Term::Clause(_, _, args) => {
            post_order_list_into(args, Level::Shallow, &mut out);
        },
        Term::Cons(_, h, tl) => {
            post_order_into(h, Level::Shallow, &mut out);
            post_order_into(tl, Level::Shallow, &mut out);
        },
        _ => {},
    }
    let ghost before = refs_view(out@);
    out.push(TermRef { level: Level::Shallow, term: t });
    assert(refs_view(out@) =~= before.push((Level::Shallow, *t)));
    out
}

/// The number of nodes of a term.
pub open spec fn size(t: Term) -> nat
    decreases t,
{
    match t {
        Term::Clause(_, _, args) => 1 + size_list(args@),
        Term::Cons(_, h, tl) => 1 + size(*h) + size(*tl),
        _ => 1,
    }
}

/// The number of nodes of the terms of `s` together.
pub open spec fn size_list(s: Seq<Term>) -> nat
    decreases s,
{
    if s.len() == 0 {
        0
    } else {
        size_list(s.drop_last()) + size(s.last())
    }
}

proof fn lemma_size_concat(a: Seq<Term>, b: Seq<Term>)
    ensures
        size_list(a + b) == size_list(a) + size_list(b),
    decreases b.len(),
{
    if b.len() == 0 {
        assert(a + b =~= a);
    } else {
        lemma_size_concat(a, b.drop_last());
        assert((a + b).drop_last() =~= a + b.drop_last());
    }
}

proof fn lemma_size_subterms(t: Term)
    ensures
        size_list(subterms(t)) + 1 == size(t),
{
    match t {
        Term::Cons(_, h, tl) => {
            assert(seq![*h, *tl].drop_last() =~= seq![*h]);
            assert(seq![*h].drop_last() =~= Seq::<Term>::empty());
            assert(seq![*h].last() == *h);
            assert(seq![*h, *tl].last() == *tl);
            assert(size_list(Seq::<Term>::empty()) == 0);
            assert(size_list(seq![*h]) == size(*h));
            assert(size_list(seq![*h, *tl]) == size(*h) + size(*tl));
        },
        _ => {},
    }
}

proof fn lemma_level_order_step(q: Seq<Term>)
    requires
        q.len() > 0,
    ensures
        size_list(q.drop_first() + subterms(q[0])) < size_list(q),
{
    assert(q =~= seq![q[0]] + q.drop_first());
    lemma_size_concat(seq![q[0]], q.drop_first());
    assert(seq![q[0]].drop_last() =~= Seq::<Term>::empty());
    lemma_size_concat(q.drop_first(), subterms(q[0]));
    lemma_size_subterms(q[0]);
}

#[via_fn]
proof fn level_order_decreases(q: Seq<Term>) {
    if q.len() > 0 {
        lemma_level_order_step(q);
    }
}

/// Level order over a queue of terms: the first term, then level order over
/// the rest of the queue with its subterms appended.
pub open spec fn level_order(q: Seq<Term>) -> Seq<Term>
    decreases size_list(q),
    via level_order_decreases
{
    if q.len() == 0 {
        seq![]
    } else {
        seq![q[0]] + level_order(q.drop_first() + subterms(q[0]))
    }
}

/// The head traversal: level order below the root, which is not visited.
/// The root's own arguments come first and are visited shallow; all later
/// subterms are visited deep.
pub open spec fn fact_order(t: Term) -> Seq<(Level, Term)> {
    let s = level_order(subterms(t));
    let n = subterms(t).len();
    Seq::new(s.len(), |i: int| (if i < n { Level::Shallow } else { Level::Deep }, s[i]))
}

/// The terms that a sequence of references points to.
pub open spec fn deref_seq(s: Seq<&Term>) -> Seq<Term> {
    s.map_values(|r: &Term| *r)
}

fn push_subterms<'a>(t: &'a Term, queue: &mut Vec<&'a Term>)
    ensures
        deref_seq(final(queue)@) == deref_seq(old(queue)@) + subterms(*t),
        final(queue)@.len() == old(queue)@.len() + subterms(*t).len(),
{
    let ghost start = deref_seq(queue@);
    match t {
        Term::Clause(_, _, args) => {
            let mut i: usize = 0;
            while i < args.len()
                invariant
                    i <= args@.len(),
                    deref_seq(queue@) == start + args@.subrange(0, i as int),
                decreases args@.len() - i,
            {
                let ghost before = deref_seq(queue@);
                queue.push(&args[i]);
                assert(deref_seq(queue@) =~= before.push(args@[i as int]));
                assert(deref_seq(queue@) =~= start + args@.subrange(0, i as int + 1));
                i = i + 1;
            }
            assert(args@.subrange(0, i as int) =~= args@);
        },
        Term::Cons(_, h, tl) => {
            queue.push(h);
            queue.push(tl);
            assert(deref_seq(queue@) =~= start + seq![**h, **tl]);
        },
        _ => {
            assert(deref_seq(queue@) =~= start + seq![]);
        },
    }
}

/// Builds the head traversal of `t`: see `fact_order`.
pub fn breadth_first_iter<'a>(t: &'a Term) -> (r: Vec<TermRef<'a>>)
    ensures
        refs_view(r@) == fact_order(*t),
{
    let mut queue: Vec<&'a Term> = Vec::new();
    assert(deref_seq(queue@) =~= seq![]);
    push_subterms(t, &mut queue);
    assert(deref_seq(queue@) =~= subterms(*t));
    let n = queue.len();
    let ghost all = level_order(subterms(*t));
    let mut out: Vec<TermRef<'a>> = Vec::new();
    let mut head: usize = 0;
    assert(deref_seq(queue@).subrange(0, queue@.len() as int) =~= deref_seq(queue@));
    assert(out@.map_values(|r: TermRef| *r.term) + all =~= all);
    while head < queue.len()
        invariant
            n == subterms(*t).len(),
            head <= queue@.len(),
            out@.len() == head,
            n <= queue@.len(),
            forall|i: int| 0 <= i < out@.len() ==> (#[trigger] out@[i]).level == (if i < n { Level::Shallow } else { Level::Deep }),
            out@.map_values(|r: TermRef| *r.term) + level_order(deref_seq(queue@).subrange(head as int, queue@.len() as int)) == all,
        decreases size_list(deref_seq(queue@).subrange(head as int, queue@.len() as int)),
    {
        let ghost q = deref_seq(queue@).subrange(head as int, queue@.len() as int);
        let ghost outs = out@.map_values(|r: TermRef| *r.term);
        proof {
            lemma_level_order_step(q);
        }
        let cur = queue[head];
        assert(*cur == q[0]);
        let ghost old_queue = deref_seq(queue@);
        let level = if head < n { Level::Shallow } else { Level::Deep };
        out.push(TermRef { level, term: cur });
        head = head + 1;
        push_subterms(cur, &mut queue);
        proof {
            let q2 = deref_seq(queue@).subrange(head as int, queue@.len() as int);
            assert(deref_seq(queue@) == old_queue + subterms(q[0]));
            assert(q2 =~= q.drop_first() + subterms(q[0]));
            assert(out@.map_values(|r: TermRef| *r.term) =~= outs.push(q[0]));
            assert(outs + level_order(q) =~= outs.push(q[0]) + level_order(q2));
        }
    }
    proof {
        assert(deref_seq(queue@).subrange(head as int, queue@.len() as int) =~= seq![]);
        assert(out@.map_values(|r: TermRef| *r.term) + seq![] =~= out@.map_values(|r: TermRef| *r.term));
        assert(refs_view(out@) =~= fact_order(*t));
    }
    out
}

/// A term with no subterms gives nothing to the head traversal, and only
/// itself to the goal traversal.
pub proof fn lemma_atomic_traversals(t: Term)
    requires
        is_atomic(t),
    ensures
        fact_order(t) == Seq::<(Level, Term)>::empty(),
        query_order(t) == seq![(Level::Shallow, t)],
{
    assert(subterms(t) =~= Seq::<Term>::empty());
    assert(level_order(Seq::<Term>::empty()) == Seq::<Term>::empty());
    assert(fact_order(t) =~= Seq::<(Level, Term)>::empty());
}

/// Each traversal is a function of the term alone: two runs over the same term
/// visit the same subterms at the same levels in the same order.
pub proof fn lemma_traversals_deterministic(t1: Term, t2: Term)
    requires
        t1 == t2,
    ensures
        fact_order(t1) == fact_order(t2),
        query_order(t1) == query_order(t2),
{
}

} // verus!
