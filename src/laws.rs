use vstd::prelude::*;

use crate::parser::{
    alnum_end, eval, expr_at, is_alnum, is_letter, rest_at, term_at, unit_of_text, ExprTree, Op,
};
use crate::registry::{base_unit, prefix_power, prefixed_unit, registry};

verus! {

/// A unit symbol as the grammar reads it: a letter followed by letters and
/// digits.
pub open spec fn is_atom(a: Seq<char>) -> bool {
    &&& a.len() > 0
    &&& is_letter(a[0])
    &&& forall|i: int| 0 <= i < a.len() ==> is_alnum(#[trigger] a[i])
}

proof fn lemma_base_unit_bounds(s: Seq<char>)
    ensures
        base_unit(s) matches Some((u, pw)) ==> u.bounded_by(7) && 1 <= pw <= 3,
{
}

proof fn lemma_prefix_bounds(p: Seq<char>)
    ensures
        prefix_power(p) matches Some(k) ==> -9 <= k <= 9,
{
}

proof fn lemma_prefixed_bounds(s: Seq<char>, n: int)
    ensures
        prefixed_unit(s, n) matches Some(u) ==> u.bounded_by(40),
{
    if 0 <= n <= s.len() {
        lemma_prefix_bounds(s.subrange(0, n));
        lemma_base_unit_bounds(s.subrange(n, s.len() as int));
        match (prefix_power(s.subrange(0, n)), base_unit(s.subrange(n, s.len() as int))) {
            (Some(k), Some((u, pw))) => {
                assert(-27 <= k * pw <= 27) by (nonlinear_arith)
                    requires
                        -9 <= k <= 9,
                        1 <= pw <= 3,
                ;
            },
            _ => {},
        }
    }
}

/// Every unit of the registry has exponents within `-40 ..= 40`.
pub proof fn lemma_registry_bounded(s: Seq<char>)
    ensures
        registry(s) matches Some(u) ==> u.bounded_by(40),
{
    reveal(registry);
    lemma_base_unit_bounds(s);
    lemma_prefixed_bounds(s, 1);
    lemma_prefixed_bounds(s, 2);
}

proof fn lemma_alnum_run(s: Seq<char>, k: int, e: int)
    requires
        0 <= k <= e <= s.len(),
        forall|m: int| k <= m < e ==> is_alnum(#[trigger] s[m]),
        e == s.len() || !is_alnum(s[e]),
    ensures
        alnum_end(s, k) == e,
    decreases e - k,
{
    if k < e {
        lemma_alnum_run(s, k + 1, e);
    }
}

/// An atom `a` written at `i` in `s`, and not followed by an alphanumeric
/// character, is read as one term.
proof fn lemma_atom_term(s: Seq<char>, i: int, a: Seq<char>)
    requires
        is_atom(a),
        0 <= i,
        i + a.len() <= s.len(),
        s.subrange(i, i + a.len()) == a,
        i + a.len() == s.len() || !is_alnum(s[i + a.len()]),
    ensures
        term_at(s, i) == Some((ExprTree::Atom(a), i + a.len())),
{
    assert forall|m: int| i + 1 <= m < i + a.len() implies is_alnum(#[trigger] s[m]) by {
        assert(s[m] == s.subrange(i, i + a.len())[m - i]);
    }
    assert(s[i] == s.subrange(i, i + a.len())[0]);
    lemma_alnum_run(s, i + 1, i + a.len());
}

/// The three-atom expression `a o1 b o2 c`, characters and all.
pub open spec fn chain(a: Seq<char>, o1: char, b: Seq<char>, o2: char, c: Seq<char>) -> Seq<char> {
    a + seq![o1] + b + seq![o2] + c
}

/// The expression `a o1 (b o2 c)`.
pub open spec fn grouped(a: Seq<char>, o1: char, b: Seq<char>, o2: char, c: Seq<char>) -> Seq<char> {
    a + seq![o1, '('] + b + seq![o2] + c + seq![')']
}

/// `*` or `/`.
pub open spec fn is_mul_or_div(o: char) -> bool {
    o == '*' || o == '/'
}

/// The tree of the atom `a`.
pub open spec fn atom_tree(a: Seq<char>) -> ExprTree {
    ExprTree::Atom(a)
}

/// The tree of `l o r`, for `o` one of `*` and `/`.
pub open spec fn node(l: ExprTree, o: char, r: ExprTree) -> ExprTree {
    ExprTree::BinOp {
        lhs: Box::new(l),
        op: if o == '*' { Op::Multiply } else { Op::Divide },
        rhs: Box::new(r),
    }
}

/// With `*` and `/` right-associative, `a o1 b o2 c` reads as
/// `a o1 (b o2 c)` without the group.
proof fn lemma_parse_chain(a: Seq<char>, o1: char, b: Seq<char>, o2: char, c: Seq<char>)
    requires
        is_atom(a),
        is_atom(b),
        is_atom(c),
        is_mul_or_div(o1),
        is_mul_or_div(o2),
    ensures
        expr_at(chain(a, o1, b, o2, c), 0) == Some(
            (
                node(atom_tree(a), o1, node(atom_tree(b), o2, atom_tree(c))),
                chain(a, o1, b, o2, c).len() as int,
            ),
        ),
{
    let s = chain(a, o1, b, o2, c);
    let p1 = a.len() as int;
    let p2 = p1 + 1 + b.len();
    let p3 = p2 + 1;
    assert(s.subrange(0, p1) =~= a);
    assert(s[p1] == o1);
    assert(s.subrange(p1 + 1, p2) =~= b);
    assert(s[p2] == o2);
    assert(s.subrange(p3, s.len() as int) =~= c);
    lemma_atom_term(s, p3, c);
    assert(rest_at(s, atom_tree(c), s.len() as int) == Some((atom_tree(c), s.len() as int)));
    assert(expr_at(s, p3) == Some((atom_tree(c), s.len() as int)));
    lemma_atom_term(s, p1 + 1, b);
    assert(rest_at(s, atom_tree(b), p2) == Some((node(atom_tree(b), o2, atom_tree(c)), s.len() as int)));
    assert(expr_at(s, p1 + 1) == Some((node(atom_tree(b), o2, atom_tree(c)), s.len() as int)));
    lemma_atom_term(s, 0, a);
    assert(rest_at(s, atom_tree(a), p1) == Some(
        (node(atom_tree(a), o1, node(atom_tree(b), o2, atom_tree(c))), s.len() as int),
    ));
}

/// A group reads as one term: `a o1 (b o2 c)` is `a o1 Paren(b o2 c)`.
proof fn lemma_parse_grouped(a: Seq<char>, o1: char, b: Seq<char>, o2: char, c: Seq<char>)
    requires
        is_atom(a),
        is_atom(b),
        is_atom(c),
        is_mul_or_div(o1),
        is_mul_or_div(o2),
    ensures
        expr_at(grouped(a, o1, b, o2, c), 0) == Some(
            (
                node(atom_tree(a), o1, ExprTree::Paren(Box::new(node(atom_tree(b), o2, atom_tree(c))))),
                grouped(a, o1, b, o2, c).len() as int,
            ),
        ),
{
    let s = grouped(a, o1, b, o2, c);
    let p1 = a.len() as int;
    let p2 = p1 + 2 + b.len();
    let p4 = p2 + 1 + c.len();
    let inner = node(atom_tree(b), o2, atom_tree(c));
    let group = ExprTree::Paren(Box::new(inner));
    assert(s.len() == p4 + 1);
    assert(s.subrange(0, p1) =~= a);
    assert(s[p1] == o1);
    assert(s[p1 + 1] == '(');
    assert(s.subrange(p1 + 2, p2) =~= b);
    assert(s[p2] == o2);
    assert(s.subrange(p2 + 1, p4) =~= c);
    assert(s[p4] == ')');
    lemma_atom_term(s, p2 + 1, c);
    assert(rest_at(s, atom_tree(c), p4) == Some((atom_tree(c), p4)));
    assert(expr_at(s, p2 + 1) == Some((atom_tree(c), p4)));
    lemma_atom_term(s, p1 + 2, b);
    assert(rest_at(s, atom_tree(b), p2) == Some((inner, p4)));
    assert(expr_at(s, p1 + 2) == Some((inner, p4)));
    assert(term_at(s, p1 + 1) == Some((group, p4 + 1)));
    assert(rest_at(s, group, p4 + 1) == Some((group, p4 + 1)));
    assert(expr_at(s, p1 + 1) == Some((group, p4 + 1)));
    lemma_atom_term(s, 0, a);
    assert(rest_at(s, atom_tree(a), p1) == Some((node(atom_tree(a), o1, group), p4 + 1)));
}

/// Chained division: for atoms `a`, `b`, `c` that the registry knows,
/// `a/b/c` denotes the same unit as `a/(b*c)`.
pub proof fn lemma_chained_division(a: Seq<char>, b: Seq<char>, c: Seq<char>)
    requires
        is_atom(a),
        is_atom(b),
        is_atom(c),
        registry(a) is Some,
        registry(b) is Some,
        registry(c) is Some,
    ensures
        unit_of_text(chain(a, '/', b, '/', c)) == unit_of_text(grouped(a, '/', b, '*', c)),
        unit_of_text(chain(a, '/', b, '/', c)) is Some,
{
    lemma_parse_chain(a, '/', b, '/', c);
    lemma_parse_grouped(a, '/', b, '*', c);
    lemma_registry_bounded(a);
    lemma_registry_bounded(b);
    lemma_registry_bounded(c);
    let ua = registry(a)->0;
    let ub = registry(b)->0;
    let uc = registry(c)->0;
    let ta = atom_tree(a);
    let tb = atom_tree(b);
    let tc = atom_tree(c);
    assert(eval(ta, 1) == Some(ua.pow(1)));
    assert(eval(tb, -1) == Some(ub.pow(-1)));
    assert(eval(tc, -1) == Some(uc.pow(-1)));
    assert(eval(tb, 1) == Some(ub.pow(1)));
    assert(eval(tc, 1) == Some(uc.pow(1)));
    let left_rhs = node(tb, '/', tc);
    assert(eval(left_rhs, -1) == Some(ub.pow(-1).mul(uc.pow(-1))));
    let inner = node(tb, '*', tc);
    assert(eval(inner, 1) == Some(ub.pow(1).mul(uc.pow(1))));
    let group = ExprTree::Paren(Box::new(inner));
    assert(eval(group, -1) == Some(ub.pow(1).mul(uc.pow(1)).pow(-1)));
    assert(ub.pow(1).mul(uc.pow(1)).pow(-1) == ub.pow(-1).mul(uc.pow(-1)));
    assert(eval(node(ta, '/', left_rhs), 1) == Some(ua.pow(1).mul(ub.pow(-1).mul(uc.pow(-1)))));
    assert(eval(node(ta, '/', group), 1) == Some(ua.pow(1).mul(ub.pow(-1).mul(uc.pow(-1)))));
}

#[verifier::rlimit(80)]
proof fn lemma_eval_grouped(a: Seq<char>, b: Seq<char>, c: Seq<char>)
    requires
        registry(a) is Some,
        registry(b) is Some,
        registry(c) is Some,
    ensures
        eval(node(atom_tree(a), '/', ExprTree::Paren(Box::new(node(atom_tree(b), '/', atom_tree(c))))), 1)
            == eval(node(atom_tree(a), '*', node(atom_tree(c), '/', atom_tree(b))), 1),
        eval(node(atom_tree(a), '*', node(atom_tree(c), '/', atom_tree(b))), 1) is Some,
{
    lemma_registry_bounded(a);
    lemma_registry_bounded(b);
    lemma_registry_bounded(c);
    let ua = registry(a)->0;
    let ub = registry(b)->0;
    let uc = registry(c)->0;
    let ta = atom_tree(a);
    let tb = atom_tree(b);
    let tc = atom_tree(c);
    assert(eval(ta, 1) == Some(ua.pow(1)));
    assert(eval(tb, 1) == Some(ub.pow(1)));
    assert(eval(tc, 1) == Some(uc.pow(1)));
    assert(eval(tb, -1) == Some(ub.pow(-1)));
    assert(eval(tc, -1) == Some(uc.pow(-1)));
    let inner = node(tb, '/', tc);
    assert(eval(inner, 1) == Some(ub.pow(1).mul(uc.pow(-1))));
    let group = ExprTree::Paren(Box::new(inner));
    assert(eval(group, -1) == Some(ub.pow(1).mul(uc.pow(-1)).pow(-1)));
    let right_rhs = node(tc, '/', tb);
    assert(eval(right_rhs, 1) == Some(uc.pow(1).mul(ub.pow(-1))));
    assert(ub.pow(1).mul(uc.pow(-1)).pow(-1) == uc.pow(1).mul(ub.pow(-1)));
    assert(eval(node(ta, '/', group), 1) == Some(ua.pow(1).mul(uc.pow(1).mul(ub.pow(-1)))));
    assert(eval(node(ta, '*', right_rhs), 1) == Some(ua.pow(1).mul(uc.pow(1).mul(ub.pow(-1)))));
}

/// Grouping: for atoms `a`, `b`, `c` that the registry knows, `a/(b/c)`
/// denotes the same unit as `a*c/b`.
pub proof fn lemma_grouped_division(a: Seq<char>, b: Seq<char>, c: Seq<char>)
    requires
        is_atom(a),
        is_atom(b),
        is_atom(c),
        registry(a) is Some,
        registry(b) is Some,
        registry(c) is Some,
    ensures
        unit_of_text(grouped(a, '/', b, '/', c)) == unit_of_text(chain(a, '*', c, '/', b)),
        unit_of_text(grouped(a, '/', b, '/', c)) is Some,
{
    lemma_parse_grouped(a, '/', b, '/', c);
    lemma_parse_chain(a, '*', c, '/', b);
    lemma_eval_grouped(a, b, c);
}

/// A lone atom denotes its registry entry, and nothing where the registry
/// lacks it.
pub proof fn lemma_atom_denotes_entry(a: Seq<char>)
    requires
        is_atom(a),
    ensures
        unit_of_text(a) == registry(a),
{
    assert(a.subrange(0, a.len() as int) =~= a);
    lemma_atom_term(a, 0, a);
    assert(expr_at(a, 0) == Some((atom_tree(a), a.len() as int)));
    lemma_registry_bounded(a);
    if registry(a) is Some {
        assert(registry(a)->0.pow(1) == registry(a)->0);
    }
}

} // verus!
