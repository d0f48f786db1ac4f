use vstd::prelude::*;

use crate::chars::{chars_of, string_of};
use crate::registry::{lookup, registry};
use crate::unit::{opt_view, within_range, Unit, UnitVec};

verus! {

/// The binary operators of a unit expression.
#[derive(Debug, Clone, Copy, PartialEq, Eq, Structural)]
pub enum Op {
    Multiply,
    Divide,
    Exponent,
}

/// A parsed unit expression.
#[derive(Debug)]
pub enum Expr {
    Atom(String),
    Num(i32),
    Paren(Box<Expr>),
    BinOp { lhs: Box<Expr>, op: Op, rhs: Box<Expr> },
}

/// The mathematical value of an `Expr`: atoms as character sequences,
/// literals as integers.
pub enum ExprTree {
    Atom(Seq<char>),
    Num(int),
    Paren(Box<ExprTree>),
    BinOp { lhs: Box<ExprTree>, op: Op, rhs: Box<ExprTree> },
}

impl View for Expr {
    type V = ExprTree;

    open spec fn view(&self) -> ExprTree
        decreases self,
    {
        match self {
            Expr::Atom(s) => ExprTree::Atom(s@),
            Expr::Num(k) => ExprTree::Num(*k as int),
            Expr::Paren(inner) => ExprTree::Paren(Box::new((**inner)@)),
            Expr::BinOp { lhs, op, rhs } => ExprTree::BinOp {
                lhs: Box::new((**lhs)@),
                op: *op,
                rhs: Box::new((**rhs)@),
            },
        }
    }
}

/// An ASCII letter, or the micro sign of the prefix `µ`.
pub open spec fn is_letter(c: char) -> bool {
    ('a' <= c && c <= 'z') || ('A' <= c && c <= 'Z') || c == 'µ'
}

/// An ASCII decimal digit.
pub open spec fn is_digit(c: char) -> bool {
    '0' <= c && c <= '9'
}

/// A character that may continue an atom.
pub open spec fn is_alnum(c: char) -> bool {
    is_letter(c) || is_digit(c)
}

/// The end of the run of alphanumeric characters of `s` that starts at `i`.
pub open spec fn alnum_end(s: Seq<char>, i: int) -> int
    decreases s.len() - i,
{
    if 0 <= i < s.len() && is_alnum(s[i]) {
        alnum_end(s, i + 1)
    } else {
        i
    }
}

/// The end of the run of digits of `s` that starts at `i`.
pub open spec fn digit_end(s: Seq<char>, i: int) -> int
    decreases s.len() - i,
{
    if 0 <= i < s.len() && is_digit(s[i]) {
        digit_end(s, i + 1)
    } else {
        i
    }
}

/// The decimal value of the digits `s[i..j]`.
pub open spec fn digits_value(s: Seq<char>, i: int, j: int) -> int
    decreases j - i,
{
    if j <= i {
        0
    } else {
        digits_value(s, i, j - 1) * 10 + (s[j - 1] as int - '0' as int)
    }
}

/// The term of `s` that starts at `i`, with the position after it: an atom
/// (a letter, then letters and digits), an integer literal that fits in an
/// `i32`, or a parenthesised expression.
pub open spec fn term_at(s: Seq<char>, i: int) -> Option<(ExprTree, int)>
    decreases s.len() - i, 0int,
{
    if !(0 <= i < s.len()) {
        None
    } else if is_letter(s[i]) {
        let j = alnum_end(s, i + 1);
        Some((ExprTree::Atom(s.subrange(i, j)), j))
    } else if is_digit(s[i]) {
        let j = digit_end(s, i);
        let v = digits_value(s, i, j);
        if v <= i32::MAX {
            Some((ExprTree::Num(v), j))
        } else {
            None
        }
    } else if s[i] == '(' {
        match expr_at(s, i + 1) {
            Some((e, j)) => if i < j < s.len() && s[j] == ')' {
                Some((ExprTree::Paren(Box::new(e)), j + 1))
            } else {
                None
            },
            None => None,
        }
    } else {
        None
    }
}

/// The expression of `s` that starts at `i`, with the position where it
/// stops (the end of `s` or a closing parenthesis). Its first term is no
/// literal.
pub open spec fn expr_at(s: Seq<char>, i: int) -> Option<(ExprTree, int)>
    decreases s.len() - i, 1int,
{
    match term_at(s, i) {
        Some((t, j)) => if t is Num || !(i < j <= s.len()) {
            None
        } else {
            rest_at(s, t, j)
        },
        None => None,
    }
}

/// The operator of `c`.
pub open spec fn op_of(c: char) -> Op {
    if c == '*' {
        Op::Multiply
    } else if c == '/' {
        Op::Divide
    } else {
        Op::Exponent
    }
}

/// The expression whose first operand `lhs` ends at `i`. All three operators
/// share one precedence level: `*` and `/` associate to the right, so their
/// right operand is the whole expression that follows; `^` associates to the
/// left and takes an integer literal as its right operand.
pub open spec fn rest_at(s: Seq<char>, lhs: ExprTree, i: int) -> Option<(ExprTree, int)>
    decreases s.len() - i, 2int,
{
    if !(0 <= i <= s.len()) {
        None
    } else if i == s.len() || s[i] == ')' {
        Some((lhs, i))
    } else if s[i] == '^' {
        match term_at(s, i + 1) {
            Some((ExprTree::Num(k), j)) => if i < j <= s.len() {
                rest_at(
                    s,
                    ExprTree::BinOp {
                        lhs: Box::new(lhs),
                        op: Op::Exponent,
                        rhs: Box::new(ExprTree::Num(k)),
                    },
                    j,
                )
            } else {
                None
            },
            _ => None,
        }
    } else if s[i] == '*' || s[i] == '/' {
        match expr_at(s, i + 1) {
            Some((r, j)) => Some(
                (ExprTree::BinOp { lhs: Box::new(lhs), op: op_of(s[i]), rhs: Box::new(r) }, j),
            ),
            None => None,
        }
    } else {
        None
    }
}

/// The expression that the whole of `s` spells, if any.
pub open spec fn parse_text(s: Seq<char>) -> Option<ExprTree> {
    match expr_at(s, 0) {
        Some((e, j)) => if j == s.len() {
            Some(e)
        } else {
            None
        },
        None => None,
    }
}

/// The absolute value of `x`.
pub open spec fn abs(x: int) -> int {
    if x < 0 {
        -x
    } else {
        x
    }
}

/// The unit of `e` raised to the ambient exponent `exp`. An atom is looked
/// up and raised to `exp`; a group is evaluated with exponent 1 and the
/// result raised to `exp`; a product evaluates both operands with `exp`; a
/// quotient evaluates its right operand with `-|exp|`, and multiplies; a power
/// raises its left operand's unit to the literal. `None` where an atom is
/// unknown, the tree is malformed, or an exponent leaves the range of `i32`.
pub open spec fn eval(e: ExprTree, exp: int) -> Option<UnitVec>
    decreases e,
{
    match e {
        ExprTree::Atom(s) => match registry(s) {
            Some(u) => within_range(u.pow(exp)),
            None => None,
        },
        ExprTree::Num(_) => None,
        ExprTree::Paren(inner) => match eval(*inner, 1) {
            Some(u) => within_range(u.pow(exp)),
            None => None,
        },
        ExprTree::BinOp { lhs, op, rhs } => match op {
            Op::Multiply => match (eval(*lhs, exp), eval(*rhs, exp)) {
                (Some(a), Some(b)) => within_range(a.mul(b)),
                _ => None,
            },
            Op::Divide => match (eval(*lhs, exp), eval(*rhs, -abs(exp))) {
                (Some(a), Some(b)) => within_range(a.mul(b)),
                _ => None,
            },
            Op::Exponent => match *rhs {
                ExprTree::Num(k) => match eval(*lhs, exp) {
                    Some(a) => within_range(a.pow(k)),
                    None => None,
                },
                _ => None,
            },
        },
    }
}

/// The unit that the expression `s` denotes: `None` where `s` is no
/// expression, or its evaluation fails.
pub open spec fn unit_of_text(s: Seq<char>) -> Option<UnitVec> {
    match parse_text(s) {
        Some(e) => eval(e, 1),
        None => None,
    }
}

fn is_letter_char(c: char) -> (r: bool)
    ensures
        r == is_letter(c),
{
    ('a' <= c && c <= 'z') || ('A' <= c && c <= 'Z') || c == 'µ'
}

fn is_digit_char(c: char) -> (r: bool)
    ensures
        r == is_digit(c),
{
    '0' <= c && c <= '9'
}

proof fn lemma_digit_run(s: Seq<char>, i: int)
    requires
        0 <= i <= s.len(),
    ensures
        i <= digit_end(s, i) <= s.len(),
        forall|m: int| i <= m < digit_end(s, i) ==> is_digit(#[trigger] s[m]),
    decreases s.len() - i,
{
    if i < s.len() && is_digit(s[i]) {
        lemma_digit_run(s, i + 1);
    }
}

proof fn lemma_digits_value_grows(s: Seq<char>, i: int, j: int, k: int)
    requires
        i <= j <= k,
        forall|m: int| i <= m < k ==> is_digit(#[trigger] s[m]),
    ensures
        0 <= digits_value(s, i, j) <= digits_value(s, i, k),
    decreases k - i,
{
    if j < k {
        lemma_digits_value_grows(s, i, j, k - 1);
    } else if i < j {
        lemma_digits_value_grows(s, i, j - 1, j - 1);
    }
}

/// The end of the run of alphanumeric characters of `s` that starts at `i`.
fn scan_alnum(s: &Vec<char>, i: usize) -> (j: usize)
    requires
        i <= s.len(),
    ensures
        j == alnum_end(s@, i as int),
        i <= j <= s.len(),
{
    let mut j: usize = i;
    while j < s.len() && (is_letter_char(s[j]) || is_digit_char(s[j]))
        invariant
            i <= j <= s.len(),
            alnum_end(s@, j as int) == alnum_end(s@, i as int),
        decreases s.len() - j,
    {
        j = j + 1;
    }
    j
}

/// The integer literal that starts at `i`, with the position after it; `None`
/// where its value does not fit in an `i32`.
fn scan_num(s: &Vec<char>, i: usize) -> (r: Option<(i32, usize)>)
    requires
        i <= s.len(),
    ensures
        match r {
            Some((v, j)) => j == digit_end(s@, i as int) && v == digits_value(s@, i as int, j as int),
            None => digits_value(s@, i as int, digit_end(s@, i as int)) > i32::MAX,
        },
{
    proof {
        lemma_digit_run(s@, i as int);
    }
    let mut j: usize = i;
    let mut acc: i64 = 0;
    while j < s.len() && is_digit_char(s[j])
        invariant
            i <= j <= s.len(),
            i <= digit_end(s@, i as int) <= s.len(),
            forall|m: int| i <= m < digit_end(s@, i as int) ==> is_digit(#[trigger] s@[m]),
            digit_end(s@, j as int) == digit_end(s@, i as int),
            acc == digits_value(s@, i as int, j as int),
            0 <= acc <= i32::MAX,
        decreases s.len() - j,
    {
        let d: i64 = (s[j] as u32 - '0' as u32) as i64;
        let next: i64 = acc * 10 + d;
        proof {
            assert(digits_value(s@, i as int, j + 1) == next);
        }
        if next > i32::MAX as i64 {
            proof {
                lemma_digit_run(s@, (j + 1) as int);
                lemma_digits_value_grows(s@, i as int, j + 1, digit_end(s@, i as int));
            }
            return None;
        }
        acc = next;
        j = j + 1;
    }
    Some((acc as i32, j))
}

/// The atom `s[i..j]` as a string.
fn atom_of(s: &Vec<char>, i: usize, j: usize) -> (r: String)
    requires
        i <= j <= s.len(),
    ensures
        r@ == s@.subrange(i as int, j as int),
{
    let mut v: Vec<char> = Vec::new();
    let mut k: usize = i;
    while k < j
        invariant
            i <= k <= j <= s.len(),
            v@ == s@.subrange(i as int, k as int),
        decreases j - k,
    {
        v.push(s[k]);
        k = k + 1;
        assert(v@ =~= s@.subrange(i as int, k as int));
    }
    string_of(v.as_slice())
}

/// Parses the term of `s` that starts at `i`: an atom, an integer literal or a
/// parenthesised expression.
fn parse_term(s: &Vec<char>, i: usize) -> (r: Option<(Expr, usize)>)
    ensures
        match r {
            Some((e, j)) => term_at(s@, i as int) == Some((e@, j as int)),
            None => term_at(s@, i as int) is None,
        },
    decreases s.len() - i, 0int,
{
    if i >= s.len() {
        return None;
    }
    let c = s[i];
    if is_letter_char(c) {
        let j = scan_alnum(s, i + 1);
        let atom = atom_of(s, i, j);
        Some((Expr::Atom(atom), j))
    } else if is_digit_char(c) {
        match scan_num(s, i) {
            Some((v, j)) => Some((Expr::Num(v), j)),
            None => None,
        }
    } else if c == '(' {
        match parse_expr(s, i + 1) {
            Some((e, j)) => {
                if i < j && j < s.len() && s[j] == ')' {
                    Some((Expr::Paren(Box::new(e)), j + 1))
                } else {
                    None
                }
            },
            None => None,
        }
    } else {
        None
    }
}

/// Parses the expression of `s` that starts at `i`, up to the end of `s` or
/// an unmatched closing parenthesis, and returns it with the position where it
/// stopped.
pub fn parse_expr(s: &Vec<char>, i: usize) -> (r: Option<(Expr, usize)>)
    ensures
        match r {
            Some((e, j)) => expr_at(s@, i as int) == Some((e@, j as int)),
            None => expr_at(s@, i as int) is None,
        },
    decreases s.len() - i, 1int,
{
    match parse_term(s, i) {
        Some((t, j)) => {
            if matches!(t, Expr::Num(_)) || !(i < j && j <= s.len()) {
                None
            } else {
                parse_rest(s, t, j)
            }
        },
        None => None,
    }
}

/// Parses what follows the operand `lhs`, which ends at `i`.
fn parse_rest(s: &Vec<char>, lhs: Expr, i: usize) -> (r: Option<(Expr, usize)>)
    ensures
        match r {
            Some((e, j)) => rest_at(s@, lhs@, i as int) == Some((e@, j as int)),
            None => rest_at(s@, lhs@, i as int) is None,
        },
    decreases s.len() - i, 2int,
{
    if i > s.len() {
        return None;
    }
    if i == s.len() || s[i] == ')' {
        return Some((lhs, i));
    }
    let c = s[i];
    if c == '^' {
        match parse_term(s, i + 1) {
            Some((Expr::Num(k), j)) => {
                if i < j && j <= s.len() {
                    let node = Expr::BinOp {
                        lhs: Box::new(lhs),
                        op: Op::Exponent,
                        rhs: Box::new(Expr::Num(k)),
                    };
                    parse_rest(s, node, j)
                } else {
                    None
                }
            },
            _ => None,
        }
    } else if c == '*' || c == '/' {
        let op = if c == '*' {
            Op::Multiply
        } else {
            Op::Divide
        };
        match parse_expr(s, i + 1) {
            Some((r, j)) => Some((Expr::BinOp { lhs: Box::new(lhs), op, rhs: Box::new(r) }, j)),
            None => None,
        }
    } else {
        None
    }
}

/// The parser of unit expressions.
pub struct UnitParser;

impl UnitParser {
    /// Parses the whole of `text` as a unit expression.
    pub fn parse(text: &str) -> (r: Option<Expr>)
        ensures
            match r {
                Some(e) => parse_text(text@) == Some(e@),
                None => parse_text(text@) is None,
            },
    {
        let s = chars_of(text);
        match parse_expr(&s, 0) {
            Some((e, j)) => {
                if j == s.len() {
                    Some(e)
                } else {
                    None
                }
            },
            None => None,
        }
    }
}

/// The unit of `expr` under the ambient exponent `exponent`, as `eval`
/// describes it.
pub fn unit_of_expr(expr: &Expr, exponent: i32) -> (r: Option<Unit>)
    requires
        exponent != i32::MIN,
    ensures
        opt_view(r) == eval(expr@, exponent as int),
    decreases expr, 1int,
{
    match expr {
        Expr::Atom(symbol) => match lookup(symbol.as_str()) {
            Some(u) => u.checked_pow(exponent),
            None => None,
        },
        Expr::BinOp { .. } => unit_of_binop(expr, exponent),
        Expr::Paren(inner) => match unit_of_expr(inner, 1) {
            Some(u) => u.checked_pow(exponent),
            None => None,
        },
        Expr::Num(_) => None,
    }
}

/// The unit of the binary node `expr` under the ambient exponent `exponent`.
fn unit_of_binop(expr: &Expr, exponent: i32) -> (r: Option<Unit>)
    requires
        exponent != i32::MIN,
        expr is BinOp,
    ensures
        opt_view(r) == eval(expr@, exponent as int),
    decreases expr, 0int,
{
    match expr {
        Expr::BinOp { lhs, op, rhs } => match op {
            Op::Multiply => {
                let lhs = unit_of_expr(lhs, exponent);
                let rhs = unit_of_expr(rhs, exponent);
                match (lhs, rhs) {
                    (Some(lhs), Some(rhs)) => lhs.checked_mul(rhs),
                    (_, _) => None,
                }
            },
            Op::Divide => {
                let lhs = unit_of_expr(lhs, exponent);
                // Dividing by `b / c` divides by `b` and by `c`: a/b/c = a/(bc).
                let exponent = if exponent < 0 {
                    exponent
                } else {
                    -exponent
                };
                let rhs = unit_of_expr(rhs, exponent);
                match (lhs, rhs) {
                    (Some(lhs), Some(rhs)) => lhs.checked_mul(rhs),
                    (_, _) => None,
                }
            },
            Op::Exponent => {
                let lhs = unit_of_expr(lhs, exponent);
                match (lhs, &**rhs) {
                    (Some(lhs), Expr::Num(k)) => lhs.checked_pow(*k),
                    _ => None,
                }
            },
        },
        _ => None,
    }
}

/// The unit that the expression `text` denotes: `None` where `text` is not a
/// unit expression, names a symbol that the registry lacks, or reaches an
/// exponent outside the range of `i32`.
pub fn parse_unit(text: &str) -> (r: Option<Unit>)
    ensures
        opt_view(r) == unit_of_text(text@),
{
    match UnitParser::parse(text) {
        Some(expr) => unit_of_expr(&expr, 1),
        None => None,
    }
}

} // verus!
