//! The syntax of the formula language: a precedence-climbing parser over
//! the tokens of `lex`.
use vstd::prelude::*;
use crate::lex::{lex, lex_spec, tok_views, LexError, Tok, TokV};
use crate::text::{chars_of, eq_lit};

verus! {

/// Binary operators, from loosest to tightest: `||`; `&&`; the comparisons;
/// `+` `-`; `*` `/` `%`.
#[derive(Debug, Clone, Copy, PartialEq, Eq, Structural)]
pub enum BinOp {
    Add,
    Sub,
    Mul,
    Div,
    Mod,
    Eq,
    Ne,
    Gt,
    Lt,
    Ge,
    Le,
    And,
    Or,
}

/// A literal. A number keeps the text of its literal.
#[derive(Debug, Clone, PartialEq)]
pub enum Literal {
    Num(String),
    Str(String),
    Bool(bool),
    Null,
}

/// A formula.
#[derive(Debug, PartialEq)]
pub enum Expr {
    Lit(Literal),
    /// A dotted name: `file.name`, `note.status`, `formula.total`, `x`.
    Path(Vec<String>),
    Neg(Box<Expr>),
    Not(Box<Expr>),
    Binary(BinOp, Box<Expr>, Box<Expr>),
    /// A function call `name(args)`.
    Call(String, Vec<Expr>),
    /// A method call `receiver.name(args)`, or `receiver.name` on a receiver
    /// that is not a path.
    Method(Box<Expr>, String, Vec<Expr>),
}

/// The model of a literal.
pub enum LitV {
    Num(Seq<char>),
    Str(Seq<char>),
    Bool(bool),
    Null,
}

/// The model of a formula.
pub enum ExprV {
    Lit(LitV),
    Path(Seq<Seq<char>>),
    Neg(Box<ExprV>),
    Not(Box<ExprV>),
    Binary(BinOp, Box<ExprV>, Box<ExprV>),
    Call(Seq<char>, Seq<ExprV>),
    Method(Box<ExprV>, Seq<char>, Seq<ExprV>),
}

/// A literal as values.
pub open spec fn lit_view(l: Literal) -> LitV {
    match l {
        Literal::Num(s) => LitV::Num(s@),
        Literal::Str(s) => LitV::Str(s@),
        Literal::Bool(b) => LitV::Bool(b),
        Literal::Null => LitV::Null,
    }
}

/// Strings as values.
pub open spec fn string_views(v: Seq<String>) -> Seq<Seq<char>> {
    v.map_values(|s: String| s@)
}

/// An expression as values.
pub open spec fn expr_view(e: Expr) -> ExprV
    decreases e,
{
    match e {
        Expr::Lit(l) => ExprV::Lit(lit_view(l)),
        Expr::Path(ps) => ExprV::Path(string_views(ps@)),
        Expr::Neg(b) => ExprV::Neg(Box::new(expr_view(*b))),
        Expr::Not(b) => ExprV::Not(Box::new(expr_view(*b))),
        Expr::Binary(op, l, r) => ExprV::Binary(op, Box::new(expr_view(*l)), Box::new(expr_view(*r))),
        Expr::Call(n, args) => ExprV::Call(n@, expr_views(args@)),
        Expr::Method(b, n, args) => ExprV::Method(Box::new(expr_view(*b)), n@, expr_views(args@)),
    }
}

/// Expressions as values.
pub open spec fn expr_views(v: Seq<Expr>) -> Seq<ExprV>
    decreases v,
{
    Seq::new(v.len(), |i: int| if 0 <= i < v.len() { expr_view(v[i]) } else { ExprV::Lit(LitV::Null) })
}

/// Why a formula could not be read.
#[derive(Debug, Clone, PartialEq)]
pub enum ParseError {
    Lex(LexError),
    /// The formula ended where an operand was due.
    UnexpectedEof,
    /// A token that cannot start an operand.
    UnexpectedToken(Tok),
    /// A `')'` was due; what stood there instead (`None`: the end).
    ExpectedRParen(Option<Tok>),
    /// An identifier was due after `'.'`.
    ExpectedIdentAfterDot(Option<Tok>),
    /// A `','` or `')'` was due in an argument list.
    ExpectedCommaOrRParen(Option<Tok>),
}

/// The model of a parse error.
pub enum ParseErrorV {
    Lex(LexError),
    UnexpectedEof,
    UnexpectedToken(TokV),
    ExpectedRParen(Option<TokV>),
    ExpectedIdentAfterDot(Option<TokV>),
    ExpectedCommaOrRParen(Option<TokV>),
}

/// An optional token as values.
pub open spec fn opt_tok_view(t: Option<Tok>) -> Option<TokV> {
    match t {
        Some(x) => Some(x@),
        None => None,
    }
}

/// A parse error as values.
pub open spec fn error_view(e: ParseError) -> ParseErrorV {
    match e {
        ParseError::Lex(l) => ParseErrorV::Lex(l),
        ParseError::UnexpectedEof => ParseErrorV::UnexpectedEof,
        ParseError::UnexpectedToken(t) => ParseErrorV::UnexpectedToken(t@),
        ParseError::ExpectedRParen(t) => ParseErrorV::ExpectedRParen(opt_tok_view(t)),
        ParseError::ExpectedIdentAfterDot(t) => ParseErrorV::ExpectedIdentAfterDot(opt_tok_view(t)),
        ParseError::ExpectedCommaOrRParen(t) => ParseErrorV::ExpectedCommaOrRParen(opt_tok_view(t)),
    }
}

// ---------------------------------------------------------------------------
// The grammar
// ---------------------------------------------------------------------------

/// Binding power of a binary operator token; 0 for every other token.
pub open spec fn prec(t: TokV) -> u8 {
    match t {
        TokV::OrOr => 1,
        TokV::AndAnd => 2,
        TokV::EqEq | TokV::BangEq | TokV::Gt | TokV::Lt | TokV::GtEq | TokV::LtEq => 3,
        TokV::Plus | TokV::Minus => 4,
        TokV::Star | TokV::Slash | TokV::Percent => 5,
        _ => 0,
    }
}

/// The operator a binary operator token stands for.
pub open spec fn binop_of(t: TokV) -> BinOp {
    match t {
        TokV::Plus => BinOp::Add,
        TokV::Minus => BinOp::Sub,
        TokV::Star => BinOp::Mul,
        TokV::Slash => BinOp::Div,
        TokV::Percent => BinOp::Mod,
        TokV::EqEq => BinOp::Eq,
        TokV::BangEq => BinOp::Ne,
        TokV::Gt => BinOp::Gt,
        TokV::Lt => BinOp::Lt,
        TokV::GtEq => BinOp::Ge,
        TokV::LtEq => BinOp::Le,
        TokV::AndAnd => BinOp::And,
        _ => BinOp::Or,
    }
}

/// The token at position `p`, if any.
pub open spec fn tok_at(t: Seq<TokV>, p: int) -> Option<TokV> {
    if 0 <= p < t.len() {
        Some(t[p])
    } else {
        None
    }
}

/// `lhs.f` without arguments: a longer path when `lhs` is a path, a method
/// call without arguments otherwise.
pub open spec fn member(lhs: ExprV, f: Seq<char>) -> ExprV {
    match lhs {
        ExprV::Path(ps) => ExprV::Path(ps.push(f)),
        _ => ExprV::Method(Box::new(lhs), f, seq![]),
    }
}

/// A successful parse moved past position `p` and stays within the tokens.
pub open spec fn advanced(p: int, r: Result<(ExprV, int), ParseErrorV>, len: int) -> bool {
    r matches Ok((e, q)) ==> p < q <= len
}

/// An expression at `t[pos..]` whose binary operators bind at least as
/// tightly as `min_bp`, and the position after it.
pub open spec fn p_expr(t: Seq<TokV>, pos: int, min_bp: u8) -> Result<(ExprV, int), ParseErrorV>
    decreases t.len() - pos, 2int,
{
    if pos < 0 || pos > t.len() {
        Err(ParseErrorV::UnexpectedEof)
    } else {
        match p_primary(t, pos) {
            Err(e) => Err(e),
            Ok((lhs, p1)) => if pos < p1 <= t.len() {
                p_loop(t, lhs, p1, min_bp)
            } else {
                Err(ParseErrorV::UnexpectedEof)
            },
        }
    }
}

/// An operand at `t[pos..]`: a literal, a path, a call, a parenthesized
/// expression, or a negated or inverted operand.
pub open spec fn p_primary(t: Seq<TokV>, pos: int) -> Result<(ExprV, int), ParseErrorV>
    decreases t.len() - pos, 1int,
{
    if pos < 0 || pos >= t.len() {
        Err(ParseErrorV::UnexpectedEof)
    } else {
        match t[pos] {
            TokV::Num(n) => Ok((ExprV::Lit(LitV::Num(n)), pos + 1)),
            TokV::Str(s) => Ok((ExprV::Lit(LitV::Str(s)), pos + 1)),
            TokV::Ident(id) => if id == "true"@ {
                Ok((ExprV::Lit(LitV::Bool(true)), pos + 1))
            } else if id == "false"@ {
                Ok((ExprV::Lit(LitV::Bool(false)), pos + 1))
            } else if id == "null"@ {
                Ok((ExprV::Lit(LitV::Null), pos + 1))
            } else if tok_at(t, pos + 1) == Some(TokV::LParen) {
                match p_args(t, pos + 1) {
                    Ok((args, p1)) => Ok((ExprV::Call(id, args), p1)),
                    Err(e) => Err(e),
                }
            } else {
                Ok((ExprV::Path(seq![id]), pos + 1))
            },
            TokV::LParen => match p_expr(t, pos + 1, 0) {
                Err(e) => Err(e),
                Ok((e, p1)) => if tok_at(t, p1) == Some(TokV::RParen) {
                    Ok((e, p1 + 1))
                } else {
                    Err(ParseErrorV::ExpectedRParen(tok_at(t, p1)))
                },
            },
            TokV::Minus => match p_expr(t, pos + 1, 6) {
                Err(e) => Err(e),
                Ok((e, p1)) => Ok((ExprV::Neg(Box::new(e)), p1)),
            },
            TokV::Bang => match p_expr(t, pos + 1, 6) {
                Err(e) => Err(e),
                Ok((e, p1)) => Ok((ExprV::Not(Box::new(e)), p1)),
            },
            other => Err(ParseErrorV::UnexpectedToken(other)),
        }
    }
}

/// Postfix `.name` / `.name(args)` and binary operators of binding power at
/// least `min_bp` after the operand `lhs`, which ends at `p`.
pub open spec fn p_loop(t: Seq<TokV>, lhs: ExprV, p: int, min_bp: u8) -> Result<
    (ExprV, int),
    ParseErrorV,
>
    decreases t.len() - p, 0int,
{
    if p < 0 || p >= t.len() {
        Ok((lhs, p))
    } else if t[p] == TokV::Dot {
        match tok_at(t, p + 1) {
            Some(TokV::Ident(f)) => if tok_at(t, p + 2) == Some(TokV::LParen) {
                match p_args(t, p + 2) {
                    Err(e) => Err(e),
                    Ok((args, p3)) => if p < p3 <= t.len() {
                        p_loop(t, ExprV::Method(Box::new(lhs), f, args), p3, min_bp)
                    } else {
                        Err(ParseErrorV::UnexpectedEof)
                    },
                }
            } else {
                p_loop(t, member(lhs, f), p + 2, min_bp)
            },
            other => Err(ParseErrorV::ExpectedIdentAfterDot(other)),
        }
    } else {
        let bp = prec(t[p]);
        if bp == 0 || bp < min_bp {
            Ok((lhs, p))
        } else {
            match p_expr(t, p + 1, (bp + 1) as u8) {
                Err(e) => Err(e),
                Ok((rhs, p2)) => if p < p2 <= t.len() {
                    p_loop(
                        t,
                        ExprV::Binary(binop_of(t[p]), Box::new(lhs), Box::new(rhs)),
                        p2,
                        min_bp,
                    )
                } else {
                    Err(ParseErrorV::UnexpectedEof)
                },
            }
        }
    }
}

/// A parenthesized argument list whose `'('` stands at `t[pos]`.
pub open spec fn p_args(t: Seq<TokV>, pos: int) -> Result<(Seq<ExprV>, int), ParseErrorV>
    decreases t.len() - pos, 0int,
{
    if pos < 0 || pos >= t.len() {
        Err(ParseErrorV::UnexpectedEof)
    } else if tok_at(t, pos + 1) == Some(TokV::RParen) {
        Ok((seq![], pos + 2))
    } else {
        p_args_loop(t, seq![], pos + 1)
    }
}

/// The arguments from `t[p]` on, after the arguments `acc`.
pub open spec fn p_args_loop(t: Seq<TokV>, acc: Seq<ExprV>, p: int) -> Result<
    (Seq<ExprV>, int),
    ParseErrorV,
>
    decreases t.len() - p, 3int,
{
    if p < 0 || p > t.len() {
        Err(ParseErrorV::UnexpectedEof)
    } else {
        match p_expr(t, p, 0) {
            Err(e) => Err(e),
            Ok((a, p1)) => if p < p1 <= t.len() {
                match tok_at(t, p1) {
                    Some(TokV::Comma) => p_args_loop(t, acc.push(a), p1 + 1),
                    Some(TokV::RParen) => Ok((acc.push(a), p1 + 1)),
                    other => Err(ParseErrorV::ExpectedCommaOrRParen(other)),
                }
            } else {
                Err(ParseErrorV::UnexpectedEof)
            },
        }
    }
}

/// A token that is a whole operand by itself: a number, or a name that is
/// not `true`, `false` or `null`.
pub open spec fn plain_operand(tok: TokV) -> bool {
    match tok {
        TokV::Num(_) => true,
        TokV::Ident(id) => id != "true"@ && id != "false"@ && id != "null"@,
        _ => false,
    }
}

/// The expression a plain operand stands for.
pub open spec fn operand_expr(tok: TokV) -> ExprV {
    match tok {
        TokV::Num(n) => ExprV::Lit(LitV::Num(n)),
        TokV::Ident(id) => ExprV::Path(seq![id]),
        _ => ExprV::Lit(LitV::Null),
    }
}

/// The comparison a token writes, if it writes one.
pub open spec fn comparison_of(tok: TokV) -> Option<BinOp> {
    match tok {
        TokV::EqEq => Some(BinOp::Eq),
        TokV::BangEq => Some(BinOp::Ne),
        TokV::Gt => Some(BinOp::Gt),
        TokV::Lt => Some(BinOp::Lt),
        TokV::GtEq => Some(BinOp::Ge),
        TokV::LtEq => Some(BinOp::Le),
        _ => None,
    }
}

/// The arithmetic operator a token writes, if it writes one.
pub open spec fn arithmetic_of(tok: TokV) -> Option<BinOp> {
    match tok {
        TokV::Plus => Some(BinOp::Add),
        TokV::Minus => Some(BinOp::Sub),
        TokV::Star => Some(BinOp::Mul),
        TokV::Slash => Some(BinOp::Div),
        TokV::Percent => Some(BinOp::Mod),
        _ => None,
    }
}

/// The logical connective a token writes, if it writes one.
pub open spec fn connective_of(tok: TokV) -> Option<BinOp> {
    match tok {
        TokV::AndAnd => Some(BinOp::And),
        TokV::OrOr => Some(BinOp::Or),
        _ => None,
    }
}

/// `lhs op rhs` as a tree.
pub open spec fn bin(op: BinOp, lhs: ExprV, rhs: ExprV) -> ExprV {
    ExprV::Binary(op, Box::new(lhs), Box::new(rhs))
}

/// A plain operand followed by an operator or by nothing reads as that
/// operand.
proof fn lemma_plain_primary(t: Seq<TokV>, pos: int)
    requires
        0 <= pos < t.len(),
        plain_operand(t[pos]),
        pos + 1 < t.len() ==> t[pos + 1] != TokV::LParen,
    ensures
        p_primary(t, pos) == Ok::<(ExprV, int), ParseErrorV>((operand_expr(t[pos]), pos + 1)),
{
}

/// Comparisons bind more tightly than `&&` and `||`: for plain operands
/// `a`, `b`, `c`, `d`, any comparisons `c1`, `c2` and a connective `l`,
/// `a c1 b l c c2 d` reads as `(a c1 b) l (c c2 d)`.
pub proof fn comparisons_bind_tighter_than_connectives(
    a: TokV,
    c1: TokV,
    b: TokV,
    l: TokV,
    c: TokV,
    c2: TokV,
    d: TokV,
)
    requires
        plain_operand(a),
        plain_operand(b),
        plain_operand(c),
        plain_operand(d),
        comparison_of(c1) is Some,
        comparison_of(c2) is Some,
        connective_of(l) is Some,
    ensures
        p_expr(seq![a, c1, b, l, c, c2, d], 0, 0) == Ok::<(ExprV, int), ParseErrorV>((
            bin(
                connective_of(l)->0,
                bin(comparison_of(c1)->0, operand_expr(a), operand_expr(b)),
                bin(comparison_of(c2)->0, operand_expr(c), operand_expr(d)),
            ),
            7,
        )),
{
    let t = seq![a, c1, b, l, c, c2, d];
    let (ea, eb, ec, ed) = (operand_expr(a), operand_expr(b), operand_expr(c), operand_expr(d));
    lemma_plain_primary(t, 0);
    lemma_plain_primary(t, 2);
    lemma_plain_primary(t, 4);
    lemma_plain_primary(t, 6);
    let bp = prec(c1);
    assert(bp >= 1);
    let lbp = prec(l);
    assert(lbp >= 1 && lbp < bp);
    assert(p_loop(t, eb, 3, (bp + 1) as u8) == Ok::<(ExprV, int), ParseErrorV>((eb, 3)));
    assert(p_expr(t, 2, (bp + 1) as u8) == Ok::<(ExprV, int), ParseErrorV>((eb, 3)));
    let left = bin(binop_of(c1), ea, eb);
    assert(binop_of(c1) == comparison_of(c1)->0);
    assert(p_loop(t, ed, 7, (prec(c2) + 1) as u8) == Ok::<(ExprV, int), ParseErrorV>((ed, 7)));
    assert(p_expr(t, 6, (prec(c2) + 1) as u8) == Ok::<(ExprV, int), ParseErrorV>((ed, 7)));
    let right = bin(binop_of(c2), ec, ed);
    assert(binop_of(c2) == comparison_of(c2)->0);
    assert(p_loop(t, right, 7, (lbp + 1) as u8) == Ok::<(ExprV, int), ParseErrorV>((right, 7)));
    assert(p_loop(t, ec, 5, (lbp + 1) as u8) == Ok::<(ExprV, int), ParseErrorV>((right, 7)));
    assert(p_expr(t, 4, (lbp + 1) as u8) == Ok::<(ExprV, int), ParseErrorV>((right, 7)));
    let whole = bin(binop_of(l), left, right);
    assert(binop_of(l) == connective_of(l)->0);
    assert(p_loop(t, whole, 7, 0) == Ok::<(ExprV, int), ParseErrorV>((whole, 7)));
    assert(p_loop(t, left, 3, 0) == Ok::<(ExprV, int), ParseErrorV>((whole, 7)));
    assert(p_loop(t, ea, 1, 0) == Ok::<(ExprV, int), ParseErrorV>((whole, 7)));
}

/// Arithmetic binds more tightly than comparisons: for plain operands `a`,
/// `b`, `c`, a comparison `c1` and an arithmetic operator `o`, `a o b c1 c`
/// reads as `(a o b) c1 c` and `a c1 b o c` as `a c1 (b o c)`.
pub proof fn arithmetic_binds_tighter_than_comparisons(a: TokV, o: TokV, b: TokV, c1: TokV, c: TokV)
    requires
        plain_operand(a),
        plain_operand(b),
        plain_operand(c),
        comparison_of(c1) is Some,
        arithmetic_of(o) is Some,
    ensures
        p_expr(seq![a, o, b, c1, c], 0, 0) == Ok::<(ExprV, int), ParseErrorV>((
            bin(comparison_of(c1)->0, bin(arithmetic_of(o)->0, operand_expr(a), operand_expr(b)), operand_expr(c)),
            5,
        )),
        p_expr(seq![a, c1, b, o, c], 0, 0) == Ok::<(ExprV, int), ParseErrorV>((
            bin(comparison_of(c1)->0, operand_expr(a), bin(arithmetic_of(o)->0, operand_expr(b), operand_expr(c))),
            5,
        )),
{
    let (ea, eb, ec) = (operand_expr(a), operand_expr(b), operand_expr(c));
    let obp = prec(o);
    let cbp = prec(c1);
    assert(1 <= cbp && cbp < obp);
    assert(binop_of(c1) == comparison_of(c1)->0);
    assert(binop_of(o) == arithmetic_of(o)->0);
    // a o b c1 c
    let t = seq![a, o, b, c1, c];
    lemma_plain_primary(t, 0);
    lemma_plain_primary(t, 2);
    lemma_plain_primary(t, 4);
    assert(p_loop(t, eb, 3, (obp + 1) as u8) == Ok::<(ExprV, int), ParseErrorV>((eb, 3)));
    assert(p_expr(t, 2, (obp + 1) as u8) == Ok::<(ExprV, int), ParseErrorV>((eb, 3)));
    let left = bin(binop_of(o), ea, eb);
    assert(p_loop(t, ec, 5, (cbp + 1) as u8) == Ok::<(ExprV, int), ParseErrorV>((ec, 5)));
    assert(p_expr(t, 4, (cbp + 1) as u8) == Ok::<(ExprV, int), ParseErrorV>((ec, 5)));
    let whole = bin(binop_of(c1), left, ec);
    assert(p_loop(t, whole, 5, 0) == Ok::<(ExprV, int), ParseErrorV>((whole, 5)));
    assert(p_loop(t, left, 3, 0) == Ok::<(ExprV, int), ParseErrorV>((whole, 5)));
    assert(p_loop(t, ea, 1, 0) == Ok::<(ExprV, int), ParseErrorV>((whole, 5)));
    // a c1 b o c
    let u = seq![a, c1, b, o, c];
    lemma_plain_primary(u, 0);
    lemma_plain_primary(u, 2);
    lemma_plain_primary(u, 4);
    assert(p_loop(u, ec, 5, (obp + 1) as u8) == Ok::<(ExprV, int), ParseErrorV>((ec, 5)));
    assert(p_expr(u, 4, (obp + 1) as u8) == Ok::<(ExprV, int), ParseErrorV>((ec, 5)));
    let right = bin(binop_of(o), eb, ec);
    assert(p_loop(u, right, 5, (cbp + 1) as u8) == Ok::<(ExprV, int), ParseErrorV>((right, 5)));
    assert(p_loop(u, eb, 3, (cbp + 1) as u8) == Ok::<(ExprV, int), ParseErrorV>((right, 5)));
    assert(p_expr(u, 2, (cbp + 1) as u8) == Ok::<(ExprV, int), ParseErrorV>((right, 5)));
    let whole2 = bin(binop_of(c1), ea, right);
    assert(p_loop(u, whole2, 5, 0) == Ok::<(ExprV, int), ParseErrorV>((whole2, 5)));
    assert(p_loop(u, ea, 1, 0) == Ok::<(ExprV, int), ParseErrorV>((whole2, 5)));
}

/// The binary operator a token writes, if it writes one.
pub open spec fn binary_of(tok: TokV) -> Option<BinOp> {
    match tok {
        TokV::OrOr => Some(BinOp::Or),
        TokV::AndAnd => Some(BinOp::And),
        _ => if comparison_of(tok) is Some {
            comparison_of(tok)
        } else {
            arithmetic_of(tok)
        },
    }
}

/// How tightly a binary operator binds, loosest first: `||`, then `&&`,
/// then the comparisons, then `+` and `-`, then `*`, `/` and `%`.
pub open spec fn binding_level(tok: TokV) -> int {
    match tok {
        TokV::OrOr => 1,
        TokV::AndAnd => 2,
        TokV::Plus | TokV::Minus => 4,
        TokV::Star | TokV::Slash | TokV::Percent => 5,
        _ => 3,
    }
}

/// Two binary operators group by how tightly they bind, and operators that
/// bind alike group to the left: for plain operands `a`, `b`, `c`,
/// `a o1 b o2 c` reads as `(a o1 b) o2 c` when `o1` binds at least as
/// tightly as `o2`, and as `a o1 (b o2 c)` otherwise.
pub proof fn binary_operators_group_by_level(a: TokV, o1: TokV, b: TokV, o2: TokV, c: TokV)
    requires
        plain_operand(a),
        plain_operand(b),
        plain_operand(c),
        binary_of(o1) is Some,
        binary_of(o2) is Some,
    ensures
        p_expr(seq![a, o1, b, o2, c], 0, 0) == Ok::<(ExprV, int), ParseErrorV>((
            if binding_level(o1) >= binding_level(o2) {
                bin(binary_of(o2)->0, bin(binary_of(o1)->0, operand_expr(a), operand_expr(b)), operand_expr(c))
            } else {
                bin(binary_of(o1)->0, operand_expr(a), bin(binary_of(o2)->0, operand_expr(b), operand_expr(c)))
            },
            5,
        )),
{
    let t = seq![a, o1, b, o2, c];
    let (ea, eb, ec) = (operand_expr(a), operand_expr(b), operand_expr(c));
    lemma_plain_primary(t, 0);
    lemma_plain_primary(t, 2);
    lemma_plain_primary(t, 4);
    let b1 = prec(o1);
    let b2 = prec(o2);
    assert(b1 as int == binding_level(o1) && b1 >= 1);
    assert(b2 as int == binding_level(o2) && b2 >= 1);
    assert(binop_of(o1) == binary_of(o1)->0);
    assert(binop_of(o2) == binary_of(o2)->0);
    if b1 >= b2 {
        assert(p_loop(t, eb, 3, (b1 + 1) as u8) == Ok::<(ExprV, int), ParseErrorV>((eb, 3)));
        assert(p_expr(t, 2, (b1 + 1) as u8) == Ok::<(ExprV, int), ParseErrorV>((eb, 3)));
        let left = bin(binop_of(o1), ea, eb);
        assert(p_loop(t, ec, 5, (b2 + 1) as u8) == Ok::<(ExprV, int), ParseErrorV>((ec, 5)));
        assert(p_expr(t, 4, (b2 + 1) as u8) == Ok::<(ExprV, int), ParseErrorV>((ec, 5)));
        let whole = bin(binop_of(o2), left, ec);
        assert(p_loop(t, whole, 5, 0) == Ok::<(ExprV, int), ParseErrorV>((whole, 5)));
        assert(p_loop(t, left, 3, 0) == Ok::<(ExprV, int), ParseErrorV>((whole, 5)));
        assert(p_loop(t, ea, 1, 0) == Ok::<(ExprV, int), ParseErrorV>((whole, 5)));
    } else {
        assert(p_loop(t, ec, 5, (b2 + 1) as u8) == Ok::<(ExprV, int), ParseErrorV>((ec, 5)));
        assert(p_expr(t, 4, (b2 + 1) as u8) == Ok::<(ExprV, int), ParseErrorV>((ec, 5)));
        let right = bin(binop_of(o2), eb, ec);
        assert(p_loop(t, right, 5, (b1 + 1) as u8) == Ok::<(ExprV, int), ParseErrorV>((right, 5)));
        assert(p_loop(t, eb, 3, (b1 + 1) as u8) == Ok::<(ExprV, int), ParseErrorV>((right, 5)));
        assert(p_expr(t, 2, (b1 + 1) as u8) == Ok::<(ExprV, int), ParseErrorV>((right, 5)));
        let whole = bin(binop_of(o1), ea, right);
        assert(p_loop(t, whole, 5, 0) == Ok::<(ExprV, int), ParseErrorV>((whole, 5)));
        assert(p_loop(t, ea, 1, 0) == Ok::<(ExprV, int), ParseErrorV>((whole, 5)));
    }
}

/// The formula a text stands for: its tokens read as one expression.
/// Tokens after that expression are ignored.
pub open spec fn parse_spec(s: Seq<char>) -> Result<ExprV, ParseErrorV> {
    match lex_spec(s) {
        Err(e) => Err(ParseErrorV::Lex(e)),
        Ok(t) => match p_expr(t, 0, 0) {
            Ok((e, _)) => Ok(e),
            Err(e) => Err(e),
        },
    }
}


// ---------------------------------------------------------------------------
// The parser
// ---------------------------------------------------------------------------

struct Parser {
    tokens: Vec<Tok>,
    pos: usize,
}

fn str_is(s: &String, lit: &str) -> (r: bool)
    ensures
        r == (s@ == lit@),
{
    let v = chars_of(s.as_str());
    eq_lit(&v, lit)
}

fn op_of(t: &Tok) -> (r: BinOp)
    ensures
        r == binop_of(t@),
{
    match t {
        Tok::Plus => BinOp::Add,
        Tok::Minus => BinOp::Sub,
        Tok::Star => BinOp::Mul,
        Tok::Slash => BinOp::Div,
        Tok::Percent => BinOp::Mod,
        Tok::EqEq => BinOp::Eq,
        Tok::BangEq => BinOp::Ne,
        Tok::Gt => BinOp::Gt,
        Tok::Lt => BinOp::Lt,
        Tok::GtEq => BinOp::Ge,
        Tok::LtEq => BinOp::Le,
        Tok::AndAnd => BinOp::And,
        _ => BinOp::Or,
    }
}

impl Parser {
    /// The binding power of a binary operator token; 0 for any other token.
    fn get_precedence(t: &Tok) -> (r: u8)
        ensures
            r == prec(t@),
    {
        match t {
            Tok::OrOr => 1,
            Tok::AndAnd => 2,
            Tok::EqEq | Tok::BangEq | Tok::Gt | Tok::Lt | Tok::GtEq | Tok::LtEq => 3,
            Tok::Plus | Tok::Minus => 4,
            Tok::Star | Tok::Slash | Tok::Percent => 5,
            _ => 0,
        }
    }

    closed spec fn tv(&self) -> Seq<TokV> {
        tok_views(self.tokens@)
    }

    fn tok(&self, k: usize) -> (r: Option<Tok>)
        ensures
            opt_tok_view(r) == tok_at(self.tv(), k as int),
    {
        if k < self.tokens.len() {
            Some(self.tokens[k].dup())
        } else {
            None
        }
    }

    fn is_lparen(&self, k: usize) -> (r: bool)
        ensures
            r == (tok_at(self.tv(), k as int) == Some(TokV::LParen)),
    {
        k < self.tokens.len() && matches!(self.tokens[k], Tok::LParen)
    }

    fn is_rparen(&self, k: usize) -> (r: bool)
        ensures
            r == (tok_at(self.tv(), k as int) == Some(TokV::RParen)),
    {
        k < self.tokens.len() && matches!(self.tokens[k], Tok::RParen)
    }

    fn is_comma(&self, k: usize) -> (r: bool)
        ensures
            r == (tok_at(self.tv(), k as int) == Some(TokV::Comma)),
    {
        k < self.tokens.len() && matches!(self.tokens[k], Tok::Comma)
    }

    fn is_dot(&self, k: usize) -> (r: bool)
        ensures
            r == (tok_at(self.tv(), k as int) == Some(TokV::Dot)),
    {
        k < self.tokens.len() && matches!(self.tokens[k], Tok::Dot)
    }

    fn parse_expr(&mut self, min_bp: u8) -> (r: Result<Expr, ParseError>)
        requires
            old(self).pos <= old(self).tokens@.len(),
        ensures
            final(self).tokens@ == old(self).tokens@,
            match r {
                Ok(e) => p_expr(old(self).tv(), old(self).pos as int, min_bp) == Ok::<
                    (ExprV, int),
                    ParseErrorV,
                >((expr_view(e), final(self).pos as int)) && old(self).pos < final(self).pos
                    <= final(self).tokens@.len(),
                Err(e) => p_expr(old(self).tv(), old(self).pos as int, min_bp) == Err::<
                    (ExprV, int),
                    ParseErrorV,
                >(error_view(e)),
            },
        decreases old(self).tokens@.len() - old(self).pos, 2int,
    {
        let start = self.pos;
        let ghost t = self.tv();
        let ghost toks = self.tokens@;
        let first = self.parse_primary();
        let mut lhs = match first {
            Ok(e) => e,
            Err(e) => {
                return Err(e);
            },
        };
        loop
            invariant
                self.tv() == t,
                self.tokens@ == toks,
                toks == old(self).tokens@,
                start == old(self).pos,
                start < self.pos <= self.tokens.len(),
                p_expr(t, start as int, min_bp) == p_loop(t, expr_view(lhs), self.pos as int, min_bp),
            decreases self.tokens@.len() - self.pos,
        {
            let p = self.pos;
            if p >= self.tokens.len() {
                return Ok(lhs);
            }
            if self.is_dot(p) {
                let next = self.tok(p + 1);
                match next {
                    Some(Tok::Ident(f)) => {
                        if self.is_lparen(p + 2) {
                            self.pos = p + 2;
                            let args = match self.parse_args() {
                                Ok(a) => a,
                                Err(e) => {
                                    return Err(e);
                                },
                            };
                            lhs = Expr::Method(Box::new(lhs), f, args);
                        } else {
                            self.pos = p + 2;
                            lhs = match lhs {
                                Expr::Path(parts) => {
                                    let mut parts = parts;
                                    let ghost before = parts@;
                                    parts.push(f);
                                    proof {
                                        assert(string_views(parts@) =~= string_views(before).push(
                                            f@,
                                        ));
                                    }
                                    Expr::Path(parts)
                                },
                                other => Expr::Method(Box::new(other), f, Vec::new()),
                            };
                            proof {
                                assert(expr_views(Seq::<Expr>::empty()) =~= Seq::<ExprV>::empty());
                            }
                        }
                    },
                    other => {
                        return Err(ParseError::ExpectedIdentAfterDot(other));
                    },
                }
            } else {
                let bp = Parser::get_precedence(&self.tokens[p]);
                if bp == 0 || bp < min_bp {
                    return Ok(lhs);
                }
                let op = op_of(&self.tokens[p]);
                self.pos = p + 1;
                let rhs = match self.parse_expr(bp + 1) {
                    Ok(e) => e,
                    Err(e) => {
                        return Err(e);
                    },
                };
                lhs = Expr::Binary(op, Box::new(lhs), Box::new(rhs));
            }
        }
    }

    fn parse_primary(&mut self) -> (r: Result<Expr, ParseError>)
        requires
            old(self).pos <= old(self).tokens@.len(),
        ensures
            final(self).tokens@ == old(self).tokens@,
            match r {
                Ok(e) => p_primary(old(self).tv(), old(self).pos as int) == Ok::<
                    (ExprV, int),
                    ParseErrorV,
                >((expr_view(e), final(self).pos as int)) && old(self).pos < final(self).pos
                    <= final(self).tokens@.len(),
                Err(e) => p_primary(old(self).tv(), old(self).pos as int) == Err::<
                    (ExprV, int),
                    ParseErrorV,
                >(error_view(e)),
            },
        decreases old(self).tokens@.len() - old(self).pos, 1int,
    {
        let p = self.pos;
        if p >= self.tokens.len() {
            return Err(ParseError::UnexpectedEof);
        }
        let tok = self.tokens[p].dup();
        self.pos = p + 1;
        match tok {
            Tok::Num(n) => Ok(Expr::Lit(Literal::Num(n))),
            Tok::Str(s) => Ok(Expr::Lit(Literal::Str(s))),
            Tok::Ident(id) => {
                if str_is(&id, "true") {
                    Ok(Expr::Lit(Literal::Bool(true)))
                } else if str_is(&id, "false") {
                    Ok(Expr::Lit(Literal::Bool(false)))
                } else if str_is(&id, "null") {
                    Ok(Expr::Lit(Literal::Null))
                } else if self.is_lparen(p + 1) {
                    match self.parse_args() {
                        Ok(args) => Ok(Expr::Call(id, args)),
                        Err(e) => Err(e),
                    }
                } else {
                    let mut parts: Vec<String> = Vec::new();
                    parts.push(id);
                    proof {
                        assert(string_views(parts@) =~= seq![parts@[0]@]);
                    }
                    Ok(Expr::Path(parts))
                }
            },
            Tok::LParen => {
                let e = match self.parse_expr(0) {
                    Ok(e) => e,
                    Err(e) => {
                        return Err(e);
                    },
                };
                let q = self.pos;
                if self.is_rparen(q) {
                    self.pos = q + 1;
                    Ok(e)
                } else {
                    Err(ParseError::ExpectedRParen(self.tok(q)))
                }
            },
            Tok::Minus => match self.parse_expr(6) {
                Ok(e) => Ok(Expr::Neg(Box::new(e))),
                Err(e) => Err(e),
            },
            Tok::Bang => match self.parse_expr(6) {
                Ok(e) => Ok(Expr::Not(Box::new(e))),
                Err(e) => Err(e),
            },
            other => Err(ParseError::UnexpectedToken(other)),
        }
    }

    fn parse_args(&mut self) -> (r: Result<Vec<Expr>, ParseError>)
        requires
            old(self).pos < old(self).tokens.len(),
        ensures
            final(self).tokens@ == old(self).tokens@,
            match r {
                Ok(args) => p_args(old(self).tv(), old(self).pos as int) == Ok::<
                    (Seq<ExprV>, int),
                    ParseErrorV,
                >((expr_views(args@), final(self).pos as int)) && old(self).pos < final(self).pos
                    <= final(self).tokens@.len(),
                Err(e) => p_args(old(self).tv(), old(self).pos as int) == Err::<
                    (Seq<ExprV>, int),
                    ParseErrorV,
                >(error_view(e)),
            },
        decreases old(self).tokens@.len() - old(self).pos, 0int,
    {
        let start = self.pos;
        let ghost t = self.tv();
        let ghost toks = self.tokens@;
        let mut args: Vec<Expr> = Vec::new();
        if self.is_rparen(start + 1) {
            self.pos = start + 2;
            proof {
                assert(expr_views(args@) =~= Seq::<ExprV>::empty());
            }
            return Ok(args);
        }
        self.pos = start + 1;
        proof {
            assert(expr_views(args@) =~= Seq::<ExprV>::empty());
        }
        loop
            invariant
                self.tv() == t,
                self.tokens@ == toks,
                toks == old(self).tokens@,
                start == old(self).pos,
                start < self.pos <= self.tokens.len(),
                p_args(t, start as int) == p_args_loop(t, expr_views(args@), self.pos as int),
            decreases self.tokens@.len() - self.pos,
        {
            let a = match self.parse_expr(0) {
                Ok(e) => e,
                Err(e) => {
                    return Err(e);
                },
            };
            let q = self.pos;
            let ghost before = args@;
            if self.is_comma(q) {
                args.push(a);
                proof {
                    assert(expr_views(args@) =~= expr_views(before).push(expr_view(a)));
                }
                self.pos = q + 1;
            } else if self.is_rparen(q) {
                args.push(a);
                proof {
                    assert(expr_views(args@) =~= expr_views(before).push(expr_view(a)));
                }
                self.pos = q + 1;
                return Ok(args);
            } else {
                return Err(ParseError::ExpectedCommaOrRParen(self.tok(q)));
            }
        }
    }
}

/// Reads a formula: its tokens (see `lex`) as one expression. Operators
/// bind by precedence (`||` loosest, then `&&`, the comparisons, `+` `-`,
/// `*` `/` `%`), all of them left-associative; unary `-` and `!` bind
/// tighter than every binary operator and `.name` tighter still. Tokens
/// after the expression are ignored.
pub fn parse(s: &str) -> (r: Result<Expr, ParseError>)
    ensures
        match r {
            Ok(e) => parse_spec(s@) == Ok::<ExprV, ParseErrorV>(expr_view(e)),
            Err(e) => parse_spec(s@) == Err::<ExprV, ParseErrorV>(error_view(e)),
        },
{
    let tokens = match lex(s) {
        Ok(ts) => ts,
        Err(e) => {
            return Err(ParseError::Lex(e));
        },
    };
    let mut parser = Parser { tokens, pos: 0 };
    parser.parse_expr(0)
}

} // verus!
