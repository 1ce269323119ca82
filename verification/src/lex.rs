//! The tokens of the formula language of `.base` views.
use vstd::prelude::*;
use crate::text::{
    chars_of, is_alphabetic, is_alphanumeric, is_ascii_digit, is_digit, is_whitespace, is_ws,
    string_of, sub_vec, unicode_alphabetic, unicode_alphanumeric,
};

verus! {

/// A token. A number keeps the text of its literal: its digits, and a
/// fraction part when a `'.'` is followed by a digit.
#[derive(Debug, Clone, PartialEq)]
pub enum Tok {
    Num(String),
    Str(String),
    Ident(String),
    Plus,
    Minus,
    Star,
    Slash,
    Percent,
    EqEq,
    BangEq,
    Gt,
    Lt,
    GtEq,
    LtEq,
    Bang,
    AndAnd,
    OrOr,
    LParen,
    RParen,
    Dot,
    Comma,
}

/// The model of a token.
pub enum TokV {
    Num(Seq<char>),
    Str(Seq<char>),
    Ident(Seq<char>),
    Plus,
    Minus,
    Star,
    Slash,
    Percent,
    EqEq,
    BangEq,
    Gt,
    Lt,
    GtEq,
    LtEq,
    Bang,
    AndAnd,
    OrOr,
    LParen,
    RParen,
    Dot,
    Comma,
}

impl View for Tok {
    type V = TokV;

    open spec fn view(&self) -> TokV {
        match self {
            Tok::Num(s) => TokV::Num(s@),
            Tok::Str(s) => TokV::Str(s@),
            Tok::Ident(s) => TokV::Ident(s@),
            Tok::Plus => TokV::Plus,
            Tok::Minus => TokV::Minus,
            Tok::Star => TokV::Star,
            Tok::Slash => TokV::Slash,
            Tok::Percent => TokV::Percent,
            Tok::EqEq => TokV::EqEq,
            Tok::BangEq => TokV::BangEq,
            Tok::Gt => TokV::Gt,
            Tok::Lt => TokV::Lt,
            Tok::GtEq => TokV::GtEq,
            Tok::LtEq => TokV::LtEq,
            Tok::Bang => TokV::Bang,
            Tok::AndAnd => TokV::AndAnd,
            Tok::OrOr => TokV::OrOr,
            Tok::LParen => TokV::LParen,
            Tok::RParen => TokV::RParen,
            Tok::Dot => TokV::Dot,
            Tok::Comma => TokV::Comma,
        }
    }
}

/// Tokens as values.
pub open spec fn tok_views(v: Seq<Tok>) -> Seq<TokV> {
    v.map_values(|t: Tok| t@)
}

impl Tok {
    /// A copy of this token.
    pub fn dup(&self) -> (r: Tok)
        ensures
            r@ == self@,
    {
        match self {
            Tok::Num(s) => Tok::Num(s.clone()),
            Tok::Str(s) => Tok::Str(s.clone()),
            Tok::Ident(s) => Tok::Ident(s.clone()),
            Tok::Plus => Tok::Plus,
            Tok::Minus => Tok::Minus,
            Tok::Star => Tok::Star,
            Tok::Slash => Tok::Slash,
            Tok::Percent => Tok::Percent,
            Tok::EqEq => Tok::EqEq,
            Tok::BangEq => Tok::BangEq,
            Tok::Gt => Tok::Gt,
            Tok::Lt => Tok::Lt,
            Tok::GtEq => Tok::GtEq,
            Tok::LtEq => Tok::LtEq,
            Tok::Bang => Tok::Bang,
            Tok::AndAnd => Tok::AndAnd,
            Tok::OrOr => Tok::OrOr,
            Tok::LParen => Tok::LParen,
            Tok::RParen => Tok::RParen,
            Tok::Dot => Tok::Dot,
            Tok::Comma => Tok::Comma,
        }
    }
}

/// Why a formula could not be split into tokens.
#[derive(Debug, Clone, Copy, PartialEq, Eq, Structural)]
pub enum LexError {
    /// A `'='` not followed by `'='`.
    LoneEquals,
    /// A `'&'` not followed by `'&'`.
    LoneAmpersand,
    /// A `'|'` not followed by `'|'`.
    LonePipe,
    /// A string literal without its closing quote.
    UnterminatedString,
    /// A character that starts no token.
    UnexpectedChar(char),
}

// ---------------------------------------------------------------------------
// The token sequence of a text
// ---------------------------------------------------------------------------

/// Number of leading ASCII digits of `s[i..]`.
pub open spec fn digits_from(s: Seq<char>, i: int) -> nat
    decreases s.len() - i,
{
    if 0 <= i < s.len() && is_digit(s[i]) {
        1 + digits_from(s, i + 1)
    } else {
        0
    }
}

/// Number of leading identifier characters (Unicode alphanumeric or `'_'`)
/// of `s[i..]`.
pub open spec fn ident_chars_from(s: Seq<char>, i: int) -> nat
    decreases s.len() - i,
{
    if 0 <= i < s.len() && (unicode_alphanumeric(s[i]) || s[i] == '_') {
        1 + ident_chars_from(s, i + 1)
    } else {
        0
    }
}

/// The escape `'\\' c` stands for.
pub open spec fn unescape(c: char) -> char {
    if c == 'n' {
        '\n'
    } else if c == 't' {
        '\t'
    } else if c == 'r' {
        '\r'
    } else {
        c
    }
}

/// The body of a string literal that starts at `s[i]` (just after its
/// opening quote `q`), and the index just past its closing quote; `None`
/// when the literal is not closed.
pub open spec fn string_body(s: Seq<char>, i: int, q: char) -> Option<(Seq<char>, int)>
    decreases s.len() - i,
{
    if i < 0 || i >= s.len() {
        None
    } else if s[i] == '\\' {
        if i + 1 >= s.len() {
            None
        } else {
            match string_body(s, i + 2, q) {
                Some((b, e)) => Some((seq![unescape(s[i + 1])] + b, e)),
                None => None,
            }
        }
    } else if s[i] == q {
        Some((seq![], i + 1))
    } else {
        match string_body(s, i + 1, q) {
            Some((b, e)) => Some((seq![s[i]] + b, e)),
            None => None,
        }
    }
}

/// The end of the number literal that starts at `s[i]`: its digits, then
/// a `'.'` and more digits when the `'.'` is followed by a digit.
pub open spec fn number_end(s: Seq<char>, i: int) -> int {
    let k = i + digits_from(s, i);
    if k + 1 < s.len() && s[k] == '.' && is_digit(s[k + 1]) {
        k + 1 + digits_from(s, k + 1)
    } else {
        k
    }
}

/// The one- or two-character token of an operator character, with its
/// length; `None` for any other character.
pub open spec fn operator_at(s: Seq<char>, i: int) -> Option<Result<(TokV, int), LexError>> {
    let c = s[i];
    let next_is_eq = i + 1 < s.len() && s[i + 1] == '=';
    if c == '+' {
        Some(Ok((TokV::Plus, 1)))
    } else if c == '-' {
        Some(Ok((TokV::Minus, 1)))
    } else if c == '*' {
        Some(Ok((TokV::Star, 1)))
    } else if c == '/' {
        Some(Ok((TokV::Slash, 1)))
    } else if c == '%' {
        Some(Ok((TokV::Percent, 1)))
    } else if c == '(' {
        Some(Ok((TokV::LParen, 1)))
    } else if c == ')' {
        Some(Ok((TokV::RParen, 1)))
    } else if c == '.' {
        Some(Ok((TokV::Dot, 1)))
    } else if c == ',' {
        Some(Ok((TokV::Comma, 1)))
    } else if c == '=' {
        Some(if next_is_eq { Ok((TokV::EqEq, 2)) } else { Err(LexError::LoneEquals) })
    } else if c == '!' {
        Some(Ok(if next_is_eq { (TokV::BangEq, 2) } else { (TokV::Bang, 1) }))
    } else if c == '>' {
        Some(Ok(if next_is_eq { (TokV::GtEq, 2) } else { (TokV::Gt, 1) }))
    } else if c == '<' {
        Some(Ok(if next_is_eq { (TokV::LtEq, 2) } else { (TokV::Lt, 1) }))
    } else if c == '&' {
        Some(
            if i + 1 < s.len() && s[i + 1] == '&' {
                Ok((TokV::AndAnd, 2))
            } else {
                Err(LexError::LoneAmpersand)
            },
        )
    } else if c == '|' {
        Some(
            if i + 1 < s.len() && s[i + 1] == '|' {
                Ok((TokV::OrOr, 2))
            } else {
                Err(LexError::LonePipe)
            },
        )
    } else {
        None
    }
}

/// The token that starts at `s[i]` (which is not white space) and the index
/// just past it, or why no token starts there.
pub open spec fn token_at(s: Seq<char>, i: int) -> Result<(TokV, int), LexError> {
    let c = s[i];
    match operator_at(s, i) {
        Some(Ok((t, n))) => Ok((t, i + n)),
        Some(Err(e)) => Err(e),
        None => if c == '"' || c == '\'' {
            match string_body(s, i + 1, c) {
                Some((b, e)) => Ok((TokV::Str(b), e)),
                None => Err(LexError::UnterminatedString),
            }
        } else if is_digit(c) {
            Ok((TokV::Num(s.subrange(i, number_end(s, i))), number_end(s, i)))
        } else if unicode_alphabetic(c) || c == '_' {
            let e = i + 1 + ident_chars_from(s, i + 1);
            Ok((TokV::Ident(s.subrange(i, e)), e))
        } else {
            Err(LexError::UnexpectedChar(c))
        },
    }
}

/// A run of digits stays within the text and ends before a non-digit.
pub proof fn lemma_digits_bound(s: Seq<char>, i: int)
    requires
        0 <= i <= s.len(),
    ensures
        i + digits_from(s, i) <= s.len(),
        forall|j: int| i <= j < i + digits_from(s, i) ==> is_digit(#[trigger] s[j]),
        i + digits_from(s, i) < s.len() ==> !is_digit(s[i + digits_from(s, i)]),
    decreases s.len() - i,
{
    if i < s.len() && is_digit(s[i]) {
        lemma_digits_bound(s, i + 1);
    }
}

/// A run of identifier characters stays within the text.
pub proof fn lemma_ident_bound(s: Seq<char>, i: int)
    requires
        0 <= i <= s.len(),
    ensures
        i + ident_chars_from(s, i) <= s.len(),
    decreases s.len() - i,
{
    if i < s.len() && (unicode_alphanumeric(s[i]) || s[i] == '_') {
        lemma_ident_bound(s, i + 1);
    }
}

/// A string literal that closes ends within the text, past its start.
pub proof fn lemma_string_body_bound(s: Seq<char>, i: int, q: char)
    requires
        0 <= i,
    ensures
        string_body(s, i, q) matches Some((b, e)) ==> i < e <= s.len(),
    decreases s.len() - i,
{
    if 0 <= i < s.len() {
        if s[i] == '\\' {
            if i + 1 < s.len() {
                lemma_string_body_bound(s, i + 2, q);
            }
        } else if s[i] != q {
            lemma_string_body_bound(s, i + 1, q);
        }
    }
}

/// Each token read moves forward and stays within the text.
pub proof fn lemma_token_advances(s: Seq<char>, i: int)
    requires
        0 <= i < s.len(),
    ensures
        token_at(s, i) matches Ok((t, e)) ==> i < e <= s.len(),
{
    lemma_string_body_bound(s, i + 1, s[i]);
    lemma_digits_bound(s, i);
    let k = i + digits_from(s, i);
    if k + 1 < s.len() {
        lemma_digits_bound(s, k + 1);
    }
    lemma_ident_bound(s, i + 1);
}

/// The tokens of `s[i..]`, or the first error met there. White space
/// separates tokens and is otherwise skipped.
pub open spec fn lex_from(s: Seq<char>, i: int) -> Result<Seq<TokV>, LexError>
    decreases s.len() - i,
{
    if i < 0 || i >= s.len() {
        Ok(seq![])
    } else if is_ws(s[i]) {
        lex_from(s, i + 1)
    } else {
        match token_at(s, i) {
            Err(e) => Err(e),
            Ok((t, e)) => if i < e <= s.len() {
                match lex_from(s, e) {
                    Ok(ts) => Ok(seq![t] + ts),
                    Err(err) => Err(err),
                }
            } else {
                Ok(seq![])
            },
        }
    }
}

/// The tokens of a formula text.
pub open spec fn lex_spec(s: Seq<char>) -> Result<Seq<TokV>, LexError> {
    lex_from(s, 0)
}

/// `done` followed by the tokens of `rest`.
pub open spec fn after(done: Seq<TokV>, rest: Result<Seq<TokV>, LexError>) -> Result<
    Seq<TokV>,
    LexError,
> {
    match rest {
        Ok(ts) => Ok(done + ts),
        Err(e) => Err(e),
    }
}

// ---------------------------------------------------------------------------
// The lexer
// ---------------------------------------------------------------------------

fn scan_digits(s: &Vec<char>, i: usize) -> (k: usize)
    requires
        i <= s@.len(),
    ensures
        k == i + digits_from(s@, i as int),
        k <= s@.len(),
{
    proof {
        lemma_digits_bound(s@, i as int);
    }
    let mut k = i;
    while k < s.len() && is_ascii_digit(s[k])
        invariant
            i <= k <= s@.len(),
            i + digits_from(s@, i as int) == k + digits_from(s@, k as int),
        decreases s.len() - k,
    {
        k = k + 1;
    }
    k
}

fn scan_ident(s: &Vec<char>, i: usize) -> (k: usize)
    requires
        i <= s@.len(),
    ensures
        k == i + ident_chars_from(s@, i as int),
        k <= s@.len(),
{
    proof {
        lemma_ident_bound(s@, i as int);
    }
    let mut k = i;
    while k < s.len() && (is_alphanumeric(s[k]) || s[k] == '_')
        invariant
            i <= k <= s@.len(),
            i + ident_chars_from(s@, i as int) == k + ident_chars_from(s@, k as int),
        decreases s.len() - k,
    {
        k = k + 1;
    }
    k
}

/// The string literal whose body starts at `s[i]`.
fn scan_string(s: &Vec<char>, i: usize, q: char) -> (r: Option<(Vec<char>, usize)>)
    requires
        i <= s@.len(),
    ensures
        match r {
            Some((b, e)) => string_body(s@, i as int, q) == Some((b@, e as int)),
            None => string_body(s@, i as int, q) is None,
        },
{
    let mut body: Vec<char> = Vec::new();
    let mut j = i;
    while j < s.len()
        invariant
            i <= j <= s@.len(),
            string_body(s@, i as int, q) == match string_body(s@, j as int, q) {
                Some((b, e)) => Some((body@ + b, e)),
                None => None,
            },
        decreases s.len() - j,
    {
        let c = s[j];
        if c == '\\' {
            if j + 1 >= s.len() {
                return None;
            }
            let n = s[j + 1];
            let u = if n == 'n' {
                '\n'
            } else if n == 't' {
                '\t'
            } else if n == 'r' {
                '\r'
            } else {
                n
            };
            let ghost before = body@;
            body.push(u);
            proof {
                assert forall|b: Seq<char>| #![auto] before + (seq![u] + b) =~= body@ + b by {}
            }
            j = j + 2;
            if j > s.len() {
                return None;
            }
        } else if c == q {
            proof {
                assert(body@ + seq![] =~= body@);
            }
            return Some((body, j + 1));
        } else {
            let ghost before = body@;
            body.push(c);
            proof {
                assert forall|b: Seq<char>| #![auto] before + (seq![c] + b) =~= body@ + b by {}
            }
            j = j + 1;
        }
    }
    None
}

/// Splits a formula into tokens. White space between tokens is skipped; a
/// character that cannot start a token, a lone `'='`, `'&'` or `'|'`, and
/// an unterminated string literal are errors.
pub fn lex(input: &str) -> (r: Result<Vec<Tok>, LexError>)
    ensures
        match r {
            Ok(ts) => lex_spec(input@) == Ok::<Seq<TokV>, LexError>(tok_views(ts@)),
            Err(e) => lex_spec(input@) == Err::<Seq<TokV>, LexError>(e),
        },
{
    let s = chars_of(input);
    let mut tokens: Vec<Tok> = Vec::new();
    let mut i: usize = 0;
    while i < s.len()
        invariant
            s@ == input@,
            i <= s@.len(),
            lex_spec(input@) == after(tok_views(tokens@), lex_from(s@, i as int)),
        decreases s.len() - i,
    {
        let c = s[i];
        if is_whitespace(c) {
            i = i + 1;
            continue;
        }
        proof {
            lemma_token_advances(s@, i as int);
        }
        let next_is_eq = i + 1 < s.len() && s[i + 1] == '=';
        let (tok, e): (Tok, usize) = if c == '+' {
            (Tok::Plus, i + 1)
        } else if c == '-' {
            (Tok::Minus, i + 1)
        } else if c == '*' {
            (Tok::Star, i + 1)
        } else if c == '/' {
            (Tok::Slash, i + 1)
        } else if c == '%' {
            (Tok::Percent, i + 1)
        } else if c == '(' {
            (Tok::LParen, i + 1)
        } else if c == ')' {
            (Tok::RParen, i + 1)
        } else if c == '.' {
            (Tok::Dot, i + 1)
        } else if c == ',' {
            (Tok::Comma, i + 1)
        } else if c == '=' {
            if next_is_eq {
                (Tok::EqEq, i + 2)
            } else {
                return Err(LexError::LoneEquals);
            }
        } else if c == '!' {
            if next_is_eq {
                (Tok::BangEq, i + 2)
            } else {
                (Tok::Bang, i + 1)
            }
        } else if c == '>' {
            if next_is_eq {
                (Tok::GtEq, i + 2)
            } else {
                (Tok::Gt, i + 1)
            }
        } else if c == '<' {
            if next_is_eq {
                (Tok::LtEq, i + 2)
            } else {
                (Tok::Lt, i + 1)
            }
        } else if c == '&' {
            if i + 1 < s.len() && s[i + 1] == '&' {
                (Tok::AndAnd, i + 2)
            } else {
                return Err(LexError::LoneAmpersand);
            }
        } else if c == '|' {
            if i + 1 < s.len() && s[i + 1] == '|' {
                (Tok::OrOr, i + 2)
            } else {
                return Err(LexError::LonePipe);
            }
        } else if c == '"' || c == '\'' {
            match scan_string(&s, i + 1, c) {
                Some((body, e)) => (Tok::Str(string_of(&body)), e),
                None => {
                    return Err(LexError::UnterminatedString);
                },
            }
        } else if is_ascii_digit(c) {
            let k = scan_digits(&s, i);
            let e = if k < s.len() && k + 1 < s.len() && s[k] == '.' && is_ascii_digit(s[k + 1]) {
                scan_digits(&s, k + 1)
            } else {
                k
            };
            proof {
                lemma_digits_bound(s@, i as int);
                if k + 1 < s@.len() {
                    lemma_digits_bound(s@, k + 1);
                }
            }
            let text = sub_vec(&s, i, e);
            (Tok::Num(string_of(&text)), e)
        } else if is_alphabetic(c) || c == '_' {
            let e = scan_ident(&s, i + 1);
            proof {
                lemma_ident_bound(s@, i + 1);
            }
            let text = sub_vec(&s, i, e);
            (Tok::Ident(string_of(&text)), e)
        } else {
            return Err(LexError::UnexpectedChar(c));
        };
        proof {
            assert(token_at(s@, i as int) == Ok::<(TokV, int), LexError>((tok@, e as int)));
        }
        let ghost before = tok_views(tokens@);
        tokens.push(tok);
        proof {
            assert(tok_views(tokens@) =~= before.push(tok@));
            match lex_from(s@, e as int) {
                Ok(ts) => {
                    assert(before + (seq![tok@] + ts) =~= tok_views(tokens@) + ts);
                },
                Err(_) => {},
            }
        }
        i = e;
    }
    proof {
        assert(tok_views(tokens@) + seq![] =~= tok_views(tokens@));
    }
    Ok(tokens)
}

} // verus!
