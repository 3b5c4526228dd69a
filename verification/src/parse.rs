//! The compiler front-end: source text in, executable unit or compile error
//! out. Compilation is deterministic — the unit is a function of the source
//! text alone — and defers all name resolution to execution time.
//!
//! Grammar: an expression is a sum of primaries separated by `+`; a primary
//! is an unsigned integer literal (at most 18 digits), a variable name, or a
//! call `name(e1, e2, ...)`; names start with a letter or `_` and continue
//! with letters, digits or `_`; blanks, tabs and line breaks may stand
//! between tokens.

use vstd::prelude::*;

use crate::ast::{lemma_view_args, view_args, Ast, SpecAst};
use crate::error::{Error, SpecError};

verus! {

pub open spec fn is_space(c: char) -> bool {
    c == ' ' || c == '\t' || c == '\n' || c == '\r'
}

pub open spec fn is_digit(c: char) -> bool {
    '0' as int <= c as int <= '9' as int
}

pub open spec fn is_ident_start(c: char) -> bool {
    ('a' as int <= c as int <= 'z' as int) || ('A' as int <= c as int <= 'Z' as int) || c == '_'
}

pub open spec fn is_ident_char(c: char) -> bool {
    is_ident_start(c) || is_digit(c)
}

/// The first position at or after `i` that does not hold white space.
pub open spec fn skip_ws(s: Seq<char>, i: int) -> int
    decreases s.len() - i,
{
    if 0 <= i < s.len() && is_space(s[i]) {
        skip_ws(s, i + 1)
    } else {
        i
    }
}

/// The end of the run of name characters starting at `i`.
pub open spec fn scan_ident(s: Seq<char>, i: int) -> int
    decreases s.len() - i,
{
    if 0 <= i < s.len() && is_ident_char(s[i]) {
        scan_ident(s, i + 1)
    } else {
        i
    }
}

/// The end of the run of digits starting at `i`.
pub open spec fn scan_digits(s: Seq<char>, i: int) -> int
    decreases s.len() - i,
{
    if 0 <= i < s.len() && is_digit(s[i]) {
        scan_digits(s, i + 1)
    } else {
        i
    }
}

pub open spec fn digit_val(c: char) -> int {
    c as int - '0' as int
}

/// The number the digits `s[i .. j]` denote, most significant first.
pub open spec fn digits_val(s: Seq<char>, i: int, j: int) -> int
    decreases j - i,
{
    if i < j {
        digits_val(s, i, j - 1) * 10 + digit_val(s[j - 1])
    } else {
        0
    }
}

pub open spec fn pow10(n: int) -> int
    decreases n,
{
    if n <= 0 {
        1
    } else {
        10 * pow10(n - 1)
    }
}

pub proof fn lemma_pow10_pos(n: int)
    ensures
        pow10(n) >= 1,
    decreases n,
{
    if n > 0 {
        lemma_pow10_pos(n - 1);
    }
}

pub proof fn lemma_pow10_mono(a: int, b: int)
    requires
        a <= b,
    ensures
        pow10(a) <= pow10(b),
        pow10(a) >= 1,
    decreases b - a,
{
    lemma_pow10_pos(a);
    if a < b {
        lemma_pow10_mono(a, b - 1);
    }
}

pub proof fn lemma_digits_val_bound(s: Seq<char>, i: int, j: int)
    requires
        i <= j,
        forall|k: int| i <= k < j ==> is_digit(s[k]),
    ensures
        0 <= digits_val(s, i, j) < pow10(j - i),
    decreases j - i,
{
    if i < j {
        lemma_digits_val_bound(s, i, j - 1);
        assert(pow10(j - i) == 10 * pow10(j - i - 1));
    }
}

/// A primary: an integer literal, a variable, or a call. Yields the node and
/// the position just after it.
pub open spec fn parse_primary(s: Seq<char>, i: int) -> Option<(SpecAst, int)>
    decreases s.len() - i, 1int,
{
    if !(0 <= i <= s.len()) {
        None
    } else {
        let k = skip_ws(s, i);
        if !(i <= k && k < s.len()) {
            None
        } else if is_digit(s[k]) {
            let j = scan_digits(s, k);
            if k < j <= s.len() && j - k <= 18 {
                Some((SpecAst::Int(digits_val(s, k, j) as i64), j))
            } else {
                None
            }
        } else if is_ident_start(s[k]) {
            let j = scan_ident(s, k);
            if k < j <= s.len() {
                if j < s.len() && s[j] == '(' {
                    match parse_args(s, j + 1) {
                        Some((args, m)) => Some((SpecAst::Call(s.subrange(k, j), args), m)),
                        None => None,
                    }
                } else {
                    Some((SpecAst::Var(s.subrange(k, j)), j))
                }
            } else {
                None
            }
        } else {
            None
        }
    }
}

/// The argument list of a call, entered just after the opening parenthesis.
/// Yields the arguments and the position just after the closing parenthesis.
pub open spec fn parse_args(s: Seq<char>, i: int) -> Option<(Seq<SpecAst>, int)>
    decreases s.len() - i, 4int,
{
    if !(0 <= i <= s.len()) {
        None
    } else {
        let k = skip_ws(s, i);
        if !(i <= k && k <= s.len()) {
            None
        } else if k < s.len() && s[k] == ')' {
            Some((Seq::empty(), k + 1))
        } else {
            match parse_expr(s, k) {
                Some((e, j)) => if k < j && j <= s.len() {
                    parse_args_rest(s, j, seq![e])
                } else {
                    None
                },
                None => None,
            }
        }
    }
}

/// Further arguments after the first, each preceded by a comma.
pub open spec fn parse_args_rest(s: Seq<char>, i: int, acc: Seq<SpecAst>) -> Option<
    (Seq<SpecAst>, int),
>
    decreases s.len() - i, 5int,
{
    if !(0 <= i <= s.len()) {
        None
    } else {
        let k = skip_ws(s, i);
        if !(i <= k && k < s.len()) {
            None
        } else if s[k] == ')' {
            Some((acc, k + 1))
        } else if s[k] == ',' {
            match parse_expr(s, k + 1) {
                Some((e, j)) => if k + 1 < j && j <= s.len() {
                    parse_args_rest(s, j, acc.push(e))
                } else {
                    None
                },
                None => None,
            }
        } else {
            None
        }
    }
}

/// A whole expression: a primary followed by any number of `+ primary`.
pub open spec fn parse_expr(s: Seq<char>, i: int) -> Option<(SpecAst, int)>
    decreases s.len() - i, 2int,
{
    if !(0 <= i <= s.len()) {
        None
    } else {
        match parse_primary(s, i) {
            Some((first, j)) => if i < j && j <= s.len() {
                parse_rest(s, j, first)
            } else {
                None
            },
            None => None,
        }
    }
}

/// The `+ primary` tail of a sum, folded left onto `left`.
pub open spec fn parse_rest(s: Seq<char>, i: int, left: SpecAst) -> Option<(SpecAst, int)>
    decreases s.len() - i, 3int,
{
    if !(0 <= i <= s.len()) {
        None
    } else {
        let k = skip_ws(s, i);
        if i <= k && k < s.len() && s[k] == '+' {
            match parse_primary(s, k + 1) {
                Some((rhs, j)) => if k + 1 < j && j <= s.len() {
                    parse_rest(s, j, SpecAst::Add(Box::new(left), Box::new(rhs)))
                } else {
                    None
                },
                None => None,
            }
        } else {
            Some((left, i))
        }
    }
}

/// What compiling a source text yields: the unit's model, or nothing when
/// the text is malformed. Compilation is a function of the source text alone.
pub open spec fn spec_compile(s: Seq<char>) -> Option<SpecAst> {
    match parse_expr(s, 0) {
        Some((a, j)) => if 0 <= j <= s.len() && skip_ws(s, j) == s.len() {
            Some(a)
        } else {
            None
        },
        None => None,
    }
}

fn ch_is_space(c: char) -> (b: bool)
    ensures
        b == is_space(c),
{
    c == ' ' || c == '\t' || c == '\n' || c == '\r'
}

fn ch_is_digit(c: char) -> (b: bool)
    ensures
        b == is_digit(c),
{
    let u = c as u32;
    48 <= u && u <= 57
}

fn ch_is_ident_start(c: char) -> (b: bool)
    ensures
        b == is_ident_start(c),
{
    let u = c as u32;
    (97 <= u && u <= 122) || (65 <= u && u <= 90) || u == 95
}

fn e_skip_ws(s: &str, n: usize, i: usize) -> (j: usize)
    requires
        n == s@.len(),
        i <= n,
    ensures
        j == skip_ws(s@, i as int),
        i <= j <= n,
{
    let mut j = i;
    while j < n
        invariant
            i <= j <= n,
            n == s@.len(),
            skip_ws(s@, i as int) == skip_ws(s@, j as int),
        decreases n - j,
    {
        let c = s.get_char(j);
        if !ch_is_space(c) {
            return j;
        }
        j = j + 1;
    }
    j
}

fn e_scan_ident(s: &str, n: usize, i: usize) -> (j: usize)
    requires
        n == s@.len(),
        i <= n,
    ensures
        j == scan_ident(s@, i as int),
        i <= j <= n,
        forall|t: int| i <= t < j ==> is_ident_char(s@[t]),
        j < n ==> !is_ident_char(s@[j as int]),
{
    let mut j = i;
    while j < n
        invariant
            i <= j <= n,
            n == s@.len(),
            scan_ident(s@, i as int) == scan_ident(s@, j as int),
            forall|t: int| i <= t < j ==> is_ident_char(s@[t]),
        decreases n - j,
    {
        let c = s.get_char(j);
        if !(ch_is_ident_start(c) || ch_is_digit(c)) {
            return j;
        }
        j = j + 1;
    }
    j
}

fn e_scan_digits(s: &str, n: usize, i: usize) -> (j: usize)
    requires
        n == s@.len(),
        i <= n,
    ensures
        j == scan_digits(s@, i as int),
        i <= j <= n,
        forall|t: int| i <= t < j ==> is_digit(s@[t]),
        j < n ==> !is_digit(s@[j as int]),
{
    let mut j = i;
    while j < n
        invariant
            i <= j <= n,
            n == s@.len(),
            scan_digits(s@, i as int) == scan_digits(s@, j as int),
            forall|t: int| i <= t < j ==> is_digit(s@[t]),
        decreases n - j,
    {
        let c = s.get_char(j);
        if !ch_is_digit(c) {
            return j;
        }
        j = j + 1;
    }
    j
}

fn p_primary(s: &str, n: usize, i: usize) -> (r: Option<(Ast, usize)>)
    requires
        n == s@.len(),
        i <= n,
    ensures
        match r {
            Some((a, j)) => parse_primary(s@, i as int) == Some((a@, j as int)) && i < j <= n,
            None => parse_primary(s@, i as int) is None,
        },
    decreases s@.len() - i, 1int,
{
    let k = e_skip_ws(s, n, i);
    if k == n {
        return None;
    }
    let c = s.get_char(k);
    if ch_is_digit(c) {
        let j = e_scan_digits(s, n, k);
        if j - k > 18 {
            return None;
        }
        let mut m = k;
        let mut acc: i64 = 0;
        while m < j
            invariant
                k <= m <= j <= n,
                j - k <= 18,
                n == s@.len(),
                forall|t: int| k <= t < j ==> is_digit(s@[t]),
                acc == digits_val(s@, k as int, m as int),
                0 <= acc < pow10(m - k),
            decreases j - m,
        {
            let c2 = s.get_char(m);
            let d = (c2 as u32) - 48;
            proof {
                lemma_pow10_mono(m - k, 17int);
                reveal_with_fuel(pow10, 19);
                assert(pow10(17) == 100_000_000_000_000_000int);
            }
            acc = acc * 10 + (d as i64);
            m = m + 1;
        }
        proof {
            lemma_digits_val_bound(s@, k as int, j as int);
            lemma_pow10_mono(j - k, 18int);
            reveal_with_fuel(pow10, 20);
            assert(pow10(18) == 1_000_000_000_000_000_000int);
        }
        return Some((Ast::Int(acc), j));
    }
    if ch_is_ident_start(c) {
        let j = e_scan_ident(s, n, k);
        let name = s.substring_char(k, j).to_owned();
        if j < n {
            let c2 = s.get_char(j);
            if c2 == '(' {
                return match p_args(s, n, j + 1) {
                    None => None,
                    Some((args, m)) => Some((Ast::Call(name, args), m)),
                };
            }
        }
        return Some((Ast::Var(name), j));
    }
    None
}

fn p_args(s: &str, n: usize, i: usize) -> (r: Option<(Vec<Ast>, usize)>)
    requires
        n == s@.len(),
        i <= n,
    ensures
        match r {
            Some((v, m)) => parse_args(s@, i as int) == Some((view_args(v@), m as int)) && i < m
                <= n,
            None => parse_args(s@, i as int) is None,
        },
    decreases s@.len() - i, 4int,
{
    let k = e_skip_ws(s, n, i);
    if k < n {
        let c = s.get_char(k);
        if c == ')' {
            let empty: Vec<Ast> = Vec::new();
            proof {
                assert(view_args(empty@) =~= Seq::<SpecAst>::empty());
            }
            return Some((empty, k + 1));
        }
    }
    match p_expr(s, n, k) {
        None => None,
        Some((e, j)) => {
            let mut acc: Vec<Ast> = Vec::new();
            acc.push(e);
            proof {
                lemma_view_args(acc@);
                assert(view_args(acc@) =~= seq![e@]);
            }
            p_args_rest(s, n, j, acc)
        },
    }
}

fn p_args_rest(s: &str, n: usize, i: usize, acc: Vec<Ast>) -> (r: Option<(Vec<Ast>, usize)>)
    requires
        n == s@.len(),
        i <= n,
    ensures
        match r {
            Some((v, m)) => parse_args_rest(s@, i as int, view_args(acc@)) == Some(
                (view_args(v@), m as int),
            ) && i < m <= n,
            None => parse_args_rest(s@, i as int, view_args(acc@)) is None,
        },
    decreases s@.len() - i, 5int,
{
    let k = e_skip_ws(s, n, i);
    if k == n {
        return None;
    }
    let c = s.get_char(k);
    if c == ')' {
        return Some((acc, k + 1));
    }
    if c == ',' {
        match p_expr(s, n, k + 1) {
            None => None,
            Some((e, j)) => {
                let mut acc2 = acc;
                acc2.push(e);
                proof {
                    lemma_view_args(acc2@);
                    lemma_view_args(acc@);
                    assert(view_args(acc2@) =~= view_args(acc@).push(e@));
                }
                p_args_rest(s, n, j, acc2)
            },
        }
    } else {
        None
    }
}

fn p_expr(s: &str, n: usize, i: usize) -> (r: Option<(Ast, usize)>)
    requires
        n == s@.len(),
        i <= n,
    ensures
        match r {
            Some((a, j)) => parse_expr(s@, i as int) == Some((a@, j as int)) && i < j <= n,
            None => parse_expr(s@, i as int) is None,
        },
    decreases s@.len() - i, 2int,
{
    match p_primary(s, n, i) {
        None => None,
        Some((first, j)) => p_rest(s, n, j, first),
    }
}

fn p_rest(s: &str, n: usize, i: usize, left: Ast) -> (r: Option<(Ast, usize)>)
    requires
        n == s@.len(),
        i <= n,
    ensures
        match r {
            Some((a, j)) => parse_rest(s@, i as int, left@) == Some((a@, j as int)) && i <= j <= n,
            None => parse_rest(s@, i as int, left@) is None,
        },
    decreases s@.len() - i, 3int,
{
    let k = e_skip_ws(s, n, i);
    if k < n {
        let c = s.get_char(k);
        if c == '+' {
            return match p_primary(s, n, k + 1) {
                None => None,
                Some((rhs, j)) => p_rest(s, n, j, Ast::Add(Box::new(left), Box::new(rhs))),
            };
        }
    }
    Some((left, i))
}

/// Compile a source text into an executable unit. Identical source text
/// always yields a unit with the same model; malformed text yields the
/// compile error.
pub fn compile_source(s: &str) -> (r: Result<Ast, Error>)
    ensures
        match r {
            Ok(a) => spec_compile(s@) == Some(a@),
            Err(e) => spec_compile(s@) is None && e@ == SpecError::Compile,
        },
{
    let n = s.unicode_len();
    match p_expr(s, n, 0) {
        None => Err(Error::Compile),
        Some((a, j)) => {
            let t = e_skip_ws(s, n, j);
            if t == n {
                Ok(a)
            } else {
                Err(Error::Compile)
            }
        },
    }
}

} // verus!
