//! Tokenizer for the `bind_js!` input language: the subset of Rust tokens that the
//! binding syntax uses (identifiers, string literals, numbers, punctuation, delimiters),
//! with whitespace and ordinary comments skipped.
use vstd::prelude::*;
use crate::text::{is_unicode_ws, pow16};

verus! {

/// A token, as the parser sees it.
pub enum TokenV {
    /// An identifier (raw identifiers keep their `r#` prefix).
    Ident(Seq<char>),
    /// A string literal, by the value it denotes (escapes resolved).
    Str(Seq<char>),
    /// A numeric literal.
    Num,
    /// A single punctuation character.
    Punct(char),
    /// The two-character path separator `::`.
    PathSep,
    /// An opening delimiter: `(`, `[` or `{`.
    Open(char),
    /// A closing delimiter: `)`, `]` or `}`.
    Close(char),
    /// An outer doc comment (`/// ...` or `/** ... */`), which stands for a `#[doc = ...]`
    /// attribute.
    Doc,
}

/// Executable token; its view is a [`TokenV`].
pub enum Token {
    Ident(Vec<char>),
    Str(Vec<char>),
    Num,
    Punct(char),
    PathSep,
    Open(char),
    Close(char),
    Doc,
}

impl View for Token {
    type V = TokenV;

    open spec fn view(&self) -> TokenV {
        match self {
            Token::Ident(v) => TokenV::Ident(v@),
            Token::Str(v) => TokenV::Str(v@),
            Token::Num => TokenV::Num,
            Token::Punct(c) => TokenV::Punct(*c),
            Token::PathSep => TokenV::PathSep,
            Token::Open(c) => TokenV::Open(*c),
            Token::Close(c) => TokenV::Close(*c),
            Token::Doc => TokenV::Doc,
        }
    }
}

pub open spec fn tokens_view(v: Seq<Token>) -> Seq<TokenV> {
    v.map_values(|t: Token| t@)
}

pub open spec fn is_digit(c: char) -> bool {
    '0' <= c && c <= '9'
}

/// What `unicode_ident::is_xid_start` returns: whether `c` has the Unicode property
/// XID_Start.
pub uninterp spec fn xid_start(c: char) -> bool;

/// What `unicode_ident::is_xid_continue` returns: whether `c` has the Unicode property
/// XID_Continue.
pub uninterp spec fn xid_continue(c: char) -> bool;

/// Calls `unicode_ident::is_xid_start`, a lookup in fixed Unicode tables.
#[verifier::external_body]
fn unicode_xid_start(c: char) -> (r: bool)
    ensures
        r == xid_start(c),
{
    unicode_ident::is_xid_start(c)
}

/// Calls `unicode_ident::is_xid_continue`, a lookup in fixed Unicode tables.
#[verifier::external_body]
fn unicode_xid_continue(c: char) -> (r: bool)
    ensures
        r == xid_continue(c),
{
    unicode_ident::is_xid_continue(c)
}

/// A character that can start an identifier: an ASCII letter, `_`, or a non-ASCII
/// XID_Start character.
pub open spec fn is_ident_start(c: char) -> bool {
    ('a' <= c && c <= 'z') || ('A' <= c && c <= 'Z') || c == '_' || ('\u{7f}' < c && xid_start(
        c,
    ))
}

/// A character that can continue an identifier: one that can start it, an ASCII digit,
/// or a non-ASCII XID_Continue character.
pub open spec fn is_ident_continue(c: char) -> bool {
    is_ident_start(c) || is_digit(c) || ('\u{7f}' < c && xid_continue(c))
}

/// Whitespace between tokens: Unicode white space plus the left-to-right and
/// right-to-left marks.
pub open spec fn is_rust_ws(c: char) -> bool {
    is_unicode_ws(c) || c == '\u{200e}' || c == '\u{200f}'
}

/// Characters that form one-character punctuation tokens.
pub open spec fn is_punct_char(c: char) -> bool {
    ||| c == '~' ||| c == '!' ||| c == '@' ||| c == '#' ||| c == '$' ||| c == '%'
    ||| c == '^' ||| c == '&' ||| c == '*' ||| c == '-' ||| c == '=' ||| c == '+'
    ||| c == '|' ||| c == ';' ||| c == ':' ||| c == ',' ||| c == '<' ||| c == '.'
    ||| c == '>' ||| c == '/' ||| c == '?'
}

pub open spec fn is_open_char(c: char) -> bool {
    c == '(' || c == '[' || c == '{'
}

pub open spec fn is_close_char(c: char) -> bool {
    c == ')' || c == ']' || c == '}'
}

/// The closing delimiter that matches an opening one.
pub open spec fn closer_of(c: char) -> char {
    if c == '(' {
        ')'
    } else if c == '[' {
        ']'
    } else {
        '}'
    }
}

pub open spec fn is_hex(c: char) -> bool {
    is_digit(c) || ('a' <= c && c <= 'f') || ('A' <= c && c <= 'F')
}

pub open spec fn hex_value(c: char) -> nat {
    if is_digit(c) {
        (c as u32 - '0' as u32) as nat
    } else if 'a' <= c && c <= 'f' {
        (c as u32 - 'a' as u32 + 10) as nat
    } else {
        (c as u32 - 'A' as u32 + 10) as nat
    }
}

/// Index just past the run of identifier characters that starts at `i`.
pub open spec fn ident_end(s: Seq<char>, i: int) -> int
    decreases s.len() - i,
{
    if 0 <= i < s.len() && is_ident_continue(s[i]) {
        ident_end(s, i + 1)
    } else {
        i
    }
}

/// Index of the first newline at or after `i`, or the end of `s`.
pub open spec fn line_end(s: Seq<char>, i: int) -> int
    decreases s.len() - i,
{
    if 0 <= i < s.len() && s[i] != '\n' {
        line_end(s, i + 1)
    } else {
        i
    }
}

/// Index just past the `*/` that closes a block comment whose body starts at `i`,
/// `depth` comments being open; block comments nest.
pub open spec fn block_end(s: Seq<char>, i: int, depth: nat) -> Option<int>
    decreases s.len() - i,
{
    if i < 0 || i + 1 >= s.len() {
        None
    } else if s[i] == '*' && s[i + 1] == '/' {
        if depth <= 1 {
            Some(i + 2)
        } else {
            block_end(s, i + 2, (depth - 1) as nat)
        }
    } else if s[i] == '/' && s[i + 1] == '*' {
        block_end(s, i + 2, depth + 1)
    } else {
        block_end(s, i + 1, depth)
    }
}

/// The character denoted by a simple escape `\e`, if `e` is one.
pub open spec fn simple_escape(e: char) -> Option<char> {
    if e == 'n' {
        Some('\n')
    } else if e == 'r' {
        Some('\r')
    } else if e == 't' {
        Some('\t')
    } else if e == '0' {
        Some('\0')
    } else if e == '\\' {
        Some('\\')
    } else if e == '\'' {
        Some('\'')
    } else if e == '"' {
        Some('"')
    } else {
        None
    }
}

/// A code point that is a `char`: at most `0x10FFFF` and not a surrogate.
pub open spec fn is_char_code(v: nat) -> bool {
    v <= 0x10FFFF && !(0xD800 <= v && v <= 0xDFFF)
}

/// Reads the digits of a `\u{...}` escape from `j` (just past the `{`): hexadecimal digits,
/// at most six, with underscores allowed after the first; `val` and `count` are the value
/// and number of digits read so far. Returns the value and the index just past the `}`.
pub open spec fn hex_run(s: Seq<char>, j: int, val: nat, count: nat) -> Option<(nat, int)>
    decreases s.len() - j,
{
    if j < 0 || j >= s.len() {
        None
    } else if s[j] == '}' {
        if count >= 1 {
            Some((val, j + 1))
        } else {
            None
        }
    } else if s[j] == '_' && count >= 1 {
        hex_run(s, j + 1, val, count)
    } else if is_hex(s[j]) && count < 6 {
        hex_run(s, j + 1, val * 16 + hex_value(s[j]), count + 1)
    } else {
        None
    }
}

/// Scans the body of a string literal from `i` (just past the opening quote or inside it).
/// `acc` is the value read so far; `skipping` is set after a backslash-newline, while the
/// white space that follows it is dropped. Returns the value and the index just past the
/// closing quote.
pub open spec fn scan_str(s: Seq<char>, i: int, acc: Seq<char>, skipping: bool) -> Option<(Seq<char>, int)>
    decreases s.len() - i, (if skipping { 1int } else { 0int }),
{
    if i < 0 || i >= s.len() {
        None
    } else if skipping {
        if s[i] == ' ' || s[i] == '\t' || s[i] == '\n' || s[i] == '\r' {
            scan_str(s, i + 1, acc, true)
        } else {
            scan_str(s, i, acc, false)
        }
    } else if s[i] == '"' {
        Some((acc, i + 1))
    } else if s[i] == '\r' {
        if i + 1 < s.len() && s[i + 1] == '\n' {
            scan_str(s, i + 2, acc.push('\n'), false)
        } else {
            None
        }
    } else if s[i] == '\\' {
        if i + 1 >= s.len() {
            None
        } else if simple_escape(s[i + 1]) is Some {
            scan_str(s, i + 2, acc.push(simple_escape(s[i + 1])->0), false)
        } else if s[i + 1] == '\n' {
            scan_str(s, i + 2, acc, true)
        } else if s[i + 1] == 'x' && i + 3 < s.len() && '0' <= s[i + 2] && s[i + 2] <= '7'
            && is_hex(s[i + 3]) {
            scan_str(
                s,
                i + 4,
                acc.push((hex_value(s[i + 2]) * 16 + hex_value(s[i + 3])) as char),
                false,
            )
        } else if s[i + 1] == 'u' && at(s, i + 2, '{') {
            match hex_run(s, i + 3, 0, 0) {
                Some((v, j)) => if i < j <= s.len() && is_char_code(v) {
                    scan_str(s, j, acc.push(v as char), false)
                } else {
                    None
                },
                None => None,
            }
        } else {
            None
        }
    } else {
        scan_str(s, i + 1, acc.push(s[i]), false)
    }
}

/// Index just past the run of `#` characters that starts at `i`.
pub open spec fn hash_run_end(s: Seq<char>, i: int) -> int
    decreases s.len() - i,
{
    if 0 <= i < s.len() && s[i] == '#' {
        hash_run_end(s, i + 1)
    } else {
        i
    }
}

/// Scans the body of a raw string literal closed by `"` and `h` `#`s, from `i`. A carriage
/// return must be followed by a line feed, and the pair stands for a line feed; a closing
/// quote followed by more than `h` `#`s is refused. Returns the value and the index just
/// past the closing delimiter.
pub open spec fn scan_raw(s: Seq<char>, i: int, h: int, acc: Seq<char>) -> Option<(Seq<char>, int)>
    decreases s.len() - i,
{
    if i < 0 || i >= s.len() {
        None
    } else if s[i] == '"' && hash_run_end(s, i + 1) - (i + 1) >= h {
        if hash_run_end(s, i + 1) - (i + 1) == h {
            Some((acc, i + 1 + h))
        } else {
            None
        }
    } else if s[i] == '\r' {
        if at(s, i + 1, '\n') {
            scan_raw(s, i + 2, h, acc.push('\n'))
        } else {
            None
        }
    } else {
        scan_raw(s, i + 1, h, acc.push(s[i]))
    }
}

/// A string-literal token whose value is `v` and whose quote closes just before `j`: an
/// identifier suffix right after it is part of the token.
pub open spec fn str_token(s: Seq<char>, v: Seq<char>, j: int) -> Step {
    if j < s.len() && is_ident_start(s[j]) {
        Step::Tok(TokenV::Str(v), ident_end(s, j))
    } else {
        Step::Tok(TokenV::Str(v), j)
    }
}

/// One lexing step at index `i`.
pub enum Step {
    Skip(int),
    Tok(TokenV, int),
    Fail,
}

/// `s` has the character `c` at index `i`.
pub open spec fn at(s: Seq<char>, i: int, c: char) -> bool {
    0 <= i < s.len() && s[i] == c
}

/// Names that cannot be raw identifiers.
pub open spec fn is_reserved_raw(name: Seq<char>) -> bool {
    name == "_"@ || name == "crate"@ || name == "self"@ || name == "super"@ || name == "Self"@
}

/// What the lexer does at index `i` (`i < s.len()`).
pub open spec fn step(s: Seq<char>, i: int) -> Step {
    let c = s[i];
    if is_rust_ws(c) {
        Step::Skip(i + 1)
    } else if c == '/' && at(s, i + 1, '/') {
        if at(s, i + 2, '!') {
            Step::Fail
        } else if at(s, i + 2, '/') && !at(s, i + 3, '/') {
            Step::Tok(TokenV::Doc, line_end(s, i))
        } else {
            Step::Skip(line_end(s, i))
        }
    } else if c == '/' && at(s, i + 1, '*') {
        if at(s, i + 2, '*') && at(s, i + 3, '/') {
            Step::Skip(i + 4)
        } else if at(s, i + 2, '!') {
            Step::Fail
        } else {
            match block_end(s, i + 2, 1) {
                Some(j) => if at(s, i + 2, '*') && !at(s, i + 3, '*') {
                    Step::Tok(TokenV::Doc, j)
                } else {
                    Step::Skip(j)
                },
                None => Step::Fail,
            }
        }
    } else if c == '"' {
        match scan_str(s, i + 1, Seq::empty(), false) {
            Some((v, j)) => if j < s.len() && is_ident_start(s[j]) {
                Step::Tok(TokenV::Str(v), ident_end(s, j))
            } else {
                Step::Tok(TokenV::Str(v), j)
            },
            None => Step::Fail,
        }
    } else if c == 'r' && (at(s, i + 1, '"') || (at(s, i + 1, '#') && (at(s, i + 2, '"') || at(
        s,
        i + 2,
        '#',
    )))) {
        let q = hash_run_end(s, i + 1);
        if at(s, q, '"') && q - (i + 1) <= 255 {
            match scan_raw(s, q + 1, q - (i + 1), Seq::empty()) {
                Some((v, j)) => str_token(s, v, j),
                None => Step::Fail,
            }
        } else {
            Step::Fail
        }
    } else if c == 'r' && at(s, i + 1, '#') && i + 2 < s.len() && is_ident_start(s[i + 2]) {
        let e = ident_end(s, i + 2);
        if is_reserved_raw(s.subrange(i + 2, e)) {
            Step::Fail
        } else {
            Step::Tok(TokenV::Ident(s.subrange(i, e)), e)
        }
    } else if is_ident_start(c) {
        let e = ident_end(s, i);
        Step::Tok(TokenV::Ident(s.subrange(i, e)), e)
    } else if is_digit(c) {
        Step::Tok(TokenV::Num, ident_end(s, i))
    } else if c == ':' && at(s, i + 1, ':') {
        Step::Tok(TokenV::PathSep, i + 2)
    } else if is_punct_char(c) {
        Step::Tok(TokenV::Punct(c), i + 1)
    } else if is_open_char(c) {
        Step::Tok(TokenV::Open(c), i + 1)
    } else if is_close_char(c) {
        Step::Tok(TokenV::Close(c), i + 1)
    } else {
        Step::Fail
    }
}

/// The tokens of `s` from index `i` on, or `None` if some character sequence there is
/// not a token of the language.
pub open spec fn lex_from(s: Seq<char>, i: int) -> Option<Seq<TokenV>>
    decreases s.len() - i,
{
    if i < 0 || i >= s.len() {
        Some(Seq::empty())
    } else {
        match step(s, i) {
            Step::Fail => None,
            Step::Skip(j) => if i < j <= s.len() {
                lex_from(s, j)
            } else {
                None
            },
            Step::Tok(t, j) => if i < j <= s.len() {
                match lex_from(s, j) {
                    Some(rest) => Some(seq![t] + rest),
                    None => None,
                }
            } else {
                None
            },
        }
    }
}

/// Delimiters of `t` from `i` on close in order, given the open delimiters `stack`
/// (innermost last).
pub open spec fn balanced_from(t: Seq<TokenV>, i: int, stack: Seq<char>) -> bool
    decreases t.len() - i,
{
    if i < 0 || i >= t.len() {
        stack.len() == 0
    } else {
        match t[i] {
            TokenV::Open(c) => balanced_from(t, i + 1, stack.push(c)),
            TokenV::Close(c) => stack.len() > 0 && closer_of(stack.last()) == c && balanced_from(
                t,
                i + 1,
                stack.drop_last(),
            ),
            _ => balanced_from(t, i + 1, stack),
        }
    }
}

/// The token sequence of `s`: `Some` exactly when every part of `s` lexes and the
/// delimiters balance.
pub open spec fn tokenize_spec(s: Seq<char>) -> Option<Seq<TokenV>> {
    match lex_from(s, 0) {
        Some(t) => if balanced_from(t, 0, Seq::empty()) {
            Some(t)
        } else {
            None
        },
        None => None,
    }
}

// ---------------------------------------------------------------- executable side

fn ex_is_digit(c: char) -> (r: bool)
    ensures
        r == is_digit(c),
{
    '0' <= c && c <= '9'
}

fn ex_is_ident_start(c: char) -> (r: bool)
    ensures
        r == is_ident_start(c),
{
    ('a' <= c && c <= 'z') || ('A' <= c && c <= 'Z') || c == '_' || ('\u{7f}' < c
        && unicode_xid_start(c))
}

fn ex_is_ident_continue(c: char) -> (r: bool)
    ensures
        r == is_ident_continue(c),
{
    ex_is_ident_start(c) || ex_is_digit(c) || ('\u{7f}' < c && unicode_xid_continue(c))
}

fn ex_is_rust_ws(c: char) -> (r: bool)
    ensures
        r == is_rust_ws(c),
{
    crate::text::exec_is_unicode_ws(c) || c == '\u{200e}' || c == '\u{200f}'
}

fn ex_is_punct_char(c: char) -> (r: bool)
    ensures
        r == is_punct_char(c),
{
    c == '~' || c == '!' || c == '@' || c == '#' || c == '$' || c == '%' || c == '^' || c
        == '&' || c == '*' || c == '-' || c == '=' || c == '+' || c == '|' || c == ';' || c
        == ':' || c == ',' || c == '<' || c == '.' || c == '>' || c == '/' || c == '?'
}

fn ex_is_hex(c: char) -> (r: bool)
    ensures
        r == is_hex(c),
{
    ex_is_digit(c) || ('a' <= c && c <= 'f') || ('A' <= c && c <= 'F')
}

fn ex_hex_value(c: char) -> (r: u32)
    requires
        is_hex(c),
    ensures
        r == hex_value(c),
        r < 16,
{
    if '0' <= c && c <= '9' {
        (c as u32) - ('0' as u32)
    } else if 'a' <= c && c <= 'f' {
        (c as u32) - ('a' as u32) + 10
    } else {
        (c as u32) - ('A' as u32) + 10
    }
}

fn ex_at(s: &Vec<char>, i: usize, c: char) -> (r: bool)
    ensures
        r == at(s@, i as int, c),
{
    i < s.len() && s[i] == c
}

fn ex_ident_end(s: &Vec<char>, i: usize) -> (r: usize)
    requires
        i <= s.len(),
    ensures
        r == ident_end(s@, i as int),
        i <= r <= s.len(),
{
    let mut j = i;
    while j < s.len() && ex_is_ident_continue(s[j])
        invariant
            i <= j <= s.len(),
            ident_end(s@, i as int) == ident_end(s@, j as int),
        decreases s.len() - j,
    {
        j = j + 1;
    }
    j
}

fn ex_line_end(s: &Vec<char>, i: usize) -> (r: usize)
    requires
        i <= s.len(),
    ensures
        r == line_end(s@, i as int),
        i <= r <= s.len(),
{
    let mut j = i;
    while j < s.len() && s[j] != '\n'
        invariant
            i <= j <= s.len(),
            line_end(s@, i as int) == line_end(s@, j as int),
        decreases s.len() - j,
    {
        j = j + 1;
    }
    j
}

fn ex_block_end(s: &Vec<char>, i: usize) -> (r: Option<usize>)
    requires
        i <= s.len(),
    ensures
        r matches Some(j) ==> block_end(s@, i as int, 1) == Some(j as int) && i < j <= s.len(),
        r is None ==> block_end(s@, i as int, 1) is None,
{
    let mut j = i;
    let mut depth: usize = 1;
    while s.len() > 0 && j < s.len() - 1
        invariant
            i <= j <= s.len(),
            depth >= 1,
            depth <= j - i + 1,
            block_end(s@, i as int, 1) == block_end(s@, j as int, depth as nat),
        decreases s.len() - j,
    {
        if s[j] == '*' && s[j + 1] == '/' {
            if depth <= 1 {
                return Some(j + 2);
            }
            depth = depth - 1;
            j = j + 2;
        } else if s[j] == '/' && s[j + 1] == '*' {
            depth = depth + 1;
            j = j + 2;
        } else {
            j = j + 1;
        }
    }
    None
}

fn ex_simple_escape(e: char) -> (r: Option<char>)
    ensures
        r == simple_escape(e),
{
    if e == 'n' {
        Some('\n')
    } else if e == 'r' {
        Some('\r')
    } else if e == 't' {
        Some('\t')
    } else if e == '0' {
        Some('\0')
    } else if e == '\\' {
        Some('\\')
    } else if e == '\'' {
        Some('\'')
    } else if e == '"' {
        Some('"')
    } else {
        None
    }
}

/// The character with code `v` (`v < 128`).
fn ascii_char(v: u32) -> (c: char)
    requires
        v < 128,
    ensures
        c == v as char,
{
    let b: u8 = v as u8;
    b as char
}

/// `char::from_u32`: the `char` with code `v`, or `None` when `v` is a surrogate or above
/// `0x10FFFF`.
#[verifier::external_body]
fn char_from_code(v: u32) -> (r: Option<char>)
    ensures
        r == (if is_char_code(v as nat) { Some(v as char) } else { None::<char> }),
{
    char::from_u32(v)
}

proof fn lemma_pow16_mono(a: nat, b: nat)
    requires
        a <= b,
    ensures
        pow16(a) <= pow16(b),
    decreases b,
{
    if a < b {
        lemma_pow16_mono(a, (b - 1) as nat);
        assert(pow16(b) == 16 * pow16((b - 1) as nat));
    }
}

fn ex_hex_run(s: &Vec<char>, j0: usize) -> (r: Option<(u32, usize)>)
    requires
        j0 <= s.len(),
    ensures
        r matches Some((v, k)) ==> hex_run(s@, j0 as int, 0, 0) == Some((v as nat, k as int)) && j0
            < k <= s.len(),
        r is None ==> hex_run(s@, j0 as int, 0, 0) is None,
{
    let mut j = j0;
    let mut val: u32 = 0;
    let mut count: u32 = 0;
    while j < s.len()
        invariant
            j0 <= j <= s.len(),
            count <= 6,
            val < pow16(count as nat),
            hex_run(s@, j0 as int, 0, 0) == hex_run(s@, j as int, val as nat, count as nat),
        decreases s.len() - j,
    {
        let c = s[j];
        if c == '}' {
            if count >= 1 {
                return Some((val, j + 1));
            } else {
                return None;
            }
        } else if c == '_' && count >= 1 {
            j = j + 1;
        } else if ex_is_hex(c) && count < 6 {
            let d = ex_hex_value(c);
            assert(pow16((count + 1) as nat) == 16 * pow16(count as nat));
            assert(val * 16 + d < pow16((count + 1) as nat)) by (nonlinear_arith)
                requires
                    val < pow16(count as nat),
                    d < 16,
                    pow16((count + 1) as nat) == 16 * pow16(count as nat),
            ;
            assert(pow16((count + 1) as nat) <= 16777216) by {
                lemma_pow16_mono((count + 1) as nat, 6);
                reveal_with_fuel(pow16, 7);
            }
            val = val * 16 + d;
            count = count + 1;
            j = j + 1;
        } else {
            return None;
        }
    }
    None
}

fn ex_scan_str(s: &Vec<char>, i: usize) -> (r: Option<(Vec<char>, usize)>)
    requires
        i <= s.len(),
    ensures
        r matches Some((v, j)) ==> scan_str(s@, i as int, Seq::empty(), false) == Some(
            (v@, j as int),
        ) && i < j <= s.len(),
        r is None ==> scan_str(s@, i as int, Seq::empty(), false) is None,
{
    let mut acc: Vec<char> = Vec::new();
    let mut j = i;
    let mut skipping = false;
    loop
        invariant
            i <= j <= s.len(),
            scan_str(s@, i as int, Seq::empty(), false) == scan_str(s@, j as int, acc@, skipping),
        decreases s.len() - j, (if skipping { 1int } else { 0int }),
    {
        if j >= s.len() {
            return None;
        }
        let c = s[j];
        if skipping {
            if c == ' ' || c == '\t' || c == '\n' || c == '\r' {
                j = j + 1;
            } else {
                skipping = false;
            }
        } else if c == '"' {
            return Some((acc, j + 1));
        } else if c == '\r' {
            if j + 1 < s.len() && s[j + 1] == '\n' {
                acc.push('\n');
                j = j + 2;
            } else {
                return None;
            }
        } else if c == '\\' {
            if j + 1 >= s.len() {
                return None;
            }
            let e = s[j + 1];
            match ex_simple_escape(e) {
                Some(v) => {
                    acc.push(v);
                    j = j + 2;
                },
                None => {
                    if e == '\n' {
                        skipping = true;
                        j = j + 2;
                    } else if e == 'x' && s.len() - j > 3 && '0' <= s[j + 2] && s[j + 2] <= '7'
                        && ex_is_hex(s[j + 3]) {
                        let hi = ex_hex_value(s[j + 2]);
                        let lo = ex_hex_value(s[j + 3]);
                        assert(hi < 8);
                        let v = ascii_char(hi * 16 + lo);
                        acc.push(v);
                        j = j + 4;
                    } else if e == 'u' && ex_at(s, j + 2, '{') {
                        match ex_hex_run(s, j + 3) {
                            Some((v, k)) => match char_from_code(v) {
                                Some(ch) => {
                                    acc.push(ch);
                                    j = k;
                                },
                                None => {
                                    return None;
                                },
                            },
                            None => {
                                return None;
                            },
                        }
                    } else {
                        return None;
                    }
                },
            }
        } else {
            acc.push(c);
            j = j + 1;
        }
    }
}

fn ex_hash_run_end(s: &Vec<char>, i: usize) -> (r: usize)
    requires
        i <= s.len(),
    ensures
        r == hash_run_end(s@, i as int),
        i <= r <= s.len(),
{
    let mut j = i;
    while j < s.len() && s[j] == '#'
        invariant
            i <= j <= s.len(),
            hash_run_end(s@, i as int) == hash_run_end(s@, j as int),
        decreases s.len() - j,
    {
        j = j + 1;
    }
    j
}

fn ex_scan_raw(s: &Vec<char>, i: usize, h: usize) -> (r: Option<(Vec<char>, usize)>)
    requires
        i <= s.len(),
    ensures
        r matches Some((v, j)) ==> scan_raw(s@, i as int, h as int, Seq::empty()) == Some(
            (v@, j as int),
        ) && i < j <= s.len(),
        r is None ==> scan_raw(s@, i as int, h as int, Seq::empty()) is None,
{
    let mut acc: Vec<char> = Vec::new();
    let mut j = i;
    while j < s.len()
        invariant
            i <= j <= s.len(),
            scan_raw(s@, i as int, h as int, Seq::empty()) == scan_raw(s@, j as int, h as int, acc@),
        decreases s.len() - j,
    {
        let c = s[j];
        if c == '"' {
            let e = ex_hash_run_end(s, j + 1);
            if e - (j + 1) >= h {
                if e - (j + 1) == h {
                    return Some((acc, j + 1 + h));
                } else {
                    return None;
                }
            }
        }
        if c == '\r' {
            if ex_at(s, j + 1, '\n') {
                acc.push('\n');
                j = j + 2;
            } else {
                return None;
            }
        } else {
            acc.push(c);
            j = j + 1;
        }
    }
    None
}

fn ex_is_reserved_raw(s: &Vec<char>, a: usize, b: usize) -> (r: bool)
    requires
        a <= b <= s.len(),
    ensures
        r == is_reserved_raw(s@.subrange(a as int, b as int)),
{
    let w = crate::text::slice_chars(s, a, b);
    proof {
        reveal_strlit("_");
        reveal_strlit("crate");
        reveal_strlit("self");
        reveal_strlit("super");
        reveal_strlit("Self");
    }
    crate::text::chars_eq_str(&w, "_") || crate::text::chars_eq_str(&w, "crate")
        || crate::text::chars_eq_str(&w, "self") || crate::text::chars_eq_str(&w, "super")
        || crate::text::chars_eq_str(&w, "Self")
}

/// Executable lexing step.
enum ExStep {
    Skip(usize),
    Tok(Token, usize),
    Fail,
}

fn ex_step(s: &Vec<char>, i: usize) -> (r: ExStep)
    requires
        i < s.len(),
    ensures
        match r {
            ExStep::Skip(j) => step(s@, i as int) == Step::Skip(j as int) && j <= s.len(),
            ExStep::Tok(t, j) => step(s@, i as int) == Step::Tok(t@, j as int) && j <= s.len(),
            ExStep::Fail => step(s@, i as int) is Fail,
        },
{
    let c = s[i];
    if ex_is_rust_ws(c) {
        ExStep::Skip(i + 1)
    } else if c == '/' && ex_at(s, i + 1, '/') {
        if ex_at(s, i + 2, '!') {
            ExStep::Fail
        } else if ex_at(s, i + 2, '/') && !ex_at(s, i + 3, '/') {
            ExStep::Tok(Token::Doc, ex_line_end(s, i))
        } else {
            ExStep::Skip(ex_line_end(s, i))
        }
    } else if c == '/' && ex_at(s, i + 1, '*') {
        if ex_at(s, i + 2, '*') && ex_at(s, i + 3, '/') {
            ExStep::Skip(i + 4)
        } else if ex_at(s, i + 2, '!') {
            ExStep::Fail
        } else {
            match ex_block_end(s, i + 2) {
                Some(j) => if ex_at(s, i + 2, '*') && !ex_at(s, i + 3, '*') {
                    ExStep::Tok(Token::Doc, j)
                } else {
                    ExStep::Skip(j)
                },
                None => ExStep::Fail,
            }
        }
    } else if c == '"' {
        match ex_scan_str(s, i + 1) {
            Some((v, j)) => if j < s.len() && ex_is_ident_start(s[j]) {
                ExStep::Tok(Token::Str(v), ex_ident_end(s, j))
            } else {
                ExStep::Tok(Token::Str(v), j)
            },
            None => ExStep::Fail,
        }
    } else if c == 'r' && (ex_at(s, i + 1, '"') || (ex_at(s, i + 1, '#') && (ex_at(s, i + 2, '"')
        || ex_at(s, i + 2, '#')))) {
        let q = ex_hash_run_end(s, i + 1);
        if ex_at(s, q, '"') && q - (i + 1) <= 255 {
            match ex_scan_raw(s, q + 1, q - (i + 1)) {
                Some((v, j)) => if j < s.len() && ex_is_ident_start(s[j]) {
                    ExStep::Tok(Token::Str(v), ex_ident_end(s, j))
                } else {
                    ExStep::Tok(Token::Str(v), j)
                },
                None => ExStep::Fail,
            }
        } else {
            ExStep::Fail
        }
    } else if c == 'r' && ex_at(s, i + 1, '#') && i + 2 < s.len() && ex_is_ident_start(s[i + 2]) {
        let e = ex_ident_end(s, i + 2);
        if ex_is_reserved_raw(s, i + 2, e) {
            ExStep::Fail
        } else {
            ExStep::Tok(Token::Ident(crate::text::slice_chars(s, i, e)), e)
        }
    } else if ex_is_ident_start(c) {
        let e = ex_ident_end(s, i);
        ExStep::Tok(Token::Ident(crate::text::slice_chars(s, i, e)), e)
    } else if ex_is_digit(c) {
        ExStep::Tok(Token::Num, ex_ident_end(s, i))
    } else if c == ':' && ex_at(s, i + 1, ':') {
        ExStep::Tok(Token::PathSep, i + 2)
    } else if ex_is_punct_char(c) {
        ExStep::Tok(Token::Punct(c), i + 1)
    } else if c == '(' || c == '[' || c == '{' {
        ExStep::Tok(Token::Open(c), i + 1)
    } else if c == ')' || c == ']' || c == '}' {
        ExStep::Tok(Token::Close(c), i + 1)
    } else {
        ExStep::Fail
    }
}

pub open spec fn opt_prepend(p: Seq<TokenV>, r: Option<Seq<TokenV>>) -> Option<Seq<TokenV>> {
    match r {
        Some(rest) => Some(p + rest),
        None => None,
    }
}

/// All tokens of `s`, or `None` where `lex_from` has none.
fn ex_lex(s: &Vec<char>) -> (r: Option<Vec<Token>>)
    ensures
        r matches Some(t) ==> lex_from(s@, 0) == Some(tokens_view(t@)),
        r is None ==> lex_from(s@, 0) is None,
{
    let mut toks: Vec<Token> = Vec::new();
    let mut i: usize = 0;
    assert(opt_prepend(Seq::empty(), lex_from(s@, 0)) =~= lex_from(s@, 0)) by {
        match lex_from(s@, 0) {
            Some(rest) => {
                assert(Seq::<TokenV>::empty() + rest =~= rest);
            },
            None => {},
        }
    }
    while i < s.len()
        invariant
            i <= s.len(),
            lex_from(s@, 0) == opt_prepend(tokens_view(toks@), lex_from(s@, i as int)),
        decreases s.len() - i,
    {
        match ex_step(s, i) {
            ExStep::Fail => {
                return None;
            },
            ExStep::Skip(j) => {
                if j <= i {
                    return None;
                }
                i = j;
            },
            ExStep::Tok(t, j) => {
                if j <= i {
                    return None;
                }
                let ghost tv = t@;
                let ghost before = tokens_view(toks@);
                toks.push(t);
                proof {
                    assert(tokens_view(toks@) =~= before.push(tv));
                    match lex_from(s@, j as int) {
                        Some(rest) => {
                            assert(before + (seq![tv] + rest) =~= before.push(tv) + rest);
                        },
                        None => {},
                    }
                }
                i = j;
            },
        }
    }
    assert(lex_from(s@, i as int) == Some(Seq::<TokenV>::empty()));
    assert(tokens_view(toks@) + Seq::<TokenV>::empty() =~= tokens_view(toks@));
    Some(toks)
}

fn ex_balanced(t: &Vec<Token>) -> (r: bool)
    ensures
        r == balanced_from(tokens_view(t@), 0, Seq::empty()),
{
    let mut stack: Vec<char> = Vec::new();
    let mut i: usize = 0;
    while i < t.len()
        invariant
            i <= t.len(),
            balanced_from(tokens_view(t@), 0, Seq::empty()) == balanced_from(
                tokens_view(t@),
                i as int,
                stack@,
            ),
        decreases t.len() - i,
    {
        match &t[i] {
            Token::Open(c) => {
                stack.push(*c);
            },
            Token::Close(c) => {
                if stack.len() == 0 {
                    return false;
                }
                let top = stack[stack.len() - 1];
                let want = if top == '(' {
                    ')'
                } else if top == '[' {
                    ']'
                } else {
                    '}'
                };
                if want != *c {
                    return false;
                }
                stack.pop();
            },
            _ => {},
        }
        i = i + 1;
    }
    stack.len() == 0
}

/// Splits `s` into tokens: `Some` exactly when `tokenize_spec` is.
pub fn tokenize(s: &Vec<char>) -> (r: Option<Vec<Token>>)
    ensures
        r matches Some(t) ==> tokenize_spec(s@) == Some(tokens_view(t@)),
        r is None ==> tokenize_spec(s@) is None,
{
    match ex_lex(s) {
        Some(t) => if ex_balanced(&t) {
            Some(t)
        } else {
            None
        },
        None => None,
    }
}

} // verus!
