//! The textual operand decoder: a recursive-descent grammar over a
//! single-pass token cursor with one-token lookahead and no backtracking.
//! Each decoder consumes exactly the tokens its grammar requires and fails
//! with a parse error carrying the offending token and its position.

use vstd::prelude::*;
use vstd::slice::slice_to_vec;

use crate::adata::all_dec_digits;
use crate::adata::dec_val;
use crate::adata::spec_parse_adata;
use crate::adata::AdataId;
use crate::names::PropName;
use crate::opcodes::spec_parse_readonly_op;
use crate::opcodes::assemble_readonly_op;
use crate::opcodes::ReadonlyOp;

verus! {

/// A source position: line and column of a token.
#[derive(Copy, Clone, Debug, PartialEq, Eq, Structural)]
pub struct Pos {
    pub line: u32,
    pub col: u32,
}

/// One assembler token, as handed over by the external tokenizer.
#[derive(Clone, Debug)]
pub enum Token {
    /// `@name`, a reference into the adata pool.
    Global(Vec<u8>, Pos),
    /// `$name`, a declared local variable.
    Variable(Vec<u8>, Pos),
    /// A quoted string literal, quotes and escapes still in place.
    StrLiteral(Vec<u8>, Pos),
    /// A decimal number, possibly signed.
    Number(Vec<u8>, Pos),
    /// A bare identifier or keyword.
    Identifier(Vec<u8>, Pos),
    Colon(Pos),
    Lt(Pos),
    Gt(Pos),
}

pub open spec fn spec_token_pos(t: Token) -> Pos {
    match t {
        Token::Global(_, p) => p,
        Token::Variable(_, p) => p,
        Token::StrLiteral(_, p) => p,
        Token::Number(_, p) => p,
        Token::Identifier(_, p) => p,
        Token::Colon(p) => p,
        Token::Lt(p) => p,
        Token::Gt(p) => p,
    }
}

pub fn token_pos(t: &Token) -> (r: Pos)
    ensures
        r == spec_token_pos(*t),
{
    match t {
        Token::Global(_, p) => *p,
        Token::Variable(_, p) => *p,
        Token::StrLiteral(_, p) => *p,
        Token::Number(_, p) => *p,
        Token::Identifier(_, p) => *p,
        Token::Colon(p) => *p,
        Token::Lt(p) => *p,
        Token::Gt(p) => *p,
    }
}

/// Why a decode failed, together with where.
#[derive(Copy, Clone, Debug, PartialEq, Eq, Structural)]
pub enum ParseErrorKind {
    /// The token stream ended where the grammar required a token.
    UnexpectedEnd,
    /// A token of the wrong shape stood where the grammar required another.
    UnexpectedToken,
    /// A keyword matched no entry of the exhaustive per-type table.
    UnknownKeyword,
    /// A `$name` local is not in the declared-locals table.
    UnknownLocal,
    /// A number is malformed or out of range.
    BadNumber,
    /// A string literal holds a malformed escape or is not valid text.
    BadString,
}

/// The spec-level image of a token: its shape, its bytes and its position.
pub enum TokenDen {
    Global(Seq<u8>, Pos),
    Variable(Seq<u8>, Pos),
    StrLiteral(Seq<u8>, Pos),
    Number(Seq<u8>, Pos),
    Identifier(Seq<u8>, Pos),
    Colon(Pos),
    Lt(Pos),
    Gt(Pos),
}

pub open spec fn token_den(t: Token) -> TokenDen {
    match t {
        Token::Global(v, p) => TokenDen::Global(v@, p),
        Token::Variable(v, p) => TokenDen::Variable(v@, p),
        Token::StrLiteral(v, p) => TokenDen::StrLiteral(v@, p),
        Token::Number(v, p) => TokenDen::Number(v@, p),
        Token::Identifier(v, p) => TokenDen::Identifier(v@, p),
        Token::Colon(p) => TokenDen::Colon(p),
        Token::Lt(p) => TokenDen::Lt(p),
        Token::Gt(p) => TokenDen::Gt(p),
    }
}

/// Copy a token; the copy has the same shape, bytes and position.
pub fn clone_token(t: &Token) -> (r: Token)
    ensures
        token_den(r) == token_den(*t),
{
    match t {
        Token::Global(v, p) => Token::Global(slice_to_vec(v.as_slice()), *p),
        Token::Variable(v, p) => Token::Variable(slice_to_vec(v.as_slice()), *p),
        Token::StrLiteral(v, p) => Token::StrLiteral(slice_to_vec(v.as_slice()), *p),
        Token::Number(v, p) => Token::Number(slice_to_vec(v.as_slice()), *p),
        Token::Identifier(v, p) => Token::Identifier(slice_to_vec(v.as_slice()), *p),
        Token::Colon(p) => Token::Colon(*p),
        Token::Lt(p) => Token::Lt(*p),
        Token::Gt(p) => Token::Gt(*p),
    }
}

/// A parse error: what went wrong, where, and the offending token itself
/// (absent only when the stream ended where a token was required).
#[derive(Debug)]
pub struct ParseError {
    pub kind: ParseErrorKind,
    pub pos: Pos,
    pub tok: Option<Token>,
}

/// A parse error naming the offending token and its position.
pub(crate) fn err_at(kind: ParseErrorKind, t: &Token) -> (r: ParseError)
    ensures
        r.kind == kind,
        r.pos == spec_token_pos(*t),
        r.tok matches Some(t2) && token_den(t2) == token_den(*t),
{
    ParseError { kind, pos: token_pos(t), tok: Some(clone_token(t)) }
}

/// A parse error for a stream that ended where a token was required.
pub(crate) fn err_end(pos: Pos) -> (r: ParseError)
    ensures
        r.kind == ParseErrorKind::UnexpectedEnd,
        r.pos == pos,
        r.tok is None,
{
    ParseError { kind: ParseErrorKind::UnexpectedEnd, pos, tok: Option::None }
}

/// A parse error naming an offending identifier token.
pub(crate) fn err_ident(kind: ParseErrorKind, b: &Vec<u8>, p: Pos) -> (r: ParseError)
    ensures
        r.kind == kind,
        r.pos == p,
        r.tok matches Some(t2) && token_den(t2) == TokenDen::Identifier(b@, p),
{
    ParseError { kind, pos: p, tok: Some(Token::Identifier(slice_to_vec(b.as_slice()), p)) }
}

/// A parse error naming an offending variable token.
pub(crate) fn err_var(kind: ParseErrorKind, b: &Vec<u8>, p: Pos) -> (r: ParseError)
    ensures
        r.kind == kind,
        r.pos == p,
        r.tok matches Some(t2) && token_den(t2) == TokenDen::Variable(b@, p),
{
    ParseError { kind, pos: p, tok: Some(Token::Variable(slice_to_vec(b.as_slice()), p)) }
}

/// A parse error naming an offending number token.
pub(crate) fn err_num(kind: ParseErrorKind, b: &Vec<u8>, p: Pos) -> (r: ParseError)
    ensures
        r.kind == kind,
        r.pos == p,
        r.tok matches Some(t2) && token_den(t2) == TokenDen::Number(b@, p),
{
    ParseError { kind, pos: p, tok: Some(Token::Number(slice_to_vec(b.as_slice()), p)) }
}

/// A parse error naming an offending string-literal token.
pub(crate) fn err_str(kind: ParseErrorKind, b: &Vec<u8>, p: Pos) -> (r: ParseError)
    ensures
        r.kind == kind,
        r.pos == p,
        r.tok matches Some(t2) && token_den(t2) == TokenDen::StrLiteral(b@, p),
{
    ParseError { kind, pos: p, tok: Some(Token::StrLiteral(slice_to_vec(b.as_slice()), p)) }
}

/// A parse error naming an offending adata-reference token.
pub(crate) fn err_global(kind: ParseErrorKind, b: &Vec<u8>, p: Pos) -> (r: ParseError)
    ensures
        r.kind == kind,
        r.pos == p,
        r.tok matches Some(t2) && token_den(t2) == TokenDen::Global(b@, p),
{
    ParseError { kind, pos: p, tok: Some(Token::Global(slice_to_vec(b.as_slice()), p)) }
}

/// The single-pass token cursor: one-token lookahead, never revisiting a
/// consumed token.
pub struct TokenCursor {
    toks: Vec<Token>,
    pos: usize,
}

impl TokenCursor {
    /// The whole token stream.
    pub closed spec fn toks(&self) -> Seq<Token> {
        self.toks@
    }

    /// The index of the next unconsumed token.
    pub closed spec fn at(&self) -> int {
        self.pos as int
    }

    pub open spec fn wf(&self) -> bool {
        0 <= self.at() <= self.toks().len()
    }

    pub fn new(toks: Vec<Token>) -> (r: TokenCursor)
        ensures
            r.toks() == toks@,
            r.at() == 0,
            r.wf(),
    {
        TokenCursor { toks, pos: 0 }
    }

    /// The position of the next token, or of the end of the stream.
    pub fn here(&self) -> (r: Pos)
        requires
            self.wf(),
    {
        if self.pos < self.toks.len() {
            token_pos(&self.toks[self.pos])
        } else {
            Pos { line: 0, col: 0 }
        }
    }

    /// Consume and return the next token.
    pub fn next(&mut self) -> (r: Option<&Token>)
        requires
            old(self).wf(),
        ensures
            final(self).wf(),
            final(self).toks() == old(self).toks(),
            old(self).at() < old(self).toks().len() ==> final(self).at() == old(self).at() + 1 && (
            r matches Some(t) && *t == old(self).toks()[old(self).at()]),
            old(self).at() >= old(self).toks().len() ==> final(self).at() == old(self).at() && r
                is None,
    {
        if self.pos < self.toks.len() {
            let t = &self.toks[self.pos];
            self.pos = self.pos + 1;
            Some(t)
        } else {
            None
        }
    }

    /// Look at the next token without consuming it.
    pub fn peek(&self) -> (r: Option<&Token>)
        requires
            self.wf(),
        ensures
            self.at() < self.toks().len() ==> (r matches Some(t) && *t == self.toks()[self.at()]),
            self.at() >= self.toks().len() ==> r is None,
    {
        if self.pos < self.toks.len() {
            Some(&self.toks[self.pos])
        } else {
            None
        }
    }

    /// Is the next token `>`?
    pub fn peek_is_gt(&self) -> (r: bool)
        requires
            self.wf(),
        ensures
            r == (self.at() < self.toks().len() && self.toks()[self.at()] matches Token::Gt(_)),
    {
        if self.pos < self.toks.len() {
            matches!(&self.toks[self.pos], Token::Gt(_))
        } else {
            false
        }
    }

    /// Consume one token that must be a colon.
    pub fn expect_colon(&mut self) -> (r: Result<(), ParseError>)
        requires
            old(self).wf(),
        ensures
            final(self).wf(),
            final(self).toks() == old(self).toks(),
            (r is Ok) <==> (old(self).at() < old(self).toks().len() && old(self).toks()[old(
                self,
            ).at()] matches Token::Colon(_)),
            r is Ok ==> final(self).at() == old(self).at() + 1,
            r matches Err(e) ==> (match e.tok {
                Some(t2) => old(self).at() < old(self).toks().len() && token_den(t2) == token_den(
                    old(self).toks()[old(self).at()],
                ) && e.pos == spec_token_pos(old(self).toks()[old(self).at()]),
                Option::None => old(self).at() >= old(self).toks().len() && e.kind
                    == ParseErrorKind::UnexpectedEnd,
            }),
    {
        let pos = self.here();
        match self.next() {
            Some(Token::Colon(_)) => Ok(()),
            Some(t) => Err(err_at(ParseErrorKind::UnexpectedToken, t)),
            None => Err(err_end(pos)),
        }
    }

    /// Consume one token that must be `<`.
    pub fn expect_lt(&mut self) -> (r: Result<(), ParseError>)
        requires
            old(self).wf(),
        ensures
            final(self).wf(),
            final(self).toks() == old(self).toks(),
            (r is Ok) <==> (old(self).at() < old(self).toks().len() && old(self).toks()[old(
                self,
            ).at()] matches Token::Lt(_)),
            r is Ok ==> final(self).at() == old(self).at() + 1,
            r matches Err(e) ==> (match e.tok {
                Some(t2) => old(self).at() < old(self).toks().len() && token_den(t2) == token_den(
                    old(self).toks()[old(self).at()],
                ) && e.pos == spec_token_pos(old(self).toks()[old(self).at()]),
                Option::None => old(self).at() >= old(self).toks().len() && e.kind
                    == ParseErrorKind::UnexpectedEnd,
            }),
    {
        let pos = self.here();
        match self.next() {
            Some(Token::Lt(_)) => Ok(()),
            Some(t) => Err(err_at(ParseErrorKind::UnexpectedToken, t)),
            None => Err(err_end(pos)),
        }
    }

    /// Consume one token that must be `>`.
    pub fn expect_gt(&mut self) -> (r: Result<(), ParseError>)
        requires
            old(self).wf(),
        ensures
            final(self).wf(),
            final(self).toks() == old(self).toks(),
            (r is Ok) <==> (old(self).at() < old(self).toks().len() && old(self).toks()[old(
                self,
            ).at()] matches Token::Gt(_)),
            r is Ok ==> final(self).at() == old(self).at() + 1,
            r matches Err(e) ==> (match e.tok {
                Some(t2) => old(self).at() < old(self).toks().len() && token_den(t2) == token_den(
                    old(self).toks()[old(self).at()],
                ) && e.pos == spec_token_pos(old(self).toks()[old(self).at()]),
                Option::None => old(self).at() >= old(self).toks().len() && e.kind
                    == ParseErrorKind::UnexpectedEnd,
            }),
    {
        let pos = self.here();
        match self.next() {
            Some(Token::Gt(_)) => Ok(()),
            Some(t) => Err(err_at(ParseErrorKind::UnexpectedToken, t)),
            None => Err(err_end(pos)),
        }
    }

    /// Consume one token that must be an identifier, and hand out its bytes.
    pub fn expect_identifier(&mut self) -> (r: Result<&Vec<u8>, ParseError>)
        requires
            old(self).wf(),
        ensures
            final(self).wf(),
            final(self).toks() == old(self).toks(),
            (r is Ok) <==> (old(self).at() < old(self).toks().len() && old(self).toks()[old(
                self,
            ).at()] matches Token::Identifier(_, _)),
            r matches Ok(b) ==> final(self).at() == old(self).at() + 1 && (old(self).toks()[old(
                self,
            ).at()] matches Token::Identifier(v, _) && b@ == v@),
            r matches Err(e) ==> (match e.tok {
                Some(t2) => old(self).at() < old(self).toks().len() && token_den(t2) == token_den(
                    old(self).toks()[old(self).at()],
                ) && e.pos == spec_token_pos(old(self).toks()[old(self).at()]),
                Option::None => old(self).at() >= old(self).toks().len() && e.kind
                    == ParseErrorKind::UnexpectedEnd,
            }),
    {
        let pos = self.here();
        match self.next() {
            Some(Token::Identifier(b, _)) => Ok(b),
            Some(t) => Err(err_at(ParseErrorKind::UnexpectedToken, t)),
            None => Err(err_end(pos)),
        }
    }
}

/// The declared-locals table: positional slot indices keyed by variable
/// name, built externally from parameter order followed by explicit local
/// declarations.  The decoder only reads it; the first entry for a name
/// wins.
pub struct DeclMap {
    entries: Vec<(Vec<u8>, u32)>,
}

/// The slot the table assigns a name, if any: the first matching entry.
pub open spec fn spec_decl_lookup(entries: Seq<(Vec<u8>, u32)>, name: Seq<u8>) -> Option<u32>
    decreases entries.len(),
{
    if entries.len() == 0 {
        Option::None
    } else if entries[0].0@ == name {
        Some(entries[0].1)
    } else {
        spec_decl_lookup(entries.skip(1), name)
    }
}

impl View for DeclMap {
    type V = Seq<(Vec<u8>, u32)>;

    closed spec fn view(&self) -> Seq<(Vec<u8>, u32)> {
        self.entries@
    }
}

impl DeclMap {
    pub fn new() -> (r: DeclMap)
        ensures
            r@ =~= Seq::<(Vec<u8>, u32)>::empty(),
    {
        DeclMap { entries: Vec::new() }
    }

    /// Declare the next local; the front end calls this in parameter order
    /// followed by explicit declarations.
    pub fn declare(&mut self, name: &[u8], slot: u32)
        ensures
            final(self)@.len() == old(self)@.len() + 1,
            final(self)@.last().0@ == name@,
            final(self)@.last().1 == slot,
            forall|i: int| 0 <= i < old(self)@.len() ==> final(self)@[i] == old(self)@[i],
    {
        let owned = slice_to_vec(name);
        self.entries.push((owned, slot));
    }

    /// Resolve a declared name to its slot.
    pub fn get(&self, name: &[u8]) -> (r: Option<u32>)
        ensures
            r == spec_decl_lookup(self@, name@),
    {
        let n = self.entries.len();
        let mut i: usize = 0;
        proof {
            assert(self@.skip(0) =~= self@);
        }
        while i < n
            invariant
                n == self@.len(),
                i <= n,
                spec_decl_lookup(self@, name@) == spec_decl_lookup(self@.skip(i as int), name@),
            decreases n - i,
        {
            proof {
                assert(self@.skip(i as int)[0] == self@[i as int]);
                assert(self@.skip(i as int).skip(1) =~= self@.skip(i + 1));
            }
            if crate::interner::bytes_eq(self.entries[i].0.as_slice(), name) {
                return Some(self.entries[i].1);
            }
            i += 1;
        }
        Option::None
    }
}

// ---------------------------------------------------------------------------
// Numbers.
// ---------------------------------------------------------------------------
/// The value a signed decimal token denotes, if it is well formed and fits
/// a 64-bit signed word.
pub open spec fn spec_parse_i64(s: Seq<u8>) -> Option<i64> {
    if s.len() >= 2 && s[0] == 0x2Du8 && all_dec_digits(s.skip(1)) && -dec_val(s.skip(1))
        >= i64::MIN as int {
        Some((-dec_val(s.skip(1))) as i64)
    } else if s.len() >= 1 && all_dec_digits(s) && dec_val(s) <= i64::MAX as int {
        Some(dec_val(s) as i64)
    } else {
        Option::None
    }
}

/// Parse a signed decimal number into a 64-bit signed word.
pub fn parse_i64(s: &[u8]) -> (r: Option<i64>)
    ensures
        r == spec_parse_i64(s@),
{
    if s.len() >= 2 && s[0] == 0x2D {
        let digits = &s[1..s.len()];
        assert(digits@ == s@.skip(1));
        match crate::adata::parse_dec_u64(digits) {
            Some(v) => {
                if v <= 0x8000_0000_0000_0000u64 {
                    let w: i128 = v as i128;
                    proof {
                        assert(0x8000_0000_0000_0000int == -(i64::MIN as int));
                    }
                    Some((-w) as i64)
                } else {
                    proof {
                        assert(-dec_val(s@.skip(1)) < i64::MIN as int);
                    }
                    None
                }
            },
            Option::None => {
                proof {
                    if all_dec_digits(s@.skip(1)) && s@.skip(1).len() >= 1 {
                        assert(dec_val(s@.skip(1)) >= 0x1_0000_0000_0000_0000);
                        assert(-dec_val(s@.skip(1)) < i64::MIN as int);
                    }
                    if s@.len() >= 1 && all_dec_digits(s@) {
                        assert(!crate::adata::is_dec_digit(s@[0]));
                    }
                }
                None
            },
        }
    } else {
        match crate::adata::parse_dec_u64(s) {
            Some(v) => {
                if v <= 0x7FFF_FFFF_FFFF_FFFFu64 {
                    Some(v as i64)
                } else {
                    None
                }
            },
            Option::None => {
                proof {
                    if s@.len() >= 2 && s@[0] == 0x2Du8 {
                        assert(!crate::adata::is_dec_digit(s@[0]));
                        assert(!all_dec_digits(s@));
                    }
                }
                None
            },
        }
    }
}

/// Parse an unsigned decimal number into a 32-bit word.
pub fn parse_u32(s: &[u8]) -> (r: Option<u32>)
    ensures
        (r is Some) <==> (s@.len() >= 1 && all_dec_digits(s@) && dec_val(s@) <= u32::MAX as int),
        r matches Some(v) ==> v == dec_val(s@),
{
    match crate::adata::parse_dec_u64(s) {
        Some(v) => {
            if v <= 0xFFFF_FFFFu64 {
                Some(v as u32)
            } else {
                None
            }
        },
        Option::None => None,
    }
}


// ---------------------------------------------------------------------------
// Unquoting and unescaping of string tokens.
// ---------------------------------------------------------------------------
/// Strip one pair of surrounding double quotes, if present.
pub open spec fn spec_unquote(s: Seq<u8>) -> Seq<u8> {
    if s.len() >= 2 && s[0] == 0x22u8 && s.last() == 0x22u8 {
        s.subrange(1, s.len() - 1)
    } else {
        s
    }
}

/// What one escape letter stands for, if it is a known escape.
pub open spec fn spec_escape_byte(b: u8) -> Option<u8> {
    if b == 0x5Cu8 {
        Some(0x5Cu8)
    } else if b == 0x22u8 {
        Some(0x22u8)
    } else if b == 0x27u8 {
        Some(0x27u8)
    } else if b == 0x6Eu8 {
        Some(0x0Au8)
    } else if b == 0x74u8 {
        Some(0x09u8)
    } else if b == 0x72u8 {
        Some(0x0Du8)
    } else if b == 0x30u8 {
        Some(0x00u8)
    } else {
        Option::None
    }
}

/// Resolve backslash escapes; a trailing backslash or an unknown escape
/// letter makes the whole string malformed.
pub open spec fn spec_unescape(s: Seq<u8>) -> Option<Seq<u8>>
    decreases s.len(),
{
    if s.len() == 0 {
        Some(Seq::<u8>::empty())
    } else if s[0] == 0x5Cu8 {
        if s.len() < 2 {
            Option::None
        } else {
            match spec_escape_byte(s[1]) {
                Some(b) => match spec_unescape(s.skip(2)) {
                    Some(r) => Some(seq![b] + r),
                    Option::None => Option::None,
                },
                Option::None => Option::None,
            }
        }
    } else {
        match spec_unescape(s.skip(1)) {
            Some(r) => Some(seq![s[0]] + r),
            Option::None => Option::None,
        }
    }
}

/// Prefix an optional suffix, failing if the suffix failed.
pub open spec fn spec_prepend(p: Seq<u8>, o: Option<Seq<u8>>) -> Option<Seq<u8>> {
    match o {
        Some(r) => Some(p + r),
        Option::None => Option::None,
    }
}

fn escape_byte(b: u8) -> (r: Option<u8>)
    ensures
        r == spec_escape_byte(b),
{
    if b == 0x5C {
        Some(0x5C)
    } else if b == 0x22 {
        Some(0x22)
    } else if b == 0x27 {
        Some(0x27)
    } else if b == 0x6E {
        Some(0x0A)
    } else if b == 0x74 {
        Some(0x09)
    } else if b == 0x72 {
        Some(0x0D)
    } else if b == 0x30 {
        Some(0x00)
    } else {
        None
    }
}

/// Resolve backslash escapes in a byte string.
pub fn unescape(s: &[u8]) -> (r: Option<Vec<u8>>)
    ensures
        (r is Some) <==> (spec_unescape(s@) is Some),
        r matches Some(v) ==> Some(v@) == spec_unescape(s@),
{
    let n = s.len();
    let mut out: Vec<u8> = Vec::new();
    let mut i: usize = 0;
    proof {
        assert(s@.skip(0) =~= s@);
        assert(out@ =~= Seq::<u8>::empty());
    }
    while i < n
        invariant
            n == s@.len(),
            i <= n,
            spec_unescape(s@) == spec_prepend(out@, spec_unescape(s@.skip(i as int))),
        decreases n - i,
    {
        let ghost pre = out@;
        let ghost rest = s@.skip(i as int);
        let b = s[i];
        proof {
            assert(rest[0] == b);
        }
        if b == 0x5C {
            if i + 1 >= n {
                proof {
                    assert(rest.len() < 2);
                }
                return None;
            }
            let e = s[i + 1];
            proof {
                assert(rest[1] == e);
            }
            match escape_byte(e) {
                Some(x) => {
                    out.push(x);
                    proof {
                        assert(rest.skip(2) =~= s@.skip(i + 2));
                        assert forall|q: Seq<u8>| #[trigger] (seq![x] + q).len() >= 0 implies pre
                            + (seq![x] + q) =~= out@ + q by {}
                        if spec_unescape(s@.skip(i + 2)) is Some {
                            assert(pre + (seq![x] + spec_unescape(s@.skip(i + 2)).unwrap()) =~= out@
                                + spec_unescape(s@.skip(i + 2)).unwrap());
                        }
                    }
                    i += 2;
                },
                Option::None => {
                    return None;
                },
            }
        } else {
            out.push(b);
            proof {
                assert(rest.skip(1) =~= s@.skip(i + 1));
                if spec_unescape(s@.skip(i + 1)) is Some {
                    assert(pre + (seq![b] + spec_unescape(s@.skip(i + 1)).unwrap()) =~= out@
                        + spec_unescape(s@.skip(i + 1)).unwrap());
                }
            }
            i += 1;
        }
    }
    proof {
        assert(s@.skip(n as int) =~= Seq::<u8>::empty());
        assert(out@ + Seq::<u8>::empty() =~= out@);
    }
    Some(out)
}

/// Strip one pair of surrounding double quotes, if present.
pub fn unquote(s: &[u8]) -> (r: Vec<u8>)
    ensures
        r@ == spec_unquote(s@),
{
    if s.len() >= 2 && s[0] == 0x22 && s[s.len() - 1] == 0x22 {
        let inner = &s[1..s.len() - 1];
        assert(inner@ == s@.subrange(1, s@.len() - 1));
        slice_to_vec(inner)
    } else {
        slice_to_vec(s)
    }
}

/// The bytes a string-literal token stands for: unquoted and unescaped.
pub open spec fn spec_literal_bytes(s: Seq<u8>) -> Option<Seq<u8>> {
    spec_unescape(spec_unquote(s))
}

/// Decode one unescaped, unquoted string token.
pub fn assemble_unescaped_unquoted(c: &mut TokenCursor) -> (r: Result<Vec<u8>, ParseError>)
    requires
        old(c).wf(),
    ensures
        final(c).wf(),
        final(c).toks() == old(c).toks(),
        (r is Ok) <==> (old(c).at() < old(c).toks().len() && (match old(c).toks()[old(c).at()] {
            Token::StrLiteral(v, _) => spec_literal_bytes(v@) is Some,
            _ => false,
        })),
        r matches Ok(b) ==> final(c).at() == old(c).at() + 1 && (match old(c).toks()[old(
            c,
        ).at()] {
            Token::StrLiteral(v, _) => Some(b@) == spec_literal_bytes(v@),
            _ => false,
        }),
        r matches Err(e) ==> (match e.tok {
            Some(t2) => old(c).at() < old(c).toks().len() && token_den(t2) == token_den(
                old(c).toks()[old(c).at()],
            ) && e.pos == spec_token_pos(old(c).toks()[old(c).at()]),
            Option::None => old(c).at() >= old(c).toks().len() && e.kind
                == ParseErrorKind::UnexpectedEnd,
        }),
    {
    let pos = c.here();
    match c.next() {
        Some(Token::StrLiteral(v, p)) => {
            let p = *p;
            let unquoted = unquote(v.as_slice());
            match unescape(unquoted.as_slice()) {
                Some(b) => Ok(b),
                Option::None => Err(err_str(ParseErrorKind::BadString, v, p)),
            }
        },
        Some(t) => Err(err_at(ParseErrorKind::UnexpectedToken, t)),
        Option::None => Err(err_end(pos)),
    }
}

// ---------------------------------------------------------------------------
// Name operands: one unescaped, unquoted literal token each.
// ---------------------------------------------------------------------------
/// Decode a class-name operand.
pub fn assemble_class_name(c: &mut TokenCursor) -> (r: Result<crate::names::ClassName, ParseError>)
    requires
        old(c).wf(),
    ensures
        final(c).wf(),
        final(c).toks() == old(c).toks(),
        (r is Ok) <==> (old(c).at() < old(c).toks().len() && (spec_str_tok(old(c).toks()[old(
            c,
        ).at()]) is Some)),
        r matches Ok(n) ==> final(c).at() == old(c).at() + 1 && Some(n@) == spec_str_tok(
            old(c).toks()[old(c).at()],
        ),
        r matches Err(e) ==> (match e.tok {
            Some(t2) => old(c).at() < old(c).toks().len() && token_den(t2) == token_den(
                old(c).toks()[old(c).at()],
            ) && e.pos == spec_token_pos(old(c).toks()[old(c).at()]),
            Option::None => old(c).at() >= old(c).toks().len() && e.kind
                == ParseErrorKind::UnexpectedEnd,
        }),
{
    let bytes = assemble_unescaped_unquoted(c)?;
    Ok(crate::names::ClassName::new(bytes))
}

/// Decode a constant-name operand.
pub fn assemble_const_name(c: &mut TokenCursor) -> (r: Result<crate::names::ConstName, ParseError>)
    requires
        old(c).wf(),
    ensures
        final(c).wf(),
        final(c).toks() == old(c).toks(),
        (r is Ok) <==> (old(c).at() < old(c).toks().len() && (spec_str_tok(old(c).toks()[old(
            c,
        ).at()]) is Some)),
        r matches Ok(n) ==> final(c).at() == old(c).at() + 1 && Some(n@) == spec_str_tok(
            old(c).toks()[old(c).at()],
        ),
        r matches Err(e) ==> (match e.tok {
            Some(t2) => old(c).at() < old(c).toks().len() && token_den(t2) == token_den(
                old(c).toks()[old(c).at()],
            ) && e.pos == spec_token_pos(old(c).toks()[old(c).at()]),
            Option::None => old(c).at() >= old(c).toks().len() && e.kind
                == ParseErrorKind::UnexpectedEnd,
        }),
{
    let bytes = assemble_unescaped_unquoted(c)?;
    Ok(crate::names::ConstName::new(bytes))
}

/// Decode a function-name operand.
pub fn assemble_function_name(c: &mut TokenCursor) -> (r: Result<
    crate::names::FunctionName,
    ParseError,
>)
    requires
        old(c).wf(),
    ensures
        final(c).wf(),
        final(c).toks() == old(c).toks(),
        (r is Ok) <==> (old(c).at() < old(c).toks().len() && (spec_str_tok(old(c).toks()[old(
            c,
        ).at()]) is Some)),
        r matches Ok(n) ==> final(c).at() == old(c).at() + 1 && Some(n@) == spec_str_tok(
            old(c).toks()[old(c).at()],
        ),
        r matches Err(e) ==> (match e.tok {
            Some(t2) => old(c).at() < old(c).toks().len() && token_den(t2) == token_den(
                old(c).toks()[old(c).at()],
            ) && e.pos == spec_token_pos(old(c).toks()[old(c).at()]),
            Option::None => old(c).at() >= old(c).toks().len() && e.kind
                == ParseErrorKind::UnexpectedEnd,
        }),
{
    let bytes = assemble_unescaped_unquoted(c)?;
    Ok(crate::names::FunctionName::new(bytes))
}

/// Decode a method-name operand.
pub fn assemble_method_name(c: &mut TokenCursor) -> (r: Result<
    crate::names::MethodName,
    ParseError,
>)
    requires
        old(c).wf(),
    ensures
        final(c).wf(),
        final(c).toks() == old(c).toks(),
        (r is Ok) <==> (old(c).at() < old(c).toks().len() && (spec_str_tok(old(c).toks()[old(
            c,
        ).at()]) is Some)),
        r matches Ok(n) ==> final(c).at() == old(c).at() + 1 && Some(n@) == spec_str_tok(
            old(c).toks()[old(c).at()],
        ),
        r matches Err(e) ==> (match e.tok {
            Some(t2) => old(c).at() < old(c).toks().len() && token_den(t2) == token_den(
                old(c).toks()[old(c).at()],
            ) && e.pos == spec_token_pos(old(c).toks()[old(c).at()]),
            Option::None => old(c).at() >= old(c).toks().len() && e.kind
                == ParseErrorKind::UnexpectedEnd,
        }),
{
    let bytes = assemble_unescaped_unquoted(c)?;
    Ok(crate::names::MethodName::new(bytes))
}

/// Decode a property-name operand.
pub fn assemble_prop_name(c: &mut TokenCursor) -> (r: Result<crate::names::PropName, ParseError>)
    requires
        old(c).wf(),
    ensures
        final(c).wf(),
        final(c).toks() == old(c).toks(),
        (r is Ok) <==> (old(c).at() < old(c).toks().len() && (spec_str_tok(old(c).toks()[old(
            c,
        ).at()]) is Some)),
        r matches Ok(n) ==> final(c).at() == old(c).at() + 1 && Some(n@) == spec_str_tok(
            old(c).toks()[old(c).at()],
        ),
        r matches Err(e) ==> (match e.tok {
            Some(t2) => old(c).at() < old(c).toks().len() && token_den(t2) == token_den(
                old(c).toks()[old(c).at()],
            ) && e.pos == spec_token_pos(old(c).toks()[old(c).at()]),
            Option::None => old(c).at() >= old(c).toks().len() && e.kind
                == ParseErrorKind::UnexpectedEnd,
        }),
{
    let bytes = assemble_unescaped_unquoted(c)?;
    Ok(crate::names::PropName::new(bytes))
}

// ---------------------------------------------------------------------------
// Simple operands.
// ---------------------------------------------------------------------------
/// A local variable slot.
#[derive(Copy, Clone, Debug, PartialEq, Eq, Structural)]
pub struct Local {
    pub idx: u32,
}

/// A contiguous range of local slots.
#[derive(Copy, Clone, Debug, PartialEq, Eq, Structural)]
pub struct LocalRange {
    pub start: Local,
    pub len: u32,
}

/// An iterator id.
#[derive(Copy, Clone, Debug, PartialEq, Eq, Structural)]
pub struct IterId {
    pub idx: u32,
}

/// The iterator, key and value operands of an iteration instruction.
#[derive(Copy, Clone, Debug, PartialEq, Eq, Structural)]
pub struct IterArgs {
    pub iter_id: IterId,
    pub key_id: Local,
    pub val_id: Local,
}

/// A branch target label.
#[derive(Copy, Clone, Debug, PartialEq, Eq, Structural)]
pub struct Label {
    pub id: u32,
}

/// Decode one signed 64-bit number token.
pub fn assemble_i64(c: &mut TokenCursor) -> (r: Result<i64, ParseError>)
    requires
        old(c).wf(),
    ensures
        final(c).wf(),
        final(c).toks() == old(c).toks(),
        (r is Ok) <==> (old(c).at() < old(c).toks().len() && (match old(c).toks()[old(c).at()] {
            Token::Number(v, _) => spec_parse_i64(v@) is Some,
            _ => false,
        })),
        r matches Ok(x) ==> final(c).at() == old(c).at() + 1 && (match old(c).toks()[old(
            c,
        ).at()] {
            Token::Number(v, _) => Some(x) == spec_parse_i64(v@),
            _ => false,
        }),
        r matches Err(e) ==> (match e.tok {
            Some(t2) => old(c).at() < old(c).toks().len() && token_den(t2) == token_den(
                old(c).toks()[old(c).at()],
            ) && e.pos == spec_token_pos(old(c).toks()[old(c).at()]),
            Option::None => old(c).at() >= old(c).toks().len() && e.kind
                == ParseErrorKind::UnexpectedEnd,
        }),
{
    let pos = c.here();
    match c.next() {
        Some(Token::Number(v, p)) => {
            let p = *p;
            match parse_i64(v.as_slice()) {
                Some(x) => Ok(x),
                Option::None => Err(err_num(ParseErrorKind::BadNumber, v, p)),
            }
        },
        Some(t) => Err(err_at(ParseErrorKind::UnexpectedToken, t)),
        Option::None => Err(err_end(pos)),
    }
}

/// Decode one unsigned 32-bit number token (stack indices, counts, ids).
pub fn assemble_u32(c: &mut TokenCursor) -> (r: Result<u32, ParseError>)
    requires
        old(c).wf(),
    ensures
        final(c).wf(),
        final(c).toks() == old(c).toks(),
        (r is Ok) <==> (old(c).at() < old(c).toks().len() && (match old(c).toks()[old(c).at()] {
            Token::Number(v, _) => v@.len() >= 1 && all_dec_digits(v@) && dec_val(v@)
                <= u32::MAX as int,
            _ => false,
        })),
        r matches Ok(x) ==> final(c).at() == old(c).at() + 1 && (match old(c).toks()[old(
            c,
        ).at()] {
            Token::Number(v, _) => x == dec_val(v@),
            _ => false,
        }),
        r matches Err(e) ==> (match e.tok {
            Some(t2) => old(c).at() < old(c).toks().len() && token_den(t2) == token_den(
                old(c).toks()[old(c).at()],
            ) && e.pos == spec_token_pos(old(c).toks()[old(c).at()]),
            Option::None => old(c).at() >= old(c).toks().len() && e.kind
                == ParseErrorKind::UnexpectedEnd,
        }),
{
    let pos = c.here();
    match c.next() {
        Some(Token::Number(v, p)) => {
            let p = *p;
            match parse_u32(v.as_slice()) {
                Some(x) => Ok(x),
                Option::None => Err(err_num(ParseErrorKind::BadNumber, v, p)),
            }
        },
        Some(t) => Err(err_at(ParseErrorKind::UnexpectedToken, t)),
        Option::None => Err(err_end(pos)),
    }
}

/// Decode an adata-pool id: a `@`-prefixed global token whose remainder has
/// the textual id form.
pub fn assemble_adata_id(c: &mut TokenCursor) -> (r: Result<AdataId, ParseError>)
    requires
        old(c).wf(),
    ensures
        final(c).wf(),
        final(c).toks() == old(c).toks(),
        (r is Ok) <==> (old(c).at() < old(c).toks().len() && (match old(c).toks()[old(c).at()] {
            Token::Global(v, _) => v@.len() >= 1 && v@[0] == 0x40u8 && (spec_parse_adata(v@.skip(1))
                is Some),
            _ => false,
        })),
        r matches Ok(id) ==> final(c).at() == old(c).at() + 1 && (match old(c).toks()[old(
            c,
        ).at()] {
            Token::Global(v, _) => Some(id.spec_id() as int) == spec_parse_adata(v@.skip(1)),
            _ => false,
        }),
        r matches Err(e) ==> (match e.tok {
            Some(t2) => old(c).at() < old(c).toks().len() && token_den(t2) == token_den(
                old(c).toks()[old(c).at()],
            ) && e.pos == spec_token_pos(old(c).toks()[old(c).at()]),
            Option::None => old(c).at() >= old(c).toks().len() && e.kind
                == ParseErrorKind::UnexpectedEnd,
        }),
{
    let pos = c.here();
    match c.next() {
        Some(Token::Global(v, p)) => {
            let p = *p;
            if v.len() < 1 || v[0] != 0x40 {
                return Err(err_global(ParseErrorKind::UnexpectedToken, v, p));
            }
            let body = &v.as_slice()[1..v.len()];
            assert(body@ == v@.skip(1));
            match AdataId::parse(body) {
                Ok(id) => Ok(id),
                Err(_) => Err(err_global(ParseErrorKind::BadNumber, v, p)),
            }
        },
        Some(t) => Err(err_at(ParseErrorKind::UnexpectedToken, t)),
        Option::None => Err(err_end(pos)),
    }
}

/// Decode one local: `$name` resolved through the declared-locals table, or
/// `_N` addressing slot N directly with no bounds check at decode time.
pub fn assemble_local(c: &mut TokenCursor, decl_map: &DeclMap) -> (r: Result<Local, ParseError>)
    requires
        old(c).wf(),
    ensures
        final(c).wf(),
        final(c).toks() == old(c).toks(),
        (r is Ok) <==> (old(c).at() < old(c).toks().len() && (match old(c).toks()[old(c).at()] {
            Token::Variable(v, _) => spec_decl_lookup(decl_map@, v@) is Some,
            Token::Identifier(i, _) => i@.len() >= 2 && i@[0] == 0x5Fu8 && all_dec_digits(
                i@.skip(1),
            ) && dec_val(i@.skip(1)) <= u32::MAX as int,
            _ => false,
        })),
        r matches Ok(loc) ==> final(c).at() == old(c).at() + 1 && (match old(c).toks()[old(
            c,
        ).at()] {
            Token::Variable(v, _) => spec_decl_lookup(decl_map@, v@) == Some(loc.idx),
            Token::Identifier(i, _) => loc.idx == dec_val(i@.skip(1)),
            _ => false,
        }),
        r matches Err(e) ==> (match e.tok {
            Some(t2) => old(c).at() < old(c).toks().len() && token_den(t2) == token_den(
                old(c).toks()[old(c).at()],
            ) && e.pos == spec_token_pos(old(c).toks()[old(c).at()]) && (match old(c).toks()[old(
                c,
            ).at()] {
                Token::Variable(v, _) => e.kind == ParseErrorKind::UnknownLocal
                    && spec_decl_lookup(decl_map@, v@) is None,
                Token::Identifier(i, _) => (e.kind == ParseErrorKind::UnexpectedToken && !(
                i@.len() >= 2 && i@[0] == 0x5Fu8)) || (e.kind == ParseErrorKind::BadNumber
                    && i@.len() >= 2 && i@[0] == 0x5Fu8),
                _ => e.kind == ParseErrorKind::UnexpectedToken,
            }),
            Option::None => old(c).at() >= old(c).toks().len() && e.kind
                == ParseErrorKind::UnexpectedEnd,
        }),
{
    let pos = c.here();
    match c.next() {
        Some(Token::Variable(v, p)) => {
            let p = *p;
            match decl_map.get(v.as_slice()) {
                Some(idx) => Ok(Local { idx }),
                Option::None => Err(err_var(ParseErrorKind::UnknownLocal, v, p)),
            }
        },
        Some(Token::Identifier(i, p)) => {
            let p = *p;
            if i.len() < 2 || i[0] != 0x5F {
                return Err(err_ident(ParseErrorKind::UnexpectedToken, i, p));
            }
            let digits = &i.as_slice()[1..i.len()];
            assert(digits@ == i@.skip(1));
            match parse_u32(digits) {
                Some(idx) => Ok(Local { idx }),
                Option::None => Err(err_ident(ParseErrorKind::BadNumber, i, p)),
            }
        },
        Some(t) => Err(err_at(ParseErrorKind::UnexpectedToken, t)),
        Option::None => Err(err_end(pos)),
    }
}

/// Decode one label: `L` followed by its decimal id.
pub fn assemble_label(c: &mut TokenCursor) -> (r: Result<Label, ParseError>)
    requires
        old(c).wf(),
    ensures
        final(c).wf(),
        final(c).toks() == old(c).toks(),
        (r is Ok) <==> (old(c).at() < old(c).toks().len() && (match old(c).toks()[old(c).at()] {
            Token::Identifier(i, _) => i@.len() >= 2 && i@[0] == 0x4Cu8 && all_dec_digits(
                i@.skip(1),
            ) && dec_val(i@.skip(1)) <= u32::MAX as int,
            _ => false,
        })),
        r matches Ok(l) ==> final(c).at() == old(c).at() + 1 && (match old(c).toks()[old(
            c,
        ).at()] {
            Token::Identifier(i, _) => l.id == dec_val(i@.skip(1)),
            _ => false,
        }),
        r matches Err(e) ==> (match e.tok {
            Some(t2) => old(c).at() < old(c).toks().len() && token_den(t2) == token_den(
                old(c).toks()[old(c).at()],
            ) && e.pos == spec_token_pos(old(c).toks()[old(c).at()]),
            Option::None => old(c).at() >= old(c).toks().len() && e.kind
                == ParseErrorKind::UnexpectedEnd,
        }),
{
    let pos = c.here();
    match c.next() {
        Some(Token::Identifier(i, p)) => {
            let p = *p;
            if i.len() < 2 || i[0] != 0x4C {
                return Err(err_ident(ParseErrorKind::UnexpectedToken, i, p));
            }
            let digits = &i.as_slice()[1..i.len()];
            assert(digits@ == i@.skip(1));
            match parse_u32(digits) {
                Some(id) => Ok(Label { id }),
                Option::None => Err(err_ident(ParseErrorKind::BadNumber, i, p)),
            }
        },
        Some(t) => Err(err_at(ParseErrorKind::UnexpectedToken, t)),
        Option::None => Err(err_end(pos)),
    }
}

/// The local range starting at `at`: `L`, `:`, a start slot and a length,
/// with the position after them.
pub open spec fn spec_local_range_from(toks: Seq<Token>, at: int) -> Option<(LocalRange, int)> {
    if at + 3 < toks.len() && (toks[at] matches Token::Identifier(l, _) && l@ == seq![0x4Cu8]) && (
    toks[at + 1] matches Token::Colon(_)) {
        match (spec_u32_tok(toks[at + 2]), spec_u32_tok(toks[at + 3])) {
            (Some(a), Some(b)) => Some((LocalRange { start: Local { idx: a }, len: b }, at + 4)),
            _ => Option::None,
        }
    } else {
        Option::None
    }
}

/// Decode a local range: `L:` start-number length-number.
pub fn assemble_local_range(c: &mut TokenCursor) -> (r: Result<LocalRange, ParseError>)
    requires
        old(c).wf(),
    ensures
        final(c).wf(),
        final(c).toks() == old(c).toks(),
        (r is Ok) <==> (spec_local_range_from(old(c).toks(), old(c).at()) is Some),
        r matches Ok(lr) ==> spec_local_range_from(old(c).toks(), old(c).at()) == Some(
            (lr, final(c).at()),
        ),
        r matches Err(e) ==> (e.tok matches Some(t2) ==> exists|k: int|
            old(c).at() <= k < old(c).toks().len() && token_den(t2) == token_den(
                #[trigger] old(c).toks()[k],
            )),
{
    let pos = c.here();
    match c.next() {
        Some(Token::Identifier(i, p)) => {
            let p = *p;
            if !(i.len() == 1 && i[0] == 0x4C) {
                proof {
                    if i@ == seq![0x4Cu8] {
                        assert(i@.len() == 1 && i@[0] == 0x4Cu8);
                    }
                }
                return Err(err_ident(ParseErrorKind::UnexpectedToken, i, p));
            }
            proof {
                assert(i@ =~= seq![0x4Cu8]);
            }
        },
        Some(t) => {
            return Err(err_at(ParseErrorKind::UnexpectedToken, t));
        },
        Option::None => {
            return Err(err_end(pos));
        },
    }
    let _ = c.expect_colon()?;
    let start = assemble_u32(c)?;
    let len = assemble_u32(c)?;
    Ok(LocalRange { start: Local { idx: start }, len })
}

/// The local one token denotes under the declared-locals table, if any.
pub open spec fn spec_local_tok(t: Token, dm: Seq<(Vec<u8>, u32)>) -> Option<Local> {
    match t {
        Token::Variable(v, _) => match spec_decl_lookup(dm, v@) {
            Some(idx) => Some(Local { idx }),
            Option::None => Option::None,
        },
        Token::Identifier(i, _) => if i@.len() >= 2 && i@[0] == 0x5Fu8 && all_dec_digits(
            i@.skip(1),
        ) && dec_val(i@.skip(1)) <= u32::MAX as int {
            Some(Local { idx: dec_val(i@.skip(1)) as u32 })
        } else {
            Option::None
        },
        _ => Option::None,
    }
}

/// The iterator args starting at `at`: the iterator index, then `NK` or
/// `K:` and a key local, then `V:` and a value local, with the position
/// after it all.  An absent key is the reserved all-ones slot.
pub open spec fn spec_iter_args_from(
    toks: Seq<Token>,
    at: int,
    dm: Seq<(Vec<u8>, u32)>,
) -> Option<(IterArgs, int)> {
    if at >= toks.len() || at + 1 >= toks.len() {
        Option::None
    } else {
        match spec_u32_tok(toks[at]) {
            Some(idx) => match toks[at + 1] {
                Token::Identifier(b, _) => if b@ == seq![0x4Eu8, 0x4Bu8] {
                    if at + 4 < toks.len() && (toks[at + 2] matches Token::Identifier(v, _) && v@
                        == seq![0x56u8]) && (toks[at + 3] matches Token::Colon(_)) {
                        match spec_local_tok(toks[at + 4], dm) {
                            Some(val) => Some(
                                (
                                    IterArgs {
                                        iter_id: IterId { idx },
                                        key_id: Local { idx: 0xFFFF_FFFFu32 },
                                        val_id: val,
                                    },
                                    at + 5,
                                ),
                            ),
                            Option::None => Option::None,
                        }
                    } else {
                        Option::None
                    }
                } else if b@ == seq![0x4Bu8] {
                    if at + 6 < toks.len() && (toks[at + 2] matches Token::Colon(_)) && (toks[at
                        + 4] matches Token::Identifier(v, _) && v@ == seq![0x56u8]) && (toks[at
                        + 5] matches Token::Colon(_)) {
                        match (spec_local_tok(toks[at + 3], dm), spec_local_tok(toks[at + 6], dm)) {
                            (Some(key), Some(val)) => Some(
                                (
                                    IterArgs { iter_id: IterId { idx }, key_id: key, val_id: val },
                                    at + 7,
                                ),
                            ),
                            _ => Option::None,
                        }
                    } else {
                        Option::None
                    }
                } else {
                    Option::None
                },
                _ => Option::None,
            },
            Option::None => Option::None,
        }
    }
}

/// Decode iterator args: index-number, then `NK` or `K:` + local, then
/// `V:` + local.
pub fn assemble_iter_args(c: &mut TokenCursor, decl_map: &DeclMap) -> (r: Result<
    IterArgs,
    ParseError,
>)
    requires
        old(c).wf(),
    ensures
        final(c).wf(),
        final(c).toks() == old(c).toks(),
        (r is Ok) <==> (spec_iter_args_from(old(c).toks(), old(c).at(), decl_map@) is Some),
        r matches Ok(ia) ==> spec_iter_args_from(old(c).toks(), old(c).at(), decl_map@) == Some(
            (ia, final(c).at()),
        ),
        r matches Err(e) ==> (e.tok matches Some(t2) ==> exists|k: int|
            old(c).at() <= k < old(c).toks().len() && token_den(t2) == token_den(
                #[trigger] old(c).toks()[k],
            )),
{
    let idx = assemble_u32(c)?;
    let pos = c.here();
    let nk = match c.next() {
        Some(Token::Identifier(i, p)) => {
            let p = *p;
            if i.len() == 2 && i[0] == 0x4E && i[1] == 0x4B {
                proof {
                    assert(i@ =~= seq![0x4Eu8, 0x4Bu8]);
                }
                true
            } else if i.len() == 1 && i[0] == 0x4B {
                proof {
                    assert(i@ =~= seq![0x4Bu8]);
                }
                false
            } else {
                return Err(err_ident(ParseErrorKind::UnexpectedToken, i, p));
            }
        },
        Some(t) => {
            return Err(err_at(ParseErrorKind::UnexpectedToken, t));
        },
        Option::None => {
            return Err(err_end(pos));
        },
    };
    let key_id = if nk {
        Local { idx: 0xFFFF_FFFF }
    } else {
        let _ = c.expect_colon()?;
        assemble_local(c, decl_map)?
    };
    let pos2 = c.here();
    match c.next() {
        Some(Token::Identifier(i, p)) => {
            let p = *p;
            if !(i.len() == 1 && i[0] == 0x56) {
                return Err(err_ident(ParseErrorKind::UnexpectedToken, i, p));
            }
            proof {
                assert(i@ =~= seq![0x56u8]);
            }
        },
        Some(t) => {
            return Err(err_at(ParseErrorKind::UnexpectedToken, t));
        },
        Option::None => {
            return Err(err_end(pos2));
        },
    }
    let _ = c.expect_colon()?;
    let val_id = assemble_local(c, decl_map)?;
    Ok(IterArgs { iter_id: IterId { idx }, key_id, val_id })
}

/// The label one token denotes, if it is a well-formed label token.
pub open spec fn spec_label_tok(t: Token) -> Option<Label> {
    match t {
        Token::Identifier(i, _) => if i@.len() >= 2 && i@[0] == 0x4Cu8 && all_dec_digits(
            i@.skip(1),
        ) && dec_val(i@.skip(1)) <= u32::MAX as int {
            Some(Label { id: dec_val(i@.skip(1)) as u32 })
        } else {
            Option::None
        },
        _ => Option::None,
    }
}

/// The labels between position `at` and the closing `>`, with the position
/// after the `>`; nothing if the grammar is not met before the stream ends.
pub open spec fn spec_label_list_from(toks: Seq<Token>, at: int) -> Option<(Seq<Label>, int)>
    decreases toks.len() - at when 0 <= at
{
    if at >= toks.len() {
        Option::None
    } else if toks[at] matches Token::Gt(_) {
        Some((Seq::<Label>::empty(), at + 1))
    } else {
        match spec_label_tok(toks[at]) {
            Some(l) => match spec_label_list_from(toks, at + 1) {
                Some(p) => Some((seq![l] + p.0, p.1)),
                Option::None => Option::None,
            },
            Option::None => Option::None,
        }
    }
}

/// Prefix collected labels onto a parse suffix, failing if the suffix
/// failed.
pub open spec fn spec_labels_prepend(p: Seq<Label>, o: Option<(Seq<Label>, int)>) -> Option<
    (Seq<Label>, int),
> {
    match o {
        Some(q) => Some((p + q.0, q.1)),
        Option::None => Option::None,
    }
}

/// Decode a label list: `<` repeated label tokens `>`.
pub fn assemble_label_list(c: &mut TokenCursor) -> (r: Result<Vec<Label>, ParseError>)
    requires
        old(c).wf(),
    ensures
        final(c).wf(),
        final(c).toks() == old(c).toks(),
        (r is Ok) <==> (old(c).at() < old(c).toks().len() && (old(c).toks()[old(c).at()]
            matches Token::Lt(_)) && (spec_label_list_from(old(c).toks(), old(c).at() + 1)
            is Some)),
        r matches Ok(ls) ==> spec_label_list_from(old(c).toks(), old(c).at() + 1) == Some(
            (ls@, final(c).at()),
        ),
        r matches Err(e) ==> (e.tok matches Some(t2) ==> exists|k: int|
            old(c).at() <= k < old(c).toks().len() && token_den(t2) == token_den(
                #[trigger] old(c).toks()[k],
            )),
{
    let _ = c.expect_lt()?;
    let ghost start = c.at();
    let mut labels: Vec<Label> = Vec::new();
    proof {
        assert(spec_labels_prepend(labels@, spec_label_list_from(c.toks(), c.at()))
            == spec_label_list_from(c.toks(), start)) by {
            if spec_label_list_from(c.toks(), start) is Some {
                assert(labels@ + spec_label_list_from(c.toks(), start).unwrap().0
                    =~= spec_label_list_from(c.toks(), start).unwrap().0);
            }
        }
    }
    loop
        invariant
            c.wf(),
            c.toks() == old(c).toks(),
            start == old(c).at() + 1,
            old(c).at() < old(c).toks().len(),
            old(c).toks()[old(c).at()] matches Token::Lt(_),
            start <= c.at(),
            spec_labels_prepend(labels@, spec_label_list_from(c.toks(), c.at()))
                == spec_label_list_from(c.toks(), start),
        ensures
            c.wf(),
            c.toks() == old(c).toks(),
            spec_labels_prepend(labels@, spec_label_list_from(c.toks(), c.at()))
                == spec_label_list_from(c.toks(), start),
            c.at() < c.toks().len() && c.toks()[c.at()] matches Token::Gt(_),
        decreases c.toks().len() - c.at(),
    {
        if c.peek_is_gt() {
            break ;
        }
        let ghost before = c.at();
        let ghost pre = labels@;
        let l = match assemble_label(c) {
            Ok(l) => l,
            Err(e) => {
                proof {
                    if before < c.toks().len() {
                        assert(spec_label_tok(c.toks()[before]) is None);
                    }
                    assert(spec_label_list_from(c.toks(), before) is None);
                }
                return Err(e);
            },
        };
        labels.push(l);
        proof {
            assert(c.at() == before + 1);
            assert(spec_label_tok(c.toks()[before]) == Some(l));
            assert(spec_labels_prepend(labels@, spec_label_list_from(c.toks(), c.at()))
                == spec_labels_prepend(pre, spec_label_list_from(c.toks(), before))) by {
                if spec_label_list_from(c.toks(), c.at()) is Some {
                    let q = spec_label_list_from(c.toks(), c.at()).unwrap();
                    assert(pre + (seq![l] + q.0) =~= labels@ + q.0);
                }
            }
        }
    }
    let ghost at_gt = c.at();
    let _ = c.expect_gt()?;
    proof {
        assert(spec_label_list_from(c.toks(), at_gt) == Some((Seq::<Label>::empty(), at_gt + 1)));
        assert(labels@ + Seq::<Label>::empty() =~= labels@);
    }
    Ok(labels)
}

/// The unescaped strings between position `at` and the closing `>`, with
/// the position after the `>`.
pub open spec fn spec_string_list_from(toks: Seq<Token>, at: int) -> Option<(Seq<Seq<u8>>, int)>
    decreases toks.len() - at when 0 <= at
{
    if at >= toks.len() {
        Option::None
    } else if toks[at] matches Token::Gt(_) {
        Some((Seq::<Seq<u8>>::empty(), at + 1))
    } else {
        match toks[at] {
            Token::StrLiteral(v, _) => match spec_literal_bytes(v@) {
                Some(b) => match spec_string_list_from(toks, at + 1) {
                    Some(p) => Some((seq![b] + p.0, p.1)),
                    Option::None => Option::None,
                },
                Option::None => Option::None,
            },
            _ => Option::None,
        }
    }
}

/// Prefix collected strings onto a parse suffix, failing if the suffix
/// failed.
pub open spec fn spec_strings_prepend(p: Seq<Seq<u8>>, o: Option<(Seq<Seq<u8>>, int)>) -> Option<
    (Seq<Seq<u8>>, int),
> {
    match o {
        Some(q) => Some((p + q.0, q.1)),
        Option::None => Option::None,
    }
}

/// Decode a string list: `<` repeated unescaped string tokens `>`.
pub fn assemble_string_list(c: &mut TokenCursor) -> (r: Result<Vec<Vec<u8>>, ParseError>)
    requires
        old(c).wf(),
    ensures
        final(c).wf(),
        final(c).toks() == old(c).toks(),
        (r is Ok) <==> (old(c).at() < old(c).toks().len() && (old(c).toks()[old(c).at()]
            matches Token::Lt(_)) && (spec_string_list_from(old(c).toks(), old(c).at() + 1)
            is Some)),
        r matches Ok(ss) ==> spec_string_list_from(old(c).toks(), old(c).at() + 1) == Some(
            (ss@.map_values(|v: Vec<u8>| v@), final(c).at()),
        ),
        r matches Err(e) ==> (e.tok matches Some(t2) ==> exists|k: int|
            old(c).at() <= k < old(c).toks().len() && token_den(t2) == token_den(
                #[trigger] old(c).toks()[k],
            )),
{
    let _ = c.expect_lt()?;
    let ghost start = c.at();
    let mut strs: Vec<Vec<u8>> = Vec::new();
    proof {
        assert(spec_strings_prepend(
            strs@.map_values(|v: Vec<u8>| v@),
            spec_string_list_from(c.toks(), c.at()),
        ) == spec_string_list_from(c.toks(), start)) by {
            assert(strs@.map_values(|v: Vec<u8>| v@) =~= Seq::<Seq<u8>>::empty());
            if spec_string_list_from(c.toks(), start) is Some {
                assert(strs@.map_values(|v: Vec<u8>| v@) + spec_string_list_from(
                    c.toks(),
                    start,
                ).unwrap().0 =~= spec_string_list_from(c.toks(), start).unwrap().0);
            }
        }
    }
    loop
        invariant
            c.wf(),
            c.toks() == old(c).toks(),
            start == old(c).at() + 1,
            old(c).at() < old(c).toks().len(),
            old(c).toks()[old(c).at()] matches Token::Lt(_),
            start <= c.at(),
            spec_strings_prepend(
                strs@.map_values(|v: Vec<u8>| v@),
                spec_string_list_from(c.toks(), c.at()),
            ) == spec_string_list_from(c.toks(), start),
        ensures
            c.wf(),
            c.toks() == old(c).toks(),
            spec_strings_prepend(
                strs@.map_values(|v: Vec<u8>| v@),
                spec_string_list_from(c.toks(), c.at()),
            ) == spec_string_list_from(c.toks(), start),
            c.at() < c.toks().len() && c.toks()[c.at()] matches Token::Gt(_),
        decreases c.toks().len() - c.at(),
    {
        if c.peek_is_gt() {
            break ;
        }
        let ghost before = c.at();
        let ghost pre = strs@.map_values(|v: Vec<u8>| v@);
        let s = match assemble_unescaped_unquoted(c) {
            Ok(s) => s,
            Err(e) => {
                proof {
                    if before < c.toks().len() {
                        assert(match c.toks()[before] {
                            Token::StrLiteral(v, _) => spec_literal_bytes(v@) is None,
                            _ => true,
                        });
                    }
                    assert(spec_string_list_from(c.toks(), before) is None);
                }
                return Err(e);
            },
        };
        let ghost sv = s@;
        strs.push(s);
        proof {
            assert(c.at() == before + 1);
            assert(strs@.map_values(|v: Vec<u8>| v@) =~= pre.push(sv));
            assert(spec_strings_prepend(
                strs@.map_values(|v: Vec<u8>| v@),
                spec_string_list_from(c.toks(), c.at()),
            ) == spec_strings_prepend(pre, spec_string_list_from(c.toks(), before))) by {
                if spec_string_list_from(c.toks(), c.at()) is Some {
                    let q = spec_string_list_from(c.toks(), c.at()).unwrap();
                    assert(pre + (seq![sv] + q.0) =~= pre.push(sv) + q.0);
                }
            }
        }
    }
    let ghost at_gt = c.at();
    let _ = c.expect_gt()?;
    proof {
        assert(spec_string_list_from(c.toks(), at_gt) == Some(
            (Seq::<Seq<u8>>::empty(), at_gt + 1),
        ));
        assert(strs@.map_values(|v: Vec<u8>| v@) + Seq::<Seq<u8>>::empty()
            =~= strs@.map_values(|v: Vec<u8>| v@));
    }
    Ok(strs)
}


// ---------------------------------------------------------------------------
// Member keys.
// ---------------------------------------------------------------------------
/// A member-operation key: one of eight tagged payloads or the bare `W`,
/// each (except `W`) followed by a read-only operator.
#[derive(Debug)]
pub enum MemberKey {
    EC(u32, ReadonlyOp),
    EL(Local, ReadonlyOp),
    ET(Vec<u8>, ReadonlyOp),
    EI(i64, ReadonlyOp),
    PC(u32, ReadonlyOp),
    PL(Local, ReadonlyOp),
    PT(PropName, ReadonlyOp),
    QT(PropName, ReadonlyOp),
    W,
}

/// The spec-level image of a decoded member key.
pub enum MemberKeyDen {
    EC(u32, ReadonlyOp),
    EL(Local, ReadonlyOp),
    ET(Seq<u8>, ReadonlyOp),
    EI(i64, ReadonlyOp),
    PC(u32, ReadonlyOp),
    PL(Local, ReadonlyOp),
    PT(Seq<u8>, ReadonlyOp),
    QT(Seq<u8>, ReadonlyOp),
    W,
}

/// The spec-level image of an exec member key.
pub open spec fn member_key_den(mk: MemberKey) -> MemberKeyDen {
    match mk {
        MemberKey::EC(i, ro) => MemberKeyDen::EC(i, ro),
        MemberKey::EL(l, ro) => MemberKeyDen::EL(l, ro),
        MemberKey::ET(b, ro) => MemberKeyDen::ET(b@, ro),
        MemberKey::EI(x, ro) => MemberKeyDen::EI(x, ro),
        MemberKey::PC(i, ro) => MemberKeyDen::PC(i, ro),
        MemberKey::PL(l, ro) => MemberKeyDen::PL(l, ro),
        MemberKey::PT(n, ro) => MemberKeyDen::PT(n@, ro),
        MemberKey::QT(n, ro) => MemberKeyDen::QT(n@, ro),
        MemberKey::W => MemberKeyDen::W,
    }
}

/// The read-only operator one token denotes, if any.
pub open spec fn spec_ro_tok(t: Token) -> Option<ReadonlyOp> {
    match t {
        Token::Identifier(b, _) => spec_parse_readonly_op(b@),
        _ => Option::None,
    }
}

/// The unescaped string one string-literal token denotes, if any.
pub open spec fn spec_str_tok(t: Token) -> Option<Seq<u8>> {
    match t {
        Token::StrLiteral(v, _) => spec_literal_bytes(v@),
        _ => Option::None,
    }
}

/// The signed number one token denotes, if any.
pub open spec fn spec_i64_tok(t: Token) -> Option<i64> {
    match t {
        Token::Number(v, _) => spec_parse_i64(v@),
        _ => Option::None,
    }
}

/// The member key starting at `at`: one of eight two-letter tags (each
/// followed by `:`, a kind-specific payload and a read-only operator) or
/// the bare `W`, with the position after it all.
pub open spec fn spec_member_key_from(
    toks: Seq<Token>,
    at: int,
    dm: Seq<(Vec<u8>, u32)>,
) -> Option<(MemberKeyDen, int)> {
    if at >= toks.len() {
        Option::None
    } else {
        match toks[at] {
            Token::Identifier(tag, _) => if tag@ == seq![0x57u8] {
                Some((MemberKeyDen::W, at + 1))
            } else if at + 3 < toks.len() && (toks[at + 1] matches Token::Colon(_)) {
                if tag@ == seq![0x45u8, 0x43u8] {
                    match (spec_u32_tok(toks[at + 2]), spec_ro_tok(toks[at + 3])) {
                        (Some(i), Some(ro)) => Some((MemberKeyDen::EC(i, ro), at + 4)),
                        _ => Option::None,
                    }
                } else if tag@ == seq![0x45u8, 0x4Cu8] {
                    match (spec_local_tok(toks[at + 2], dm), spec_ro_tok(toks[at + 3])) {
                        (Some(l), Some(ro)) => Some((MemberKeyDen::EL(l, ro), at + 4)),
                        _ => Option::None,
                    }
                } else if tag@ == seq![0x45u8, 0x54u8] {
                    match (spec_str_tok(toks[at + 2]), spec_ro_tok(toks[at + 3])) {
                        (Some(b), Some(ro)) => Some((MemberKeyDen::ET(b, ro), at + 4)),
                        _ => Option::None,
                    }
                } else if tag@ == seq![0x45u8, 0x49u8] {
                    match (spec_i64_tok(toks[at + 2]), spec_ro_tok(toks[at + 3])) {
                        (Some(x), Some(ro)) => Some((MemberKeyDen::EI(x, ro), at + 4)),
                        _ => Option::None,
                    }
                } else if tag@ == seq![0x50u8, 0x43u8] {
                    match (spec_u32_tok(toks[at + 2]), spec_ro_tok(toks[at + 3])) {
                        (Some(i), Some(ro)) => Some((MemberKeyDen::PC(i, ro), at + 4)),
                        _ => Option::None,
                    }
                } else if tag@ == seq![0x50u8, 0x4Cu8] {
                    match (spec_local_tok(toks[at + 2], dm), spec_ro_tok(toks[at + 3])) {
                        (Some(l), Some(ro)) => Some((MemberKeyDen::PL(l, ro), at + 4)),
                        _ => Option::None,
                    }
                } else if tag@ == seq![0x50u8, 0x54u8] {
                    match (spec_str_tok(toks[at + 2]), spec_ro_tok(toks[at + 3])) {
                        (Some(b), Some(ro)) => Some((MemberKeyDen::PT(b, ro), at + 4)),
                        _ => Option::None,
                    }
                } else if tag@ == seq![0x51u8, 0x54u8] {
                    match (spec_str_tok(toks[at + 2]), spec_ro_tok(toks[at + 3])) {
                        (Some(b), Some(ro)) => Some((MemberKeyDen::QT(b, ro), at + 4)),
                        _ => Option::None,
                    }
                } else {
                    Option::None
                }
            } else {
                Option::None
            },
            _ => Option::None,
        }
    }
}

/// Decode one member key: a two-letter tag (or `W`), `:`, a kind-specific
/// payload, then the trailing read-only operator.
#[verifier::rlimit(100)]
pub fn assemble_member_key(c: &mut TokenCursor, decl_map: &DeclMap) -> (r: Result<
    MemberKey,
    ParseError,
>)
    requires
        old(c).wf(),
    ensures
        final(c).wf(),
        final(c).toks() == old(c).toks(),
        (r is Ok) <==> (spec_member_key_from(old(c).toks(), old(c).at(), decl_map@) is Some),
        r matches Ok(mk) ==> spec_member_key_from(old(c).toks(), old(c).at(), decl_map@) == Some(
            (member_key_den(mk), final(c).at()),
        ),
        r matches Err(e) ==> (e.tok matches Some(t2) ==> exists|k: int|
            old(c).at() <= k < old(c).toks().len() && token_den(t2) == token_den(
                #[trigger] old(c).toks()[k],
            )),
{
    let pos = c.here();
    match c.next() {
        Some(Token::Identifier(tag, p)) => {
            let p = *p;
            if tag.len() == 1 && tag[0] == 0x57 {
                proof {
                    assert(tag@ =~= seq![0x57u8]);
                }
                return Ok(MemberKey::W);
            }
            if tag.len() != 2 {
                return Err(err_ident(ParseErrorKind::UnknownKeyword, tag, p));
            }
            let t0 = tag[0];
            let t1 = tag[1];
            if t0 == 0x45 && t1 == 0x43 {
                proof {
                    assert(tag@ =~= seq![0x45u8, 0x43u8]);
                }
                let _ = c.expect_colon()?;
                let idx = assemble_u32(c)?;
                let ro = assemble_readonly_op(c)?;
                Ok(MemberKey::EC(idx, ro))
            } else if t0 == 0x45 && t1 == 0x4C {
                proof {
                    assert(tag@ =~= seq![0x45u8, 0x4Cu8]);
                }
                let _ = c.expect_colon()?;
                let loc = assemble_local(c, decl_map)?;
                let ro = assemble_readonly_op(c)?;
                Ok(MemberKey::EL(loc, ro))
            } else if t0 == 0x45 && t1 == 0x54 {
                proof {
                    assert(tag@ =~= seq![0x45u8, 0x54u8]);
                }
                let _ = c.expect_colon()?;
                let bytes = assemble_unescaped_unquoted(c)?;
                let ro = assemble_readonly_op(c)?;
                Ok(MemberKey::ET(bytes, ro))
            } else if t0 == 0x45 && t1 == 0x49 {
                proof {
                    assert(tag@ =~= seq![0x45u8, 0x49u8]);
                }
                let _ = c.expect_colon()?;
                let x = assemble_i64(c)?;
                let ro = assemble_readonly_op(c)?;
                Ok(MemberKey::EI(x, ro))
            } else if t0 == 0x50 && t1 == 0x43 {
                proof {
                    assert(tag@ =~= seq![0x50u8, 0x43u8]);
                }
                let _ = c.expect_colon()?;
                let idx = assemble_u32(c)?;
                let ro = assemble_readonly_op(c)?;
                Ok(MemberKey::PC(idx, ro))
            } else if t0 == 0x50 && t1 == 0x4C {
                proof {
                    assert(tag@ =~= seq![0x50u8, 0x4Cu8]);
                }
                let _ = c.expect_colon()?;
                let loc = assemble_local(c, decl_map)?;
                let ro = assemble_readonly_op(c)?;
                Ok(MemberKey::PL(loc, ro))
            } else if t0 == 0x50 && t1 == 0x54 {
                proof {
                    assert(tag@ =~= seq![0x50u8, 0x54u8]);
                }
                let _ = c.expect_colon()?;
                let bytes = assemble_unescaped_unquoted(c)?;
                let ro = assemble_readonly_op(c)?;
                Ok(MemberKey::PT(PropName::new(bytes), ro))
            } else if t0 == 0x51 && t1 == 0x54 {
                proof {
                    assert(tag@ =~= seq![0x51u8, 0x54u8]);
                }
                let _ = c.expect_colon()?;
                let bytes = assemble_unescaped_unquoted(c)?;
                let ro = assemble_readonly_op(c)?;
                Ok(MemberKey::QT(PropName::new(bytes), ro))
            } else {
                Err(err_ident(ParseErrorKind::UnknownKeyword, tag, p))
            }
        },
        Some(t) => Err(err_at(ParseErrorKind::UnexpectedToken, t)),
        Option::None => Err(err_end(pos)),
    }
}

// ---------------------------------------------------------------------------
// Call-argument descriptors.
// ---------------------------------------------------------------------------
/// The decoded flag set, packed as one bit per keyword.
#[derive(Copy, Clone, Debug, PartialEq, Eq, Structural)]
pub struct FCallArgsFlags {
    pub bits: u32,
}

/// The bit a call-argument flag keyword names, if any.
pub open spec fn spec_fcall_flag_bit(b: Seq<u8>) -> Option<u32> {
    if b == seq![0x48u8, 0x61u8, 0x73u8, 0x55u8, 0x6Eu8, 0x70u8, 0x61u8, 0x63u8, 0x6Bu8] {
        Some(1u32)
    } else if b == seq![
        0x48u8, 0x61u8, 0x73u8, 0x47u8, 0x65u8, 0x6Eu8, 0x65u8, 0x72u8, 0x69u8, 0x63u8, 0x73u8,
    ] {
        Some(2u32)
    } else if b == seq![
        0x48u8, 0x61u8, 0x73u8, 0x49u8, 0x6Eu8, 0x4Fu8, 0x75u8, 0x74u8,
    ] {
        Some(4u32)
    } else if b == seq![
        0x45u8, 0x6Eu8, 0x66u8, 0x6Fu8, 0x72u8, 0x63u8, 0x65u8, 0x49u8, 0x6Eu8, 0x4Fu8, 0x75u8,
        0x74u8,
    ] {
        Some(8u32)
    } else if b == seq![
        0x45u8, 0x6Eu8, 0x66u8, 0x6Fu8, 0x72u8, 0x63u8, 0x65u8, 0x52u8, 0x65u8, 0x61u8, 0x64u8,
        0x6Fu8, 0x6Eu8, 0x6Cu8, 0x79u8,
    ] {
        Some(16u32)
    } else if b == seq![
        0x53u8, 0x6Bu8, 0x69u8, 0x70u8, 0x52u8, 0x65u8, 0x70u8, 0x61u8, 0x63u8, 0x6Bu8,
    ] {
        Some(32u32)
    } else {
        Option::None
    }
}

/// Decode one call-argument flag keyword into its bit.
fn assemble_fcall_flag(b: &Vec<u8>) -> (r: Option<u32>)
    ensures
        r == spec_fcall_flag_bit(b@),
{
    let k_unpack: [u8; 9] = [0x48, 0x61, 0x73, 0x55, 0x6E, 0x70, 0x61, 0x63, 0x6B];
    if crate::interner::bytes_eq(b.as_slice(), k_unpack.as_slice()) {
        proof {
            assert(b@ =~= seq![0x48u8, 0x61u8, 0x73u8, 0x55u8, 0x6Eu8, 0x70u8, 0x61u8, 0x63u8, 0x6Bu8]);
        }
        return Some(1);
    }
    let k_generics: [u8; 11] = [0x48, 0x61, 0x73, 0x47, 0x65, 0x6E, 0x65, 0x72, 0x69, 0x63, 0x73];
    if crate::interner::bytes_eq(b.as_slice(), k_generics.as_slice()) {
        proof {
            assert(b@ =~= seq![
                0x48u8, 0x61u8, 0x73u8, 0x47u8, 0x65u8, 0x6Eu8, 0x65u8, 0x72u8, 0x69u8, 0x63u8,
                0x73u8,
            ]);
        }
        return Some(2);
    }
    let k_hasinout: [u8; 8] = [0x48, 0x61, 0x73, 0x49, 0x6E, 0x4F, 0x75, 0x74];
    if crate::interner::bytes_eq(b.as_slice(), k_hasinout.as_slice()) {
        proof {
            assert(b@ =~= seq![0x48u8, 0x61u8, 0x73u8, 0x49u8, 0x6Eu8, 0x4Fu8, 0x75u8, 0x74u8]);
        }
        return Some(4);
    }
    let k_enfinout: [u8; 12] = [
        0x45, 0x6E, 0x66, 0x6F, 0x72, 0x63, 0x65, 0x49, 0x6E, 0x4F, 0x75, 0x74,
    ];
    if crate::interner::bytes_eq(b.as_slice(), k_enfinout.as_slice()) {
        proof {
            assert(b@ =~= seq![
                0x45u8, 0x6Eu8, 0x66u8, 0x6Fu8, 0x72u8, 0x63u8, 0x65u8, 0x49u8, 0x6Eu8, 0x4Fu8,
                0x75u8, 0x74u8,
            ]);
        }
        return Some(8);
    }
    let k_enfro: [u8; 15] = [
        0x45, 0x6E, 0x66, 0x6F, 0x72, 0x63, 0x65, 0x52, 0x65, 0x61, 0x64, 0x6F, 0x6E, 0x6C, 0x79,
    ];
    if crate::interner::bytes_eq(b.as_slice(), k_enfro.as_slice()) {
        proof {
            assert(b@ =~= seq![
                0x45u8, 0x6Eu8, 0x66u8, 0x6Fu8, 0x72u8, 0x63u8, 0x65u8, 0x52u8, 0x65u8, 0x61u8,
                0x64u8, 0x6Fu8, 0x6Eu8, 0x6Cu8, 0x79u8,
            ]);
        }
        return Some(16);
    }
    let k_skip: [u8; 10] = [0x53, 0x6B, 0x69, 0x70, 0x52, 0x65, 0x70, 0x61, 0x63, 0x6B];
    if crate::interner::bytes_eq(b.as_slice(), k_skip.as_slice()) {
        proof {
            assert(b@ =~= seq![
                0x53u8, 0x6Bu8, 0x69u8, 0x70u8, 0x52u8, 0x65u8, 0x70u8, 0x61u8, 0x63u8, 0x6Bu8,
            ]);
        }
        return Some(32);
    }
    None
}

/// The in/out or read-only bitset a token denotes: `-` for none, else one
/// `0`/`1` letter per argument.
pub open spec fn spec_bool_list(b: Seq<u8>) -> Option<Seq<bool>> {
    if b == seq![0x2Du8] {
        Some(Seq::<bool>::empty())
    } else if forall|i: int| 0 <= i < b.len() ==> (#[trigger] b[i]) == 0x30u8 || b[i] == 0x31u8 {
        Some(Seq::new(b.len(), |i: int| b[i] == 0x31u8))
    } else {
        Option::None
    }
}

/// Decode one in/out or read-only bitset token.
pub fn assemble_bool_list(c: &mut TokenCursor) -> (r: Result<Vec<bool>, ParseError>)
    requires
        old(c).wf(),
    ensures
        final(c).wf(),
        final(c).toks() == old(c).toks(),
        (r is Ok) <==> (old(c).at() < old(c).toks().len() && (match old(c).toks()[old(c).at()] {
            Token::Identifier(b, _) => spec_bool_list(b@) is Some,
            _ => false,
        })),
        r matches Ok(v) ==> final(c).at() == old(c).at() + 1 && (match old(c).toks()[old(
            c,
        ).at()] {
            Token::Identifier(b, _) => Some(v@) == spec_bool_list(b@),
            _ => false,
        }),
        r matches Err(e) ==> (match e.tok {
            Some(t2) => old(c).at() < old(c).toks().len() && token_den(t2) == token_den(
                old(c).toks()[old(c).at()],
            ) && e.pos == spec_token_pos(old(c).toks()[old(c).at()]),
            Option::None => old(c).at() >= old(c).toks().len() && e.kind
                == ParseErrorKind::UnexpectedEnd,
        }),
{
    let pos = c.here();
    match c.next() {
        Some(Token::Identifier(b, p)) => {
            let p = *p;
            let ghost bv = b@;
            let bytes = slice_to_vec(b.as_slice());
            if bytes.len() == 1 && bytes[0] == 0x2D {
                proof {
                    assert(bv =~= seq![0x2Du8]);
                }
                return Ok(Vec::new());
            }
            let mut out: Vec<bool> = Vec::new();
            let n = bytes.len();
            let mut i: usize = 0;
            while i < n
                invariant
                    c.wf(),
                    c.toks() == old(c).toks(),
                    c.at() == old(c).at() + 1,
                    old(c).at() < old(c).toks().len(),
                    old(c).toks()[old(c).at()] matches Token::Identifier(bb, pp) && bb@ == bv
                        && pp == p,
                    bytes@ == bv,
                    !(bv.len() == 1 && bv[0] == 0x2Du8),
                    n == bv.len(),
                    i <= n,
                    out@.len() == i,
                    forall|k: int|
                        0 <= k < i ==> ((#[trigger] bv[k]) == 0x30u8 || bv[k] == 0x31u8)
                            && out@[k] == (bv[k] == 0x31u8),
                decreases n - i,
            {
                let x = bytes[i];
                if x != 0x30 && x != 0x31 {
                    proof {
                        if bv == seq![0x2Du8] {
                            assert(bv.len() == 1 && bv[0] == 0x2Du8);
                        }
                        assert(!((bv[i as int]) == 0x30u8 || bv[i as int] == 0x31u8));
                    }
                    return Err(err_ident(ParseErrorKind::UnexpectedToken, &bytes, p));
                }
                out.push(x == 0x31);
                i += 1;
            }
            proof {
                if bv == seq![0x2Du8] {
                    assert(bv[0] == 0x2Du8);
                }
                assert(out@ =~= Seq::new(bv.len(), |k: int| bv[k] == 0x31u8));
            }
            Ok(out)
        },
        Some(t) => Err(err_at(ParseErrorKind::UnexpectedToken, t)),
        Option::None => Err(err_end(pos)),
    }
}

/// A decoded call-argument descriptor.
pub struct FCallArgs {
    pub flags: FCallArgsFlags,
    pub num_args: u32,
    pub num_rets: u32,
    pub inouts: Vec<bool>,
    pub readonly: Vec<bool>,
    pub async_eager_target: Option<Label>,
    pub context: Option<Vec<u8>>,
}

/// The spec-level image of a decoded call-argument descriptor.
pub struct FCallDen {
    pub bits: u32,
    pub num_args: u32,
    pub num_rets: u32,
    pub inouts: Seq<bool>,
    pub readonly: Seq<bool>,
    pub target: Option<Label>,
    pub context: Option<Seq<u8>>,
}

/// The flag bits between position `at` and the closing `>`, with the
/// position after the `>`.
pub open spec fn spec_fcall_flags_from(toks: Seq<Token>, at: int) -> Option<(u32, int)>
    decreases toks.len() - at when 0 <= at
{
    if at >= toks.len() {
        Option::None
    } else if toks[at] matches Token::Gt(_) {
        Some((0u32, at + 1))
    } else {
        match toks[at] {
            Token::Identifier(b, _) => match spec_fcall_flag_bit(b@) {
                Some(bit) => match spec_fcall_flags_from(toks, at + 1) {
                    Some(p) => Some((bit | p.0, p.1)),
                    Option::None => Option::None,
                },
                Option::None => Option::None,
            },
            _ => Option::None,
        }
    }
}

/// Fold collected bits onto a parse suffix, failing if the suffix failed.
pub open spec fn spec_bits_prepend(b: u32, o: Option<(u32, int)>) -> Option<(u32, int)> {
    match o {
        Some(p) => Some((b | p.0, p.1)),
        Option::None => Option::None,
    }
}

/// The unsigned 32-bit value one number token denotes, if any.
pub open spec fn spec_u32_tok(t: Token) -> Option<u32> {
    match t {
        Token::Number(v, _) => if v@.len() >= 1 && all_dec_digits(v@) && dec_val(v@)
            <= u32::MAX as int {
            Some(dec_val(v@) as u32)
        } else {
            Option::None
        },
        _ => Option::None,
    }
}

/// The bitset one token denotes, if any.
pub open spec fn spec_bools_tok(t: Token) -> Option<Seq<bool>> {
    match t {
        Token::Identifier(b, _) => spec_bool_list(b@),
        _ => Option::None,
    }
}

/// The optional eager-resume label one token denotes: `-` for none, else a
/// label.
pub open spec fn spec_opt_label_tok(t: Token) -> Option<Option<Label>> {
    match t {
        Token::Identifier(b, _) => if b@ == seq![0x2Du8] {
            Some(Option::<Label>::None)
        } else {
            match spec_label_tok(t) {
                Some(l) => Some(Some(l)),
                Option::None => Option::None,
            }
        },
        _ => Option::None,
    }
}

/// The optional call-context name one token denotes: `-` for none, else an
/// unescaped, unquoted string.
pub open spec fn spec_opt_context_tok(t: Token) -> Option<Option<Seq<u8>>> {
    match t {
        Token::Identifier(b, _) => if b@ == seq![0x2Du8] {
            Some(Option::<Seq<u8>>::None)
        } else {
            Option::None
        },
        Token::StrLiteral(v, _) => match spec_literal_bytes(v@) {
            Some(bytes) => Some(Some(bytes)),
            Option::None => Option::None,
        },
        _ => Option::None,
    }
}

/// The whole call-argument descriptor starting at `at`: the flag set, arg
/// count, return count, the two bitsets, the optional eager-resume label
/// and the optional call-context name, with the position after it all.
pub open spec fn spec_fcall_args_from(toks: Seq<Token>, at: int) -> Option<(FCallDen, int)> {
    if at >= toks.len() || !(toks[at] matches Token::Lt(_)) {
        Option::None
    } else {
        match spec_fcall_flags_from(toks, at + 1) {
            Some(fp) => {
                let p0 = fp.1;
                if p0 + 5 < toks.len() {
                    match (
                        spec_u32_tok(toks[p0]),
                        spec_u32_tok(toks[p0 + 1]),
                        spec_bools_tok(toks[p0 + 2]),
                        spec_bools_tok(toks[p0 + 3]),
                        spec_opt_label_tok(toks[p0 + 4]),
                        spec_opt_context_tok(toks[p0 + 5]),
                    ) {
                        (
                            Some(num_args),
                            Some(num_rets),
                            Some(inouts),
                            Some(readonly),
                            Some(target),
                            Some(context),
                        ) => Some(
                            (
                                FCallDen {
                                    bits: fp.0,
                                    num_args,
                                    num_rets,
                                    inouts,
                                    readonly,
                                    target,
                                    context,
                                },
                                p0 + 6,
                            ),
                        ),
                        _ => Option::None,
                    }
                } else {
                    Option::None
                }
            },
            Option::None => Option::None,
        }
    }
}

/// Decode a call-argument descriptor: flag set, arg count, return count,
/// in/out bitset, read-only bitset, optional eager-resume label, optional
/// call-context name.
pub fn assemble_fcall_args(c: &mut TokenCursor) -> (r: Result<FCallArgs, ParseError>)
    requires
        old(c).wf(),
    ensures
        final(c).wf(),
        final(c).toks() == old(c).toks(),
        (r is Ok) <==> (spec_fcall_args_from(old(c).toks(), old(c).at()) is Some),
        r matches Ok(f) ==> spec_fcall_args_from(old(c).toks(), old(c).at()) == Some(
            (
                FCallDen {
                    bits: f.flags.bits,
                    num_args: f.num_args,
                    num_rets: f.num_rets,
                    inouts: f.inouts@,
                    readonly: f.readonly@,
                    target: f.async_eager_target,
                    context: (match f.context {
                        Some(v) => Some(v@),
                        Option::None => Option::<Seq<u8>>::None,
                    }),
                },
                final(c).at(),
            ),
        ),
        r matches Err(e) ==> (e.tok matches Some(t2) ==> exists|k: int|
            old(c).at() <= k < old(c).toks().len() && token_den(t2) == token_den(
                #[trigger] old(c).toks()[k],
            )),
{
    let _ = c.expect_lt()?;
    let ghost start = c.at();
    let mut bits: u32 = 0;
    proof {
        assert(spec_bits_prepend(0u32, spec_fcall_flags_from(c.toks(), start))
            == spec_fcall_flags_from(c.toks(), start)) by {
            if spec_fcall_flags_from(c.toks(), start) is Some {
                let p = spec_fcall_flags_from(c.toks(), start).unwrap();
                assert(0u32 | p.0 == p.0) by (bit_vector);
            }
        }
    }
    loop
        invariant
            c.wf(),
            c.toks() == old(c).toks(),
            start == old(c).at() + 1,
            old(c).at() < old(c).toks().len(),
            old(c).toks()[old(c).at()] matches Token::Lt(_),
            start <= c.at(),
            spec_bits_prepend(bits, spec_fcall_flags_from(c.toks(), c.at()))
                == spec_fcall_flags_from(c.toks(), start),
        ensures
            c.wf(),
            c.toks() == old(c).toks(),
            spec_bits_prepend(bits, spec_fcall_flags_from(c.toks(), c.at()))
                == spec_fcall_flags_from(c.toks(), start),
            c.at() < c.toks().len() && c.toks()[c.at()] matches Token::Gt(_),
        decreases c.toks().len() - c.at(),
    {
        if c.peek_is_gt() {
            break ;
        }
        let ghost before = c.at();
        let ghost pre = bits;
        let bit = match c.next() {
            Some(Token::Identifier(b, p)) => {
                let p = *p;
                match assemble_fcall_flag(b) {
                    Some(bit) => bit,
                    Option::None => {
                        return Err(err_ident(ParseErrorKind::UnknownKeyword, b, p));
                    },
                }
            },
            Some(t) => {
                return Err(err_at(ParseErrorKind::UnexpectedToken, t));
            },
            Option::None => {
                return Err(err_end(Pos { line: 0, col: 0 }));
            },
        };
        bits = bits | bit;
        proof {
            assert(spec_bits_prepend(bits, spec_fcall_flags_from(c.toks(), c.at()))
                == spec_bits_prepend(pre, spec_fcall_flags_from(c.toks(), before))) by {
                if spec_fcall_flags_from(c.toks(), c.at()) is Some {
                    let q = spec_fcall_flags_from(c.toks(), c.at()).unwrap();
                    let b0 = bit;
                    let q0 = q.0;
                    assert(pre | (b0 | q0) == (pre | b0) | q0) by (bit_vector);
                }
            }
        }
    }
    let ghost at_gt = c.at();
    let _ = c.expect_gt()?;
    let ghost p0 = c.at();
    proof {
        assert(spec_fcall_flags_from(c.toks(), at_gt) == Some((0u32, at_gt + 1)));
        assert(bits | 0u32 == bits) by (bit_vector);
        assert(spec_fcall_flags_from(c.toks(), start) == Some((bits, p0)));
    }
    let num_args = assemble_u32(c)?;
    let num_rets = assemble_u32(c)?;
    let inouts = assemble_bool_list(c)?;
    let readonly = assemble_bool_list(c)?;
    // `-` for no eager-resume label, else the label itself.
    let async_eager_target = match c.peek() {
        Some(Token::Identifier(b, _)) if b.len() == 1 && b[0] == 0x2D => {
            proof {
                let t = c.toks()[c.at()];
                assert(t->Identifier_0@ =~= seq![0x2Du8]);
            }
            let _ = c.next();
            Option::None
        },
        _ => Some(assemble_label(c)?),
    };
    // `-` for no call context, else an unescaped, unquoted name.
    let context = match c.peek() {
        Some(Token::Identifier(b, _)) if b.len() == 1 && b[0] == 0x2D => {
            proof {
                let t = c.toks()[c.at()];
                assert(t->Identifier_0@ =~= seq![0x2Du8]);
            }
            let _ = c.next();
            Option::None
        },
        _ => Some(assemble_unescaped_unquoted(c)?),
    };
    Ok(
        FCallArgs {
            flags: FCallArgsFlags { bits },
            num_args,
            num_rets,
            inouts,
            readonly,
            async_eager_target,
            context,
        },
    )
}

} // verus!
