use vstd::prelude::*;

use json_tools::{Buffer, BufferType, Lexer, TokenType};

verus! {

/// Marker byte for structural punctuation, malformed tokens, and every byte
/// no token span covers.
pub const MARK_STRUCT: u8 = 65;

/// Marker byte for string literals (delimiting quotes included in the span).
pub const MARK_STRING: u8 = 66;

/// Marker byte for the literal atoms `true`, `false` and `null`.
pub const MARK_ATOM: u8 = 67;

/// Marker byte for numbers.
pub const MARK_NUMBER: u8 = 68;

/// The highlight category of one lexical token.
#[derive(Debug, Clone, Copy, PartialEq, Eq, Structural)]
pub enum TokenKind {
    /// Structural punctuation (braces, brackets, colon, comma) or a token
    /// the lexer could not identify.
    Structure,
    /// A string literal; its span includes the delimiting quotes.
    StringLit,
    /// One of the literal atoms `true`, `false`, `null`.
    Atom,
    /// A number.
    Number,
}

/// A classified lexical token: a category and the byte span `[first, end)`
/// it occupies in the text it was lexed from.
#[derive(Debug, Clone, Copy, PartialEq, Eq, Structural)]
pub struct Token {
    pub kind: TokenKind,
    pub first: usize,
    pub end: usize,
}

/// The marker byte that paints a token of kind `k`.
pub open spec fn marker_byte(k: TokenKind) -> u8 {
    match k {
        TokenKind::Structure => MARK_STRUCT,
        TokenKind::StringLit => MARK_STRING,
        TokenKind::Atom => MARK_ATOM,
        TokenKind::Number => MARK_NUMBER,
    }
}

/// Executable twin of `marker_byte`.
pub fn marker_of(k: TokenKind) -> (b: u8)
    ensures
        b == marker_byte(k),
{
    match k {
        TokenKind::Structure => MARK_STRUCT,
        TokenKind::StringLit => MARK_STRING,
        TokenKind::Atom => MARK_ATOM,
        TokenKind::Number => MARK_NUMBER,
    }
}

/// The token's span lies inside a text of `len` bytes.
pub open spec fn span_in_bounds(t: Token, len: nat) -> bool {
    t.first <= t.end && t.end <= len
}

/// Painting one token over a buffer: every byte of an in-bounds span is
/// overwritten with the token's marker; a token whose span does not fit the
/// buffer is rejected and paints nothing.
pub open spec fn paint_token(buf: Seq<u8>, t: Token) -> Seq<u8> {
    if span_in_bounds(t, buf.len()) {
        Seq::new(
            buf.len(),
            |i: int|
                if t.first <= i < t.end {
                    marker_byte(t.kind)
                } else {
                    buf[i]
                },
        )
    } else {
        buf
    }
}

/// The style overlay for a text of `len` bytes under the token stream
/// `toks`: a buffer of exactly `len` marker bytes, all `MARK_STRUCT` to
/// begin with, painted by each token in stream order.
pub open spec fn spec_style_buffer(len: nat, toks: Seq<Token>) -> Seq<u8>
    decreases toks.len(),
{
    if toks.len() == 0 {
        Seq::new(len, |i: int| MARK_STRUCT)
    } else {
        paint_token(spec_style_buffer(len, toks.drop_last()), toks.last())
    }
}

/// The overlay is byte-for-byte aligned with the text: whatever the token
/// stream holds, its length equals the text's length.
pub proof fn lemma_style_buffer_len(len: nat, toks: Seq<Token>)
    ensures
        spec_style_buffer(len, toks).len() == len,
    decreases toks.len(),
{
    if toks.len() > 0 {
        lemma_style_buffer_len(len, toks.drop_last());
    }
}

/// Building the overlay is a pure function of the text length and the token
/// stream: two buffers built from the same pair are identical.
pub proof fn lemma_style_buffer_round_trip(len: nat, toks: Seq<Token>, r1: Seq<u8>, r2: Seq<u8>)
    requires
        r1 == spec_style_buffer(len, toks),
        r2 == spec_style_buffer(len, toks),
    ensures
        r1 == r2,
{
}

/// Spans arrive in non-decreasing order and never overlap: each token's
/// span ends no later than the next one starts.
pub open spec fn spans_well_formed(toks: Seq<Token>) -> bool {
    forall|i: int, j: int|
        #![trigger toks[i], toks[j]]
        0 <= i < j < toks.len() ==> toks[i].end <= toks[j].first
}

/// A byte position no token span covers keeps the default marker, whatever
/// order the spans come in.
pub proof fn lemma_style_buffer_uncovered(len: nat, toks: Seq<Token>, p: int)
    requires
        0 <= p < len,
        forall|k: int| 0 <= k < toks.len() ==> !((#[trigger] toks[k]).first <= p < toks[k].end),
    ensures
        spec_style_buffer(len, toks)[p] == MARK_STRUCT,
    decreases toks.len(),
{
    if toks.len() > 0 {
        lemma_style_buffer_len(len, toks.drop_last());
        assert(forall|k: int|
            0 <= k < toks.drop_last().len() ==> (#[trigger] toks.drop_last()[k]) == toks[k]);
        lemma_style_buffer_uncovered(len, toks.drop_last(), p);
        assert(!(toks[toks.len() - 1].first <= p < toks[toks.len() - 1].end));
    }
}

/// With a well-formed stream of in-bounds spans, a byte position inside the
/// span of token `k` ends up painted with exactly that token's marker: no
/// later token overwrites it.
pub proof fn lemma_style_buffer_covered(len: nat, toks: Seq<Token>, k: int, p: int)
    requires
        spans_well_formed(toks),
        forall|i: int| 0 <= i < toks.len() ==> span_in_bounds(#[trigger] toks[i], len),
        0 <= k < toks.len(),
        toks[k].first <= p < toks[k].end,
    ensures
        spec_style_buffer(len, toks)[p] == marker_byte(toks[k].kind),
    decreases toks.len(),
{
    lemma_style_buffer_len(len, toks.drop_last());
    let last = toks.last();
    if k == toks.len() - 1 {
        assert(span_in_bounds(last, len));
    } else {
        assert(forall|i: int|
            0 <= i < toks.drop_last().len() ==> (#[trigger] toks.drop_last()[i]) == toks[i]);
        assert(toks[k].end <= last.first);
        lemma_style_buffer_covered(len, toks.drop_last(), k, p);
        assert(!(last.first <= p < last.end));
    }
}

/// Build the style overlay for a text of `len` bytes from its token stream.
///
/// The buffer starts out all `MARK_STRUCT` and each token paints its span
/// in stream order; a token whose span does not fit in `[0, len)` is
/// rejected and paints nothing.
pub fn build_style_buffer(len: usize, toks: &Vec<Token>) -> (r: Vec<u8>)
    ensures
        r@ == spec_style_buffer(len as nat, toks@),
        r@.len() == len,
{
    let mut buf: Vec<u8> = Vec::new();
    let mut i: usize = 0;
    while i < len
        invariant
            i <= len,
            buf@.len() == i,
            forall|q: int| 0 <= q < i ==> buf@[q] == MARK_STRUCT,
        decreases len - i,
    {
        buf.push(MARK_STRUCT);
        i = i + 1;
    }
    proof {
        assert(buf@ =~= spec_style_buffer(len as nat, toks@.take(0)));
    }
    let mut j: usize = 0;
    while j < toks.len()
        invariant
            j <= toks.len(),
            buf@.len() == len,
            buf@ == spec_style_buffer(len as nat, toks@.take(j as int)),
        decreases toks.len() - j,
    {
        let t = toks[j];
        let ghost prev = buf@;
        if t.first <= t.end && t.end <= len {
            let m = marker_of(t.kind);
            let mut p: usize = t.first;
            while p < t.end
                invariant
                    t.first <= p <= t.end,
                    t.end <= len,
                    m == marker_byte(t.kind),
                    buf@.len() == len,
                    prev.len() == len,
                    forall|q: int| 0 <= q < len && !(t.first <= q < p) ==> buf@[q] == prev[q],
                    forall|q: int| t.first <= q < p ==> buf@[q] == marker_byte(t.kind),
                decreases t.end - p,
            {
                buf[p] = m;
                p = p + 1;
            }
            proof {
                assert(buf@ =~= paint_token(prev, t));
            }
        } else {
            proof {
                assert(buf@ =~= paint_token(prev, t));
            }
        }
        proof {
            assert(toks@.take(j as int + 1).drop_last() =~= toks@.take(j as int));
            assert(toks@.take(j as int + 1).last() == toks@[j as int]);
        }
        j = j + 1;
    }
    proof {
        assert(toks@.take(toks@.len() as int) =~= toks@);
    }
    buf
}

/// What `json_tools`'s span-mode lexer yields on a byte text: a function of
/// the input bytes alone.
pub uninterp spec fn json_tokens(s: Seq<u8>) -> Seq<Token>;

/// Relies on `json_tools::Lexer` iterated in span mode: the token stream of
/// a text is deterministic in the input bytes, each token carrying its
/// category and byte span (string spans include the delimiting quotes).
#[verifier::external_body]
fn lex_tokens(s: &Vec<u8>) -> (r: Vec<Token>)
    ensures
        r@ == json_tokens(s@),
{
    let mut out = Vec::new();
    for t in Lexer::new(s.iter().copied(), BufferType::Span) {
        let kind = match t.kind {
            TokenType::String => TokenKind::StringLit,
            TokenType::Number => TokenKind::Number,
            TokenType::BooleanTrue | TokenType::BooleanFalse | TokenType::Null => TokenKind::Atom,
            TokenType::CurlyOpen | TokenType::CurlyClose | TokenType::BracketOpen => TokenKind::Structure,
            TokenType::BracketClose | TokenType::Colon | TokenType::Comma => TokenKind::Structure,
            TokenType::Invalid => TokenKind::Structure,
        };
        if let Buffer::Span(sp) = t.buf {
            out.push(Token { kind, first: sp.first as usize, end: sp.end as usize });
        }
    }
    out
}

/// The style overlay of `text`: lex it as JSON and paint one marker byte
/// per text byte.
pub fn style_overlay(text: &Vec<u8>) -> (r: Vec<u8>)
    ensures
        r@ == spec_style_buffer(text@.len(), json_tokens(text@)),
        r@.len() == text@.len(),
{
    let toks = lex_tokens(text);
    build_style_buffer(text.len(), &toks)
}

} // verus!

