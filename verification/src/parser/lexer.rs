//! Lexical analysis: turns source text into the token stream the parser
//! consumes. Identifiers are ASCII words; string literals run to the next
//! quote with no escape forms; `#` introduces a raw string (`#"..."`), an
//! attribute opener (`#[`) or a block id (`#name` or `#123`). The spec
//! functions here say exactly which tokens (or which error) every character
//! stream scans to, and the scanner is proved equal to them.

use vstd::prelude::*;
use vstd::string::StrSliceExecFns;
use vstd::string::StringExecFns;

use crate::parser::ParseError;
use crate::parser::grammar::SpecParseError;
use crate::parser::grammar::SpecToken;
use crate::parser::grammar::spec_step;

verus! {

/// One lexical token of the source language.
#[derive(Debug, PartialEq, Clone)]
pub enum Token {
    Identifier(String),
    IntegerLiteral(String),
    FloatLiteral(String),
    StringLiteral(String),
    RawStringLiteral(String),
    BooleanLiteral(bool),
    BlockId(String),
    KwFunction,
    KwLet,
    KwLink,
    AttributeOpen,
    LParen,
    RParen,
    LBrace,
    RBrace,
    RBracket,
    Comma,
    Dot,
    Plus,
    Minus,
    Star,
    Slash,
    Caret,
    Bang,
    Equals,
    Semicolon,
}

/// Relies on String::push: appends one character to the string.
#[verifier::external_body]
fn push_char(s: &mut String, c: char)
    ensures
        final(s)@ == old(s)@.push(c),
{
    s.push(c);
}

pub open spec fn spec_is_digit(c: char) -> bool {
    48 <= c as u32 && c as u32 <= 57
}

pub open spec fn spec_is_letter(c: char) -> bool {
    (65 <= c as u32 && c as u32 <= 90) || (97 <= c as u32 && c as u32 <= 122)
}

pub open spec fn spec_is_identifier_char(c: char) -> bool {
    spec_is_letter(c) || spec_is_digit(c) || c as u32 == 95
}

pub open spec fn spec_is_whitespace(c: char) -> bool {
    c as u32 == 32 || c as u32 == 9 || c as u32 == 10 || c as u32 == 13
}

fn is_digit(c: char) -> (r: bool)
    ensures
        r == spec_is_digit(c),
{
    let u = c as u32;
    48 <= u && u <= 57
}

fn is_letter(c: char) -> (r: bool)
    ensures
        r == spec_is_letter(c),
{
    let u = c as u32;
    (65 <= u && u <= 90) || (97 <= u && u <= 122)
}

fn is_identifier_char(c: char) -> (r: bool)
    ensures
        r == spec_is_identifier_char(c),
{
    is_letter(c) || is_digit(c) || c as u32 == 95
}

fn is_whitespace(c: char) -> (r: bool)
    ensures
        r == spec_is_whitespace(c),
{
    let u = c as u32;
    u == 32 || u == 9 || u == 10 || u == 13
}

/// Character-for-character string equality.
pub fn str_equal(a: &str, b: &str) -> (r: bool)
    ensures
        r == (a@ == b@),
{
    let n = a.unicode_len();
    let m = b.unicode_len();
    if n != m {
        proof {
            assert(a@ != b@) by {
                if a@ == b@ {
                    assert(a@.len() == b@.len());
                }
            }
        }
        return false;
    }
    let mut i: usize = 0;
    while i < n
        invariant
            i <= n,
            n == a@.len(),
            n == b@.len(),
            forall|j: int| 0 <= j < i ==> a@[j] == b@[j],
        decreases n - i,
    {
        let ca = a.get_char(i);
        let cb = b.get_char(i);
        if ca != cb {
            proof {
                assert(a@[i as int] != b@[i as int]);
            }
            return false;
        }
        i = i + 1;
    }
    proof {
        assert(a@ =~= b@);
    }
    true
}

/// The characters of a string, in order.
pub fn str_to_chars(s: &str) -> (r: Vec<char>)
    ensures
        r@ == s@,
{
    let n = s.unicode_len();
    let mut out: Vec<char> = Vec::new();
    let mut i: usize = 0;
    while i < n
        invariant
            i <= n,
            n == s@.len(),
            out@ =~= s@.subrange(0, i as int),
        decreases n - i,
    {
        out.push(s.get_char(i));
        i = i + 1;
        proof {
            assert(out@ =~= s@.subrange(0, i as int));
        }
    }
    proof {
        assert(out@ =~= s@);
    }
    out
}

/// The text of a string literal from `p` up to its closing quote, and the
/// position after the quote; `None` if the literal never closes.
pub open spec fn spec_scan_string(chars: Seq<char>, p: int) -> Option<(Seq<char>, int)>
    decreases chars.len() - p,
{
    if p >= chars.len() {
        None
    } else if chars[p] == '"' {
        Some((Seq::empty(), p + 1))
    } else {
        match spec_scan_string(chars, p + 1) {
            None => None,
            Some((text, end)) => Some((seq![chars[p]] + text, end)),
        }
    }
}

/// The identifier characters running from `p`, and the position after them.
pub open spec fn spec_scan_word(chars: Seq<char>, p: int) -> (Seq<char>, int)
    decreases chars.len() - p,
{
    if p >= chars.len() || !spec_is_identifier_char(chars[p]) {
        (Seq::empty(), p)
    } else {
        let (rest, end) = spec_scan_word(chars, p + 1);
        (seq![chars[p]] + rest, end)
    }
}

/// The digits running from `p`, and the position after them.
pub open spec fn spec_scan_digits(chars: Seq<char>, p: int) -> (Seq<char>, int)
    decreases chars.len() - p,
{
    if p >= chars.len() || !spec_is_digit(chars[p]) {
        (Seq::empty(), p)
    } else {
        let (rest, end) = spec_scan_digits(chars, p + 1);
        (seq![chars[p]] + rest, end)
    }
}

/// A scanned string literal ends after its position and inside the stream.
pub proof fn lemma_scan_string_bounds(chars: Seq<char>, p: int)
    ensures
        spec_scan_string(chars, p) matches Some((_, end)) ==> p < end <= chars.len(),
    decreases chars.len() - p,
{
    if p < chars.len() && chars[p] != '"' {
        lemma_scan_string_bounds(chars, p + 1);
    }
}

/// A scanned word ends at or after its position and inside the stream.
pub proof fn lemma_scan_word_bounds(chars: Seq<char>, p: int)
    ensures
        p <= spec_scan_word(chars, p).1,
        p <= chars.len() ==> spec_scan_word(chars, p).1 <= chars.len(),
    decreases chars.len() - p,
{
    if p < chars.len() && spec_is_identifier_char(chars[p]) {
        lemma_scan_word_bounds(chars, p + 1);
    }
}

/// A scanned digit run ends at or after its position and inside the stream.
pub proof fn lemma_scan_digits_bounds(chars: Seq<char>, p: int)
    ensures
        p <= spec_scan_digits(chars, p).1,
        p <= chars.len() ==> spec_scan_digits(chars, p).1 <= chars.len(),
    decreases chars.len() - p,
{
    if p < chars.len() && spec_is_digit(chars[p]) {
        lemma_scan_digits_bounds(chars, p + 1);
    }
}

/// The token of an identifier-shaped word: a keyword, a boolean literal, or
/// a plain identifier.
pub open spec fn spec_word_token(word: Seq<char>) -> SpecToken {
    if word == "function"@ {
        SpecToken::KwFunction
    } else if word == "let"@ {
        SpecToken::KwLet
    } else if word == "link"@ {
        SpecToken::KwLink
    } else if word == "true"@ {
        SpecToken::BooleanLiteral(true)
    } else if word == "false"@ {
        SpecToken::BooleanLiteral(false)
    } else {
        SpecToken::Identifier(word)
    }
}

/// One scanning step at `pos`: the token opened there (none for a skipped
/// whitespace character) and the position after it, or the offending
/// character.
pub open spec fn spec_next_token(chars: Seq<char>, pos: int) -> Result<
    (Option<SpecToken>, int),
    SpecParseError,
>
    recommends
        0 <= pos < chars.len(),
{
    let c = chars[pos];
    if spec_is_whitespace(c) {
        Ok((None, pos + 1))
    } else if c == '(' {
        Ok((Some(SpecToken::LParen), pos + 1))
    } else if c == ')' {
        Ok((Some(SpecToken::RParen), pos + 1))
    } else if c == '{' {
        Ok((Some(SpecToken::LBrace), pos + 1))
    } else if c == '}' {
        Ok((Some(SpecToken::RBrace), pos + 1))
    } else if c == ']' {
        Ok((Some(SpecToken::RBracket), pos + 1))
    } else if c == ',' {
        Ok((Some(SpecToken::Comma), pos + 1))
    } else if c == '.' {
        Ok((Some(SpecToken::Dot), pos + 1))
    } else if c == '+' {
        Ok((Some(SpecToken::Plus), pos + 1))
    } else if c == '-' {
        Ok((Some(SpecToken::Minus), pos + 1))
    } else if c == '*' {
        Ok((Some(SpecToken::Star), pos + 1))
    } else if c == '/' {
        Ok((Some(SpecToken::Slash), pos + 1))
    } else if c == '^' {
        Ok((Some(SpecToken::Caret), pos + 1))
    } else if c == '!' {
        Ok((Some(SpecToken::Bang), pos + 1))
    } else if c == '=' {
        Ok((Some(SpecToken::Equals), pos + 1))
    } else if c == ';' {
        Ok((Some(SpecToken::Semicolon), pos + 1))
    } else if c == '"' {
        match spec_scan_string(chars, pos + 1) {
            None => Err(SpecParseError::Character { position: pos }),
            Some((text, end)) => Ok((Some(SpecToken::StringLiteral(text)), end)),
        }
    } else if c == '#' {
        if pos + 1 >= chars.len() {
            Err(SpecParseError::Character { position: pos })
        } else {
            let c2 = chars[pos + 1];
            if c2 == '"' {
                match spec_scan_string(chars, pos + 2) {
                    None => Err(SpecParseError::Character { position: pos }),
                    Some((text, end)) => Ok((Some(SpecToken::RawStringLiteral(text)), end)),
                }
            } else if c2 == '[' {
                Ok((Some(SpecToken::AttributeOpen), pos + 2))
            } else if spec_is_identifier_char(c2) {
                let (word, end) = spec_scan_word(chars, pos + 1);
                Ok((Some(SpecToken::BlockId(word)), end))
            } else {
                Err(SpecParseError::Character { position: pos + 1 })
            }
        }
    } else if spec_is_digit(c) {
        let (digits, p1) = spec_scan_digits(chars, pos);
        if p1 < chars.len() && chars[p1] == '.' && p1 + 1 < chars.len() && spec_is_digit(
            chars[p1 + 1],
        ) {
            let (fraction, p2) = spec_scan_digits(chars, p1 + 1);
            Ok((Some(SpecToken::FloatLiteral(digits + seq!['.'] + fraction)), p2))
        } else {
            Ok((Some(SpecToken::IntegerLiteral(digits)), p1))
        }
    } else if spec_is_letter(c) || c as u32 == 95 {
        let (word, end) = spec_scan_word(chars, pos);
        Ok((Some(spec_word_token(word)), end))
    } else {
        Err(SpecParseError::Character { position: pos })
    }
}

/// The tokens of the character stream from `pos` to its end.
pub open spec fn spec_tokenize_from(chars: Seq<char>, pos: int) -> Result<
    Seq<SpecToken>,
    SpecParseError,
>
    decreases chars.len() - pos,
{
    if pos >= chars.len() {
        Ok(Seq::empty())
    } else {
        match spec_next_token(chars, pos) {
            Err(err) => Err(err),
            Ok((opt, next)) => match spec_tokenize_from(
                chars,
                spec_step(chars.len() as int, pos, next),
            ) {
                Err(err) => Err(err),
                Ok(rest) => Ok(
                    match opt {
                        Some(token) => seq![token] + rest,
                        None => rest,
                    },
                ),
            },
        }
    }
}

/// The tokens of a whole character stream.
pub open spec fn spec_tokenize(chars: Seq<char>) -> Result<Seq<SpecToken>, SpecParseError> {
    spec_tokenize_from(chars, 0)
}

/// Scans a string-literal body from `start` up to its closing quote.
fn scan_string(chars: &Vec<char>, start: usize) -> (r: Option<(String, usize)>)
    requires
        start <= chars.len(),
    ensures
        match spec_scan_string(chars@, start as int) {
            None => r is None,
            Some((text, end)) => r matches Some((rt, rend)) && rt@ == text && rend as int == end
                && start < rend <= chars.len(),
        },
{
    proof {
        lemma_scan_string_bounds(chars@, start as int);
    }
    let mut text = String::new();
    let mut p = start;
    let n = chars.len();
    while p < n
        invariant
            start <= p <= n,
            n == chars.len(),
            match spec_scan_string(chars@, p as int) {
                None => spec_scan_string(chars@, start as int) is None,
                Some((rest, end)) => spec_scan_string(chars@, start as int) matches Some(
                    (full, fend),
                ) && full == text@ + rest && fend == end,
            },
        decreases n - p,
    {
        let d = chars[p];
        if d == '"' {
            proof {
                lemma_scan_string_bounds(chars@, start as int);
                assert(text@ + Seq::<char>::empty() =~= text@);
            }
            return Some((text, p + 1));
        }
        push_char(&mut text, d);
        p = p + 1;
        proof {
            assert(forall|rest: Seq<char>|
                text@.drop_last() + (seq![text@.last()] + rest) =~= #[trigger] (text@ + rest));
        }
    }
    None
}

/// Scans the identifier characters running from `start`.
fn scan_word(chars: &Vec<char>, start: usize) -> (r: (String, usize))
    requires
        start <= chars.len(),
    ensures
        r.0@ == spec_scan_word(chars@, start as int).0,
        r.1 as int == spec_scan_word(chars@, start as int).1,
        start <= r.1 <= chars.len(),
{
    let mut text = String::new();
    let mut p = start;
    let n = chars.len();
    while p < n && is_identifier_char(chars[p])
        invariant
            start <= p <= n,
            n == chars.len(),
            spec_scan_word(chars@, start as int).0 == text@ + spec_scan_word(chars@, p as int).0,
            spec_scan_word(chars@, start as int).1 == spec_scan_word(chars@, p as int).1,
        decreases n - p,
    {
        push_char(&mut text, chars[p]);
        p = p + 1;
        proof {
            assert(forall|rest: Seq<char>|
                text@.drop_last() + (seq![text@.last()] + rest) =~= #[trigger] (text@ + rest));
        }
    }
    proof {
        assert(spec_scan_word(chars@, p as int).0 =~= Seq::<char>::empty());
        assert(text@ + Seq::<char>::empty() =~= text@);
    }
    (text, p)
}

/// Scans the digits running from `start`.
fn scan_digits(chars: &Vec<char>, start: usize) -> (r: (String, usize))
    requires
        start <= chars.len(),
    ensures
        r.0@ == spec_scan_digits(chars@, start as int).0,
        r.1 as int == spec_scan_digits(chars@, start as int).1,
        start <= r.1 <= chars.len(),
{
    let mut text = String::new();
    let mut p = start;
    let n = chars.len();
    while p < n && is_digit(chars[p])
        invariant
            start <= p <= n,
            n == chars.len(),
            spec_scan_digits(chars@, start as int).0 == text@ + spec_scan_digits(
                chars@,
                p as int,
            ).0,
            spec_scan_digits(chars@, start as int).1 == spec_scan_digits(chars@, p as int).1,
        decreases n - p,
    {
        push_char(&mut text, chars[p]);
        p = p + 1;
        proof {
            assert(forall|rest: Seq<char>|
                text@.drop_last() + (seq![text@.last()] + rest) =~= #[trigger] (text@ + rest));
        }
    }
    proof {
        assert(spec_scan_digits(chars@, p as int).0 =~= Seq::<char>::empty());
        assert(text@ + Seq::<char>::empty() =~= text@);
    }
    (text, p)
}

/// Scans one token (or a skipped whitespace character) at `pos`.
fn next_token(chars: &Vec<char>, pos: usize) -> (r: Result<(Option<Token>, usize), ParseError>)
    requires
        pos < chars.len(),
    ensures
        match spec_next_token(chars@, pos as int) {
            Ok((opt, next)) => r matches Ok((ropt, rnext)) && ropt.deep_view() == opt
                && rnext as int == next && pos < rnext <= chars.len(),
            Err(err) => r matches Err(re) && re.deep_view() == err,
        },
{
    let n = chars.len();
    let c = chars[pos];
    if is_whitespace(c) {
        Ok((None, pos + 1))
    } else if c == '(' {
        Ok((Some(Token::LParen), pos + 1))
    } else if c == ')' {
        Ok((Some(Token::RParen), pos + 1))
    } else if c == '{' {
        Ok((Some(Token::LBrace), pos + 1))
    } else if c == '}' {
        Ok((Some(Token::RBrace), pos + 1))
    } else if c == ']' {
        Ok((Some(Token::RBracket), pos + 1))
    } else if c == ',' {
        Ok((Some(Token::Comma), pos + 1))
    } else if c == '.' {
        Ok((Some(Token::Dot), pos + 1))
    } else if c == '+' {
        Ok((Some(Token::Plus), pos + 1))
    } else if c == '-' {
        Ok((Some(Token::Minus), pos + 1))
    } else if c == '*' {
        Ok((Some(Token::Star), pos + 1))
    } else if c == '/' {
        Ok((Some(Token::Slash), pos + 1))
    } else if c == '^' {
        Ok((Some(Token::Caret), pos + 1))
    } else if c == '!' {
        Ok((Some(Token::Bang), pos + 1))
    } else if c == '=' {
        Ok((Some(Token::Equals), pos + 1))
    } else if c == ';' {
        Ok((Some(Token::Semicolon), pos + 1))
    } else if c == '"' {
        match scan_string(chars, pos + 1) {
            None => Err(ParseError::Character { position: pos }),
            Some((text, end)) => Ok((Some(Token::StringLiteral(text)), end)),
        }
    } else if c == '#' {
        if pos + 1 >= n {
            return Err(ParseError::Character { position: pos });
        }
        let c2 = chars[pos + 1];
        if c2 == '"' {
            match scan_string(chars, pos + 2) {
                None => Err(ParseError::Character { position: pos }),
                Some((text, end)) => Ok((Some(Token::RawStringLiteral(text)), end)),
            }
        } else if c2 == '[' {
            Ok((Some(Token::AttributeOpen), pos + 2))
        } else if is_identifier_char(c2) {
            let (word, end) = scan_word(chars, pos + 1);
            Ok((Some(Token::BlockId(word)), end))
        } else {
            Err(ParseError::Character { position: pos + 1 })
        }
    } else if is_digit(c) {
        let (digits, p1) = scan_digits(chars, pos);
        proof {
            lemma_scan_digits_bounds(chars@, pos as int + 1);
        }
        if p1 < n && chars[p1] == '.' && p1 + 1 < n && is_digit(chars[p1 + 1]) {
            let (fraction, p2) = scan_digits(chars, p1 + 1);
            let mut text = digits;
            push_char(&mut text, '.');
            let joined = text.concat(fraction.as_str());
            proof {
                assert(joined@ =~= spec_scan_digits(chars@, pos as int).0 + seq!['.']
                    + spec_scan_digits(chars@, p1 as int + 1).0);
            }
            Ok((Some(Token::FloatLiteral(joined)), p2))
        } else {
            Ok((Some(Token::IntegerLiteral(digits)), p1))
        }
    } else if is_letter(c) || c as u32 == 95 {
        let (word, end) = scan_word(chars, pos);
        proof {
            lemma_scan_word_bounds(chars@, pos as int + 1);
        }
        let token = if str_equal(word.as_str(), "function") {
            Token::KwFunction
        } else if str_equal(word.as_str(), "let") {
            Token::KwLet
        } else if str_equal(word.as_str(), "link") {
            Token::KwLink
        } else if str_equal(word.as_str(), "true") {
            Token::BooleanLiteral(true)
        } else if str_equal(word.as_str(), "false") {
            Token::BooleanLiteral(false)
        } else {
            Token::Identifier(word)
        };
        Ok((Some(token), end))
    } else {
        Err(ParseError::Character { position: pos })
    }
}

/// Scans the whole character stream into tokens. A character that opens no
/// token, a `#` followed by nothing usable, and an unterminated string
/// literal are reported as `ParseError::Character` with the position of the
/// offending character.
pub fn tokenize(chars: &Vec<char>) -> (r: Result<Vec<Token>, ParseError>)
    ensures
        match spec_tokenize(chars@) {
            Ok(toks) => r matches Ok(v) && v.deep_view() == toks,
            Err(err) => r matches Err(re) && re.deep_view() == err,
        },
{
    let mut tokens: Vec<Token> = Vec::new();
    let mut pos: usize = 0;
    let n = chars.len();
    proof {
        assert(tokens.deep_view() =~= Seq::<SpecToken>::empty());
    }
    while pos < n
        invariant
            pos <= n,
            n == chars.len(),
            match spec_tokenize_from(chars@, pos as int) {
                Ok(rest) => spec_tokenize_from(chars@, 0) == Ok::<Seq<SpecToken>, SpecParseError>(
                    tokens.deep_view() + rest,
                ),
                Err(err) => spec_tokenize_from(chars@, 0) == Err::<
                    Seq<SpecToken>,
                    SpecParseError,
                >(err),
            },
        decreases n - pos,
    {
        match next_token(chars, pos) {
            Err(err) => {
                return Err(err);
            },
            Ok((opt, next)) => {
                let ghost tokens_before = tokens.deep_view();
                match opt {
                    Some(token) => {
                        let ghost token_dv = token.deep_view();
                        tokens.push(token);
                        proof {
                            assert(tokens.deep_view() =~= tokens_before.push(token_dv));
                            assert(forall|rest: Seq<SpecToken>|
                                tokens_before + (seq![token_dv] + rest) =~= #[trigger] (
                                tokens_before.push(token_dv) + rest));
                        }
                    },
                    None => {},
                }
                pos = next;
            },
        }
    }
    proof {
        assert(tokens.deep_view() + Seq::<SpecToken>::empty() =~= tokens.deep_view());
    }
    Ok(tokens)
}

} // verus!
