//! Tokens of the normalisation pipeline.

use vstd::prelude::*;
use crate::abbr::Gender;

verus! {

/// The value of a number token.
#[derive(Debug, Clone, PartialEq, Structural)]
pub enum NumberValue {
    Integer(i64),
    Decimal {
        int_part: i64,
        dec_part: u32,
        dec_places: usize,
    },
}

/// A token as the lexer cuts it from the text.
#[derive(Debug, Clone)]
pub enum RawToken {
    Word(String),
    Number {
        raw: String,
        is_negative: bool,
        int_part: String,
        dec_part: Option<String>,
        suffix: Option<String>,
    },
    Time {
        hours: String,
        minutes: String,
        seconds: Option<String>,
    },
    Date {
        day: String,
        month: String,
        year: Option<String>,
    },
    Punctuation(char),
    Whitespace(String),
}

/// A token after the context around it has been read.
#[derive(Debug, Clone)]
pub enum Token {
    Word {
        text: String,
        is_abbr: bool,
    },
    Number {
        raw: String,
        is_negative: bool,
        value: NumberValue,
        suffix: Option<String>,
        unit: Option<String>,
        context_noun: Option<String>,
        preposition: Option<String>,
        governed_by_decimal: bool,
        gender: Gender,
    },
    Time {
        hours: u8,
        minutes: u8,
        seconds: Option<u8>,
        preposition: Option<String>,
    },
    Date {
        day: u8,
        month: u8,
        year: Option<u16>,
        preposition: Option<String>,
    },
    Punctuation(char),
    Whitespace(String),
}

/// The mathematical content of a `RawToken`.
pub enum RawTok {
    Word(Seq<char>),
    Number {
        raw: Seq<char>,
        is_negative: bool,
        int_part: Seq<char>,
        dec_part: Option<Seq<char>>,
        suffix: Option<Seq<char>>,
    },
    Time {
        hours: Seq<char>,
        minutes: Seq<char>,
        seconds: Option<Seq<char>>,
    },
    Date {
        day: Seq<char>,
        month: Seq<char>,
        year: Option<Seq<char>>,
    },
    Punctuation(char),
    Whitespace(Seq<char>),
}

/// The mathematical content of a `Token`.
pub enum Tok {
    Word {
        text: Seq<char>,
        is_abbr: bool,
    },
    Number {
        raw: Seq<char>,
        is_negative: bool,
        value: NumberValue,
        suffix: Option<Seq<char>>,
        unit: Option<Seq<char>>,
        context_noun: Option<Seq<char>>,
        preposition: Option<Seq<char>>,
        governed_by_decimal: bool,
        gender: Gender,
    },
    Time {
        hours: u8,
        minutes: u8,
        seconds: Option<u8>,
        preposition: Option<Seq<char>>,
    },
    Date {
        day: u8,
        month: u8,
        year: Option<u16>,
        preposition: Option<Seq<char>>,
    },
    Punctuation(char),
    Whitespace(Seq<char>),
}

/// The characters of an optional string.
pub open spec fn opt_string_view(o: Option<String>) -> Option<Seq<char>> {
    match o {
        Some(s) => Some(s@),
        None => None,
    }
}

impl View for RawToken {
    type V = RawTok;

    open spec fn view(&self) -> RawTok {
        match self {
            RawToken::Word(w) => RawTok::Word(w@),
            RawToken::Number { raw, is_negative, int_part, dec_part, suffix } => RawTok::Number {
                raw: raw@,
                is_negative: *is_negative,
                int_part: int_part@,
                dec_part: opt_string_view(*dec_part),
                suffix: opt_string_view(*suffix),
            },
            RawToken::Time { hours, minutes, seconds } => RawTok::Time {
                hours: hours@,
                minutes: minutes@,
                seconds: opt_string_view(*seconds),
            },
            RawToken::Date { day, month, year } => RawTok::Date {
                day: day@,
                month: month@,
                year: opt_string_view(*year),
            },
            RawToken::Punctuation(c) => RawTok::Punctuation(*c),
            RawToken::Whitespace(w) => RawTok::Whitespace(w@),
        }
    }
}

impl View for Token {
    type V = Tok;

    open spec fn view(&self) -> Tok {
        match self {
            Token::Word { text, is_abbr } => Tok::Word { text: text@, is_abbr: *is_abbr },
            Token::Number {
                raw,
                is_negative,
                value,
                suffix,
                unit,
                context_noun,
                preposition,
                governed_by_decimal,
                gender,
            } => Tok::Number {
                raw: raw@,
                is_negative: *is_negative,
                value: *value,
                suffix: opt_string_view(*suffix),
                unit: opt_string_view(*unit),
                context_noun: opt_string_view(*context_noun),
                preposition: opt_string_view(*preposition),
                governed_by_decimal: *governed_by_decimal,
                gender: *gender,
            },
            Token::Time { hours, minutes, seconds, preposition } => Tok::Time {
                hours: *hours,
                minutes: *minutes,
                seconds: *seconds,
                preposition: opt_string_view(*preposition),
            },
            Token::Date { day, month, year, preposition } => Tok::Date {
                day: *day,
                month: *month,
                year: *year,
                preposition: opt_string_view(*preposition),
            },
            Token::Punctuation(c) => Tok::Punctuation(*c),
            Token::Whitespace(w) => Tok::Whitespace(w@),
        }
    }
}

/// The models of a sequence of raw tokens.
pub open spec fn raw_views(ts: Seq<RawToken>) -> Seq<RawTok>
    decreases ts.len(),
{
    if ts.len() == 0 {
        Seq::empty()
    } else {
        raw_views(ts.drop_last()).push(ts.last()@)
    }
}

/// The models of a sequence of tokens.
pub open spec fn tok_views(ts: Seq<Token>) -> Seq<Tok>
    decreases ts.len(),
{
    if ts.len() == 0 {
        Seq::empty()
    } else {
        tok_views(ts.drop_last()).push(ts.last()@)
    }
}

pub proof fn lemma_raw_views_push(ts: Seq<RawToken>, t: RawToken)
    ensures
        raw_views(ts.push(t)) == raw_views(ts).push(t@),
{
    assert(ts.push(t).drop_last() =~= ts);
}

pub proof fn lemma_tok_views_push(ts: Seq<Token>, t: Token)
    ensures
        tok_views(ts.push(t)) == tok_views(ts).push(t@),
{
    assert(ts.push(t).drop_last() =~= ts);
}

pub proof fn lemma_tok_views_len(ts: Seq<Token>)
    ensures
        tok_views(ts).len() == ts.len(),
        forall|i: int| 0 <= i < ts.len() ==> tok_views(ts)[i] == (#[trigger] ts[i])@,
    decreases ts.len(),
{
    if ts.len() > 0 {
        lemma_tok_views_len(ts.drop_last());
        assert forall|i: int| 0 <= i < ts.len() implies tok_views(ts)[i] == (#[trigger] ts[i])@ by {
            if i < ts.len() - 1 {
                assert(ts[i] == ts.drop_last()[i]);
            }
        }
    }
}

} // verus!
