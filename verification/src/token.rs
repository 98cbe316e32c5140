//! The tokens of an awk-like language over Haystack values: operators,
//! braces, numbers, strings and names.
use vstd::prelude::*;
use vstd::string::StrSliceExecFns;
use crate::text::{str_chars, chars_slice_string, to_owned_string};
use crate::io::parse::lex::{at, char_at, tag, char_is, run_end, Class};
use crate::io::parse::grammar::{quoted, number as number_rule, ZVal, models};
use crate::io::parse::values::ParseErr;
use crate::io::parse::zinc::string as zinc_string;
use crate::io::parse::number as zinc_number;
use crate::h_number::{HNumber, HUnit, NumTrait};
use crate::h_str::HStr;
use crate::h_val::HVal;

verus! {

/// An operator.
#[derive(Debug, PartialEq, Eq, Structural, Clone, Copy)]
pub enum Operator {
    Add,
    Subtract,
    Multiply,
    Divide,
    Modulo,
    Equal,
    NotEqual,
    LessThan,
    GreaterThan,
    LessThanOrEqual,
    GreaterThanOrEqual,
    And,
    Or,
    Not,
    Match,
    NotMatch,
    Assign,
    AddAssign,
    SubtractAssign,
    MultiplyAssign,
    DivideAssign,
    ModuloAssign,
    Increment,
    Decrement,
    Field,
}

/// The operator written at the front of `s`, trying the two-character
/// operators before the one-character operators they begin with, and its length.
pub open spec fn operator_at(s: Seq<char>) -> Option<(Operator, int)> {
    if at(s, 0, "++"@) {
        Some((Operator::Increment, 2int))
    } else if at(s, 0, "--"@) {
        Some((Operator::Decrement, 2int))
    } else if at(s, 0, "+="@) {
        Some((Operator::AddAssign, 2int))
    } else if at(s, 0, "-="@) {
        Some((Operator::SubtractAssign, 2int))
    } else if at(s, 0, "*="@) {
        Some((Operator::MultiplyAssign, 2int))
    } else if at(s, 0, "/="@) {
        Some((Operator::DivideAssign, 2int))
    } else if at(s, 0, "%="@) {
        Some((Operator::ModuloAssign, 2int))
    } else if at(s, 0, "+"@) {
        Some((Operator::Add, 1int))
    } else if at(s, 0, "-"@) {
        Some((Operator::Subtract, 1int))
    } else if at(s, 0, "*"@) {
        Some((Operator::Multiply, 1int))
    } else if at(s, 0, "/"@) {
        Some((Operator::Divide, 1int))
    } else if at(s, 0, "%"@) {
        Some((Operator::Modulo, 1int))
    } else if at(s, 0, "=="@) {
        Some((Operator::Equal, 2int))
    } else if at(s, 0, "!="@) {
        Some((Operator::NotEqual, 2int))
    } else if at(s, 0, "<="@) {
        Some((Operator::LessThanOrEqual, 2int))
    } else if at(s, 0, ">="@) {
        Some((Operator::GreaterThanOrEqual, 2int))
    } else if at(s, 0, "<"@) {
        Some((Operator::LessThan, 1int))
    } else if at(s, 0, ">"@) {
        Some((Operator::GreaterThan, 1int))
    } else if at(s, 0, "!~"@) {
        Some((Operator::NotMatch, 2int))
    } else if at(s, 0, "~"@) {
        Some((Operator::Match, 1int))
    } else if at(s, 0, "&&"@) {
        Some((Operator::And, 2int))
    } else if at(s, 0, "||"@) {
        Some((Operator::Or, 2int))
    } else if at(s, 0, "!"@) {
        Some((Operator::Not, 1int))
    } else if at(s, 0, "="@) {
        Some((Operator::Assign, 1int))
    } else if at(s, 0, "$"@) {
        Some((Operator::Field, 1int))
    } else {
        None
    }
}

impl Operator {
    /// The text of the operator.
    pub open spec fn text(&self) -> Seq<char> {
        match self {
            Operator::Add => "+"@,
            Operator::Subtract => "-"@,
            Operator::Multiply => "*"@,
            Operator::Divide => "/"@,
            Operator::Modulo => "%"@,
            Operator::Equal => "=="@,
            Operator::NotEqual => "!="@,
            Operator::LessThan => "<"@,
            Operator::GreaterThan => ">"@,
            Operator::LessThanOrEqual => "<="@,
            Operator::GreaterThanOrEqual => ">="@,
            Operator::And => "&&"@,
            Operator::Or => "||"@,
            Operator::Not => "!"@,
            Operator::Match => "~"@,
            Operator::NotMatch => "!~"@,
            Operator::Assign => "="@,
            Operator::AddAssign => "+="@,
            Operator::SubtractAssign => "-="@,
            Operator::MultiplyAssign => "*="@,
            Operator::DivideAssign => "/="@,
            Operator::ModuloAssign => "%="@,
            Operator::Increment => "++"@,
            Operator::Decrement => "--"@,
            Operator::Field => "$"@,
        }
    }

    /// The text of the operator.
    pub fn as_str(&self) -> (r: &str)
        ensures
            r@ == self.text(),
    {
        match self {
            Operator::Add => "+",
            Operator::Subtract => "-",
            Operator::Multiply => "*",
            Operator::Divide => "/",
            Operator::Modulo => "%",
            Operator::Equal => "==",
            Operator::NotEqual => "!=",
            Operator::LessThan => "<",
            Operator::GreaterThan => ">",
            Operator::LessThanOrEqual => "<=",
            Operator::GreaterThanOrEqual => ">=",
            Operator::And => "&&",
            Operator::Or => "||",
            Operator::Not => "!",
            Operator::Match => "~",
            Operator::NotMatch => "!~",
            Operator::Assign => "=",
            Operator::AddAssign => "+=",
            Operator::SubtractAssign => "-=",
            Operator::MultiplyAssign => "*=",
            Operator::DivideAssign => "/=",
            Operator::ModuloAssign => "%=",
            Operator::Increment => "++",
            Operator::Decrement => "--",
            Operator::Field => "$",
        }
    }

    /// The operator at the front of `input` (see `operator_at`), and the rest.
    pub fn parse(input: &str) -> (r: Result<(&str, Operator), ParseErr>)
        ensures
            match operator_at(input@) {
                Some((op, n)) => r matches Ok((rest, o)) && o == op && rest@ == input@.skip(n),
                None => r == Err::<(&str, Operator), ParseErr>(ParseErr::NoMatch),
            },
    {
        let cs = str_chars(input);
        let found: Option<(Operator, usize)> =
        if tag(&cs, 0, "++") {
            Some((Operator::Increment, 2usize))
        } else if tag(&cs, 0, "--") {
            Some((Operator::Decrement, 2usize))
        } else if tag(&cs, 0, "+=") {
            Some((Operator::AddAssign, 2usize))
        } else if tag(&cs, 0, "-=") {
            Some((Operator::SubtractAssign, 2usize))
        } else if tag(&cs, 0, "*=") {
            Some((Operator::MultiplyAssign, 2usize))
        } else if tag(&cs, 0, "/=") {
            Some((Operator::DivideAssign, 2usize))
        } else if tag(&cs, 0, "%=") {
            Some((Operator::ModuloAssign, 2usize))
        } else if tag(&cs, 0, "+") {
            Some((Operator::Add, 1usize))
        } else if tag(&cs, 0, "-") {
            Some((Operator::Subtract, 1usize))
        } else if tag(&cs, 0, "*") {
            Some((Operator::Multiply, 1usize))
        } else if tag(&cs, 0, "/") {
            Some((Operator::Divide, 1usize))
        } else if tag(&cs, 0, "%") {
            Some((Operator::Modulo, 1usize))
        } else if tag(&cs, 0, "==") {
            Some((Operator::Equal, 2usize))
        } else if tag(&cs, 0, "!=") {
            Some((Operator::NotEqual, 2usize))
        } else if tag(&cs, 0, "<=") {
            Some((Operator::LessThanOrEqual, 2usize))
        } else if tag(&cs, 0, ">=") {
            Some((Operator::GreaterThanOrEqual, 2usize))
        } else if tag(&cs, 0, "<") {
            Some((Operator::LessThan, 1usize))
        } else if tag(&cs, 0, ">") {
            Some((Operator::GreaterThan, 1usize))
        } else if tag(&cs, 0, "!~") {
            Some((Operator::NotMatch, 2usize))
        } else if tag(&cs, 0, "~") {
            Some((Operator::Match, 1usize))
        } else if tag(&cs, 0, "&&") {
            Some((Operator::And, 2usize))
        } else if tag(&cs, 0, "||") {
            Some((Operator::Or, 2usize))
        } else if tag(&cs, 0, "!") {
            Some((Operator::Not, 1usize))
        } else if tag(&cs, 0, "=") {
            Some((Operator::Assign, 1usize))
        } else if tag(&cs, 0, "$") {
            Some((Operator::Field, 1usize))
        } else {
            None
        };
        proof {
            reveal_strlit("++");
            reveal_strlit("--");
            reveal_strlit("+=");
            reveal_strlit("-=");
            reveal_strlit("*=");
            reveal_strlit("/=");
            reveal_strlit("%=");
            reveal_strlit("+");
            reveal_strlit("-");
            reveal_strlit("*");
            reveal_strlit("/");
            reveal_strlit("%");
            reveal_strlit("==");
            reveal_strlit("!=");
            reveal_strlit("<=");
            reveal_strlit(">=");
            reveal_strlit("<");
            reveal_strlit(">");
            reveal_strlit("!~");
            reveal_strlit("~");
            reveal_strlit("&&");
            reveal_strlit("||");
            reveal_strlit("!");
            reveal_strlit("=");
            reveal_strlit("$");
        }
        match found {
            Some((op, n)) => Ok((input.substring_char(n, cs.len()), op)),
            None => Err(ParseErr::NoMatch),
        }
    }
}

/// A brace.
#[derive(Debug, Clone, Copy, PartialEq, Eq, Structural)]
pub enum Brace {
    CurlyOpen,
    CurlyClose,
    SquareOpen,
    SquareClose,
    RoundOpen,
    RoundClose,
}

/// The brace written at the front of `s`.
pub open spec fn brace_at(s: Seq<char>) -> Option<Brace> {
    if char_at(s, 0, '{') {
        Some(Brace::CurlyOpen)
    } else if char_at(s, 0, '}') {
        Some(Brace::CurlyClose)
    } else if char_at(s, 0, '[') {
        Some(Brace::SquareOpen)
    } else if char_at(s, 0, ']') {
        Some(Brace::SquareClose)
    } else if char_at(s, 0, '(') {
        Some(Brace::RoundOpen)
    } else if char_at(s, 0, ')') {
        Some(Brace::RoundClose)
    } else {
        None
    }
}

impl Brace {
    /// The character of the brace.
    pub open spec fn ch(&self) -> char {
        match self {
            Brace::CurlyOpen => '{',
            Brace::CurlyClose => '}',
            Brace::SquareOpen => '[',
            Brace::SquareClose => ']',
            Brace::RoundOpen => '(',
            Brace::RoundClose => ')',
        }
    }

    /// The text of the brace.
    pub fn as_str(&self) -> (r: &str)
        ensures
            r@ == seq![self.ch()],
    {
        let s = match self {
            Brace::CurlyOpen => "{",
            Brace::CurlyClose => "}",
            Brace::SquareOpen => "[",
            Brace::SquareClose => "]",
            Brace::RoundOpen => "(",
            Brace::RoundClose => ")",
        };
        proof {
            reveal_strlit("{");
            reveal_strlit("}");
            reveal_strlit("[");
            reveal_strlit("]");
            reveal_strlit("(");
            reveal_strlit(")");
        }
        s
    }

    /// The brace at the front of `input`, and the rest.
    pub fn parse(input: &str) -> (r: Result<(&str, Brace), ParseErr>)
        ensures
            match brace_at(input@) {
                Some(b) => r matches Ok((rest, x)) && x == b && rest@ == input@.skip(1),
                None => r == Err::<(&str, Brace), ParseErr>(ParseErr::NoMatch),
            },
    {
        let cs = str_chars(input);
        let found: Option<Brace> =
        if char_is(&cs, 0, '{') {
            Some(Brace::CurlyOpen)
        } else if char_is(&cs, 0, '}') {
            Some(Brace::CurlyClose)
        } else if char_is(&cs, 0, '[') {
            Some(Brace::SquareOpen)
        } else if char_is(&cs, 0, ']') {
            Some(Brace::SquareClose)
        } else if char_is(&cs, 0, '(') {
            Some(Brace::RoundOpen)
        } else if char_is(&cs, 0, ')') {
            Some(Brace::RoundClose)
        } else {
            None
        };
        match found {
            Some(b) => Ok((input.substring_char(1, cs.len()), b)),
            None => Err(ParseErr::NoMatch),
        }
    }

    /// The brace `brace` at the front of `input`, as a token, and the rest.
    pub fn parse_from_type<T>(brace: Brace, input: &str) -> (r: Result<(&str, Token<T>), ParseErr>)
        ensures
            char_at(input@, 0, brace.ch()) ==> (r matches Ok((rest, t)) && t == Token::<T>::Brace(brace) && rest@
                == input@.skip(1)),
            !char_at(input@, 0, brace.ch()) ==> r == Err::<(&str, Token<T>), ParseErr>(ParseErr::NoMatch),
    {
        let cs = str_chars(input);
        let text = brace.as_str();
        let c = text.get_char(0);
        if char_is(&cs, 0, c) {
            Ok((input.substring_char(1, cs.len()), Token::Brace(brace)))
        } else {
            Err(ParseErr::NoMatch)
        }
    }
}

/// A number token.
pub struct Number<T>(pub HNumber<T>);

impl<T: NumTrait> Number<T> {
    /// The number `value` with unit `unit`.
    pub fn new(value: T, unit: Option<HUnit>) -> (r: Self)
        ensures
            r.0.value() == value,
            r.0.unit_spec() == unit,
    {
        Number(HNumber::new(value, unit))
    }
}

impl<T: NumTrait + core::str::FromStr> Number<T> {
    /// A Zinc number at the front of `input` (see `crate::io::parse::number`).
    pub fn parse(input: &str) -> (r: Result<(&str, HNumber<T>), ParseErr>)
        ensures
            match r {
                Ok((rest, x)) => number_rule(input@, 0) matches Some((t, u, e)) && rest@ == input@.skip(e) && models(
                    HVal::Number(x),
                    ZVal::Number(t, u),
                ),
                Err(ParseErr::NoMatch) => number_rule(input@, 0) is None,
                Err(ParseErr::BadNumber) => number_rule(input@, 0) is Some,
            },
    {
        zinc_number::<T>(input)
    }
}

/// String tokens.
pub struct Str;

impl Str {
    /// A string value holding `value`.
    pub fn new(value: &str) -> (r: HStr)
        ensures
            r@ == value@,
    {
        HStr::new(to_owned_string(value))
    }

    /// A Zinc string literal at the front of `input` (see `quoted`).
    pub fn parse(input: &str) -> (r: Result<(&str, HStr), ParseErr>)
        ensures
            match r {
                Ok((rest, s)) => quoted(input@, 0, false) matches Some((t, e)) && s@ == t && rest@ == input@.skip(e),
                Err(e) => e == ParseErr::NoMatch && quoted(input@, 0, false) is None,
            },
    {
        zinc_string(input)
    }
}

/// Name tokens.
pub struct Name;

/// The end of a name at the front of `s`: a letter or `_`, then letters,
/// digits and `_`.
pub open spec fn name_end(s: Seq<char>) -> Option<int> {
    if s.len() > 0 && (('a' <= s[0] <= 'z') || ('A' <= s[0] <= 'Z') || s[0] == '_') {
        Some(run_end(s, 0, Class::Word))
    } else {
        None
    }
}

impl Name {
    /// The name `value`.
    pub fn new(value: &str) -> (r: String)
        ensures
            r@ == value@,
    {
        to_owned_string(value)
    }

    /// A name at the front of `input` (see `name_end`).
    pub fn parse(input: &str) -> (r: Result<(&str, String), ParseErr>)
        ensures
            match name_end(input@) {
                Some(e) => r matches Ok((rest, n)) && n@ == input@.subrange(0, e) && rest@ == input@.skip(e),
                None => r == Err::<(&str, String), ParseErr>(ParseErr::NoMatch),
            },
    {
        let cs = str_chars(input);
        if cs.len() > 0 && (('a' <= cs[0] && cs[0] <= 'z') || ('A' <= cs[0] && cs[0] <= 'Z') || cs[0] == '_') {
            let e = crate::io::parse::lex::scan(&cs, 0, Class::Word);
            Ok((input.substring_char(e, cs.len()), chars_slice_string(&cs, 0, e)))
        } else {
            Err(ParseErr::NoMatch)
        }
    }
}

/// A token.
pub enum Token<T> {
    Number(HNumber<T>),
    String(HStr),
    Name(String),
    Operator(Operator),
    Brace(Brace),
}

impl<T: NumTrait + core::str::FromStr> Token<T> {
    /// The token at the front of `input`, trying in order a number, a string,
    /// a name, an operator and a brace.
    pub fn parse(input: &str) -> (r: Result<(&str, Token<T>), ParseErr>)
        ensures
            r matches Ok((rest, Token::Number(x))) ==> number_rule(input@, 0) matches Some((t, u, e)) && rest@
                == input@.skip(e) && models(HVal::Number(x), ZVal::Number(t, u)),
            r matches Ok((rest, Token::String(x))) ==> number_rule(input@, 0) is None && (quoted(input@, 0, false) matches Some((t, e)) && x@ == t && rest@ == input@.skip(e)),
            r matches Ok((rest, Token::Name(x))) ==> number_rule(input@, 0) is None && quoted(input@, 0, false) is None && (name_end(input@) matches Some(e) && x@ == input@.subrange(0, e) && rest@ == input@.skip(e)),
            r matches Ok((rest, Token::Operator(x))) ==> number_rule(input@, 0) is None && quoted(input@, 0, false) is None && name_end(input@) is None && (operator_at(input@) matches Some((op, n)) && x == op && rest@ == input@.skip(n)),
            r matches Ok((rest, Token::Brace(x))) ==> number_rule(input@, 0) is None && quoted(input@, 0, false) is None && name_end(input@) is None && operator_at(input@) is None && brace_at(input@) == Some(x) && rest@ == input@.skip(1),
            r == Err::<(&str, Token<T>), ParseErr>(ParseErr::BadNumber) ==> number_rule(input@, 0) is Some,
            r == Err::<(&str, Token<T>), ParseErr>(ParseErr::NoMatch) ==> number_rule(input@, 0) is None && quoted(input@, 0, false) is None && name_end(input@) is None && operator_at(input@) is None && brace_at(input@) is None,
            (number_rule(input@, 0) is Some || quoted(input@, 0, false) is Some || name_end(input@) is Some || operator_at(input@) is Some || brace_at(input@) is Some) ==> !(r == Err::<(&str, Token<T>), ParseErr>(ParseErr::NoMatch)),
    {
        match Number::<T>::parse(input) {
            Ok((rest, x)) => {
                return Ok((rest, Token::Number(x)));
            },
            Err(ParseErr::BadNumber) => {
                return Err(ParseErr::BadNumber);
            },
            Err(ParseErr::NoMatch) => {},
        }
        match Str::parse(input) {
            Ok((rest, x)) => {
                return Ok((rest, Token::String(x)));
            },
            Err(_) => {},
        }
        match Name::parse(input) {
            Ok((rest, x)) => {
                return Ok((rest, Token::Name(x)));
            },
            Err(_) => {},
        }
        match Operator::parse(input) {
            Ok((rest, x)) => {
                return Ok((rest, Token::Operator(x)));
            },
            Err(_) => {},
        }
        match Brace::parse(input) {
            Ok((rest, x)) => Ok((rest, Token::Brace(x))),
            Err(e) => Err(e),
        }
    }
}

/// Whether a text of one or two characters stands at the front of `s` is
/// decided by those characters.
proof fn lemma_at_short()
    ensures
        forall|s: Seq<char>, u: Seq<char>|
            u.len() == 1 ==> #[trigger] at(s, 0, u) == (s.len() >= 1 && s[0] == u[0]),
        forall|s: Seq<char>, u: Seq<char>|
            u.len() == 2 ==> #[trigger] at(s, 0, u) == (s.len() >= 2 && s[0] == u[0] && s[1] == u[1]),
{
    assert forall|s: Seq<char>, u: Seq<char>| u.len() == 1 implies #[trigger] at(s, 0, u) == (s.len() >= 1 && s[0]
        == u[0]) by {
        if s.len() >= 1 && s[0] == u[0] {
            assert(s.subrange(0, 1) =~= u);
        }
        if at(s, 0, u) {
            assert(s.subrange(0, 1)[0] == s[0]);
        }
    }
    assert forall|s: Seq<char>, u: Seq<char>| u.len() == 2 implies #[trigger] at(s, 0, u) == (s.len() >= 2 && s[0]
        == u[0] && s[1] == u[1]) by {
        if s.len() >= 2 && s[0] == u[0] && s[1] == u[1] {
            assert(s.subrange(0, 2) =~= u);
        }
        if at(s, 0, u) {
            assert(s.subrange(0, 2)[0] == s[0]);
            assert(s.subrange(0, 2)[1] == s[1]);
        }
    }
}

/// Reading the text of an operator gives back that operator, all of its text.
#[verifier::rlimit(50)]
pub proof fn law_operator_roundtrip(op: Operator)
    ensures
        operator_at(op.text()) == Some((op, op.text().len() as int)),
{
    lemma_at_short();
    reveal_strlit("++");
    reveal_strlit("--");
    reveal_strlit("+=");
    reveal_strlit("-=");
    reveal_strlit("*=");
    reveal_strlit("/=");
    reveal_strlit("%=");
    reveal_strlit("+");
    reveal_strlit("-");
    reveal_strlit("*");
    reveal_strlit("/");
    reveal_strlit("%");
    reveal_strlit("==");
    reveal_strlit("!=");
    reveal_strlit("<=");
    reveal_strlit(">=");
    reveal_strlit("<");
    reveal_strlit(">");
    reveal_strlit("!~");
    reveal_strlit("~");
    reveal_strlit("&&");
    reveal_strlit("||");
    reveal_strlit("!");
    reveal_strlit("=");
    reveal_strlit("$");
    match op {
        Operator::Add => {
            let t = "+"@;
            assert(t.len() == 1 && t[0] == '+');
        },
        Operator::Subtract => {
            let t = "-"@;
            assert(t.len() == 1 && t[0] == '-');
        },
        Operator::Multiply => {
            let t = "*"@;
            assert(t.len() == 1 && t[0] == '*');
        },
        Operator::Divide => {
            let t = "/"@;
            assert(t.len() == 1 && t[0] == '/');
        },
        Operator::Modulo => {
            let t = "%"@;
            assert(t.len() == 1 && t[0] == '%');
        },
        Operator::Equal => {
            let t = "=="@;
            assert(t.len() == 2 && t[0] == '=' && t[1] == '=');
        },
        Operator::NotEqual => {
            let t = "!="@;
            assert(t.len() == 2 && t[0] == '!' && t[1] == '=');
        },
        Operator::LessThan => {
            let t = "<"@;
            assert(t.len() == 1 && t[0] == '<');
        },
        Operator::GreaterThan => {
            let t = ">"@;
            assert(t.len() == 1 && t[0] == '>');
        },
        Operator::LessThanOrEqual => {
            let t = "<="@;
            assert(t.len() == 2 && t[0] == '<' && t[1] == '=');
        },
        Operator::GreaterThanOrEqual => {
            let t = ">="@;
            assert(t.len() == 2 && t[0] == '>' && t[1] == '=');
        },
        Operator::And => {
            let t = "&&"@;
            assert(t.len() == 2 && t[0] == '&' && t[1] == '&');
        },
        Operator::Or => {
            let t = "||"@;
            assert(t.len() == 2 && t[0] == '|' && t[1] == '|');
        },
        Operator::Not => {
            let t = "!"@;
            assert(t.len() == 1 && t[0] == '!');
        },
        Operator::Match => {
            let t = "~"@;
            assert(t.len() == 1 && t[0] == '~');
        },
        Operator::NotMatch => {
            let t = "!~"@;
            assert(t.len() == 2 && t[0] == '!' && t[1] == '~');
        },
        Operator::Assign => {
            let t = "="@;
            assert(t.len() == 1 && t[0] == '=');
        },
        Operator::AddAssign => {
            let t = "+="@;
            assert(t.len() == 2 && t[0] == '+' && t[1] == '=');
        },
        Operator::SubtractAssign => {
            let t = "-="@;
            assert(t.len() == 2 && t[0] == '-' && t[1] == '=');
        },
        Operator::MultiplyAssign => {
            let t = "*="@;
            assert(t.len() == 2 && t[0] == '*' && t[1] == '=');
        },
        Operator::DivideAssign => {
            let t = "/="@;
            assert(t.len() == 2 && t[0] == '/' && t[1] == '=');
        },
        Operator::ModuloAssign => {
            let t = "%="@;
            assert(t.len() == 2 && t[0] == '%' && t[1] == '=');
        },
        Operator::Increment => {
            let t = "++"@;
            assert(t.len() == 2 && t[0] == '+' && t[1] == '+');
        },
        Operator::Decrement => {
            let t = "--"@;
            assert(t.len() == 2 && t[0] == '-' && t[1] == '-');
        },
        Operator::Field => {
            let t = "$"@;
            assert(t.len() == 1 && t[0] == '$');
        },
    }
}

/// Reading the character of a brace gives back that brace, whatever follows.
pub proof fn law_brace_roundtrip(b: Brace, rest: Seq<char>)
    ensures
        brace_at(seq![b.ch()] + rest) == Some(b),
{
    assert((seq![b.ch()] + rest)[0] == b.ch());
}

} // verus!
