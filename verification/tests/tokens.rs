use haystack::token::{Brace, Operator, Token};

#[test]
fn test_operator_as_str() {
    assert_eq!(Operator::Add.as_str(), "+");
    assert_eq!(Operator::Subtract.as_str(), "-");
    assert_eq!(Operator::Multiply.as_str(), "*");
    assert_eq!(Operator::Divide.as_str(), "/");
    assert_eq!(Operator::Modulo.as_str(), "%");
    assert_eq!(Operator::Equal.as_str(), "==");
    assert_eq!(Operator::NotEqual.as_str(), "!=");
    assert_eq!(Operator::LessThan.as_str(), "<");
    assert_eq!(Operator::GreaterThan.as_str(), ">");
    assert_eq!(Operator::LessThanOrEqual.as_str(), "<=");
    assert_eq!(Operator::GreaterThanOrEqual.as_str(), ">=");
    assert_eq!(Operator::And.as_str(), "&&");
    assert_eq!(Operator::Or.as_str(), "||");
    assert_eq!(Operator::Not.as_str(), "!");
    assert_eq!(Operator::Match.as_str(), "~");
    assert_eq!(Operator::NotMatch.as_str(), "!~");
    assert_eq!(Operator::Assign.as_str(), "=");
    assert_eq!(Operator::AddAssign.as_str(), "+=");
    assert_eq!(Operator::SubtractAssign.as_str(), "-=");
    assert_eq!(Operator::MultiplyAssign.as_str(), "*=");
    assert_eq!(Operator::DivideAssign.as_str(), "/=");
    assert_eq!(Operator::ModuloAssign.as_str(), "%=");
    assert_eq!(Operator::Increment.as_str(), "++");
    assert_eq!(Operator::Decrement.as_str(), "--");
    assert_eq!(Operator::Field.as_str(), "$");
}

#[test]
fn test_operator_parse() {
    assert_eq!(Operator::parse("+").unwrap().1, Operator::Add);
    assert_eq!(Operator::parse("-").unwrap().1, Operator::Subtract);
    assert_eq!(Operator::parse("*").unwrap().1, Operator::Multiply);
    assert_eq!(Operator::parse("/").unwrap().1, Operator::Divide);
    assert_eq!(Operator::parse("%").unwrap().1, Operator::Modulo);
    assert_eq!(Operator::parse("==").unwrap().1, Operator::Equal);
    assert_eq!(Operator::parse("!=").unwrap().1, Operator::NotEqual);
    assert_eq!(Operator::parse("<").unwrap().1, Operator::LessThan);
    assert_eq!(Operator::parse(">").unwrap().1, Operator::GreaterThan);
    assert_eq!(Operator::parse("<=").unwrap().1, Operator::LessThanOrEqual);
    assert_eq!(Operator::parse(">=").unwrap().1, Operator::GreaterThanOrEqual);
    assert_eq!(Operator::parse("&&").unwrap().1, Operator::And);
    assert_eq!(Operator::parse("||").unwrap().1, Operator::Or);
    assert_eq!(Operator::parse("!").unwrap().1, Operator::Not);
    assert_eq!(Operator::parse("~").unwrap().1, Operator::Match);
    assert_eq!(Operator::parse("!~").unwrap().1, Operator::NotMatch);
    assert_eq!(Operator::parse("=").unwrap().1, Operator::Assign);
    assert_eq!(Operator::parse("+=").unwrap().1, Operator::AddAssign);
    assert_eq!(Operator::parse("-=").unwrap().1, Operator::SubtractAssign);
    assert_eq!(Operator::parse("*=").unwrap().1, Operator::MultiplyAssign);
    assert_eq!(Operator::parse("/=").unwrap().1, Operator::DivideAssign);
    assert_eq!(Operator::parse("%=").unwrap().1, Operator::ModuloAssign);
    assert_eq!(Operator::parse("++").unwrap().1, Operator::Increment);
    assert_eq!(Operator::parse("--").unwrap().1, Operator::Decrement);
}

#[test]
fn test_brace_as_str() {
    assert_eq!(Brace::CurlyOpen.as_str(), "{");
    assert_eq!(Brace::CurlyClose.as_str(), "}");
    assert_eq!(Brace::SquareOpen.as_str(), "[");
    assert_eq!(Brace::SquareClose.as_str(), "]");
    assert_eq!(Brace::RoundOpen.as_str(), "(");
    assert_eq!(Brace::RoundClose.as_str(), ")");
}

#[test]
fn test_brace_parse() {
    assert_eq!(Brace::parse("{").unwrap().1, Brace::CurlyOpen);
    assert_eq!(Brace::parse("}").unwrap().1, Brace::CurlyClose);
    assert_eq!(Brace::parse("[").unwrap().1, Brace::SquareOpen);
    assert_eq!(Brace::parse("]").unwrap().1, Brace::SquareClose);
    assert_eq!(Brace::parse("(").unwrap().1, Brace::RoundOpen);
    assert_eq!(Brace::parse(")").unwrap().1, Brace::RoundClose);
}

#[test]
fn test_token_parse_operator() {
    let input = "+";
    let result = Token::<f64>::parse(input).unwrap().1;
    if let Token::Operator(op) = result {
        assert_eq!(op, Operator::Add);
    } else {
        panic!("Expected Token::Operator");
    }
}

#[test]
fn test_token_parse_brace() {
    let input = "{";
    let result = Token::<f64>::parse(input).unwrap().1;
    if let Token::Brace(brace) = result {
        assert_eq!(brace, Brace::CurlyOpen);
    } else {
        panic!("Expected Token::Brace");
    }
}

#[test]
fn test_token_parse_string() {
    let input = "\"hello\"";
    let result = Token::<f64>::parse(input).unwrap().1;
    if let Token::String(s) = result {
        assert_eq!(s.as_str(), "hello");
    } else {
        panic!("Expected Token::String");
    }
}

#[test]
fn test_token_parse_name() {
    let input = "myVariable";
    let result = Token::<f64>::parse(input).unwrap().1;
    if let Token::Name(name) = result {
        assert_eq!(name, "myVariable");
    } else {
        panic!("Expected Token::Name");
    }
}

// Each operator's text reads back as that operator, with nothing left over.
#[test]
fn operator_text_reads_back() {
    let all = [
        Operator::Add, Operator::Subtract, Operator::Multiply, Operator::Divide, Operator::Modulo,
        Operator::Equal, Operator::NotEqual, Operator::LessThan, Operator::GreaterThan,
        Operator::LessThanOrEqual, Operator::GreaterThanOrEqual, Operator::And, Operator::Or, Operator::Not,
        Operator::Match, Operator::NotMatch, Operator::Assign, Operator::AddAssign, Operator::SubtractAssign,
        Operator::MultiplyAssign, Operator::DivideAssign, Operator::ModuloAssign, Operator::Increment,
        Operator::Decrement, Operator::Field,
    ];
    for op in all {
        assert_eq!(Operator::parse(op.as_str()).unwrap(), ("", op));
    }
}

#[test]
fn brace_reads_back_before_text() {
    assert_eq!(Brace::parse("]x").unwrap(), ("x", Brace::SquareClose));
    assert!(Brace::parse("x").is_err());
    assert!(Operator::parse("x").is_err());
}
