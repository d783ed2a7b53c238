use orogene::sdlang::{
    boolean, float, identifier, integer, location, many_booleans, null, semicolon, space,
    ErrorKind, ParseCause, SDLangParseError, Value,
};

#[test]
fn experiment() {
    let input = "false atrue falsed ";
    let (end, values) = many_booleans(input).unwrap();
    assert_eq!(6, end);
    assert_eq!(vec![Value::Boolean(false)], values);
}

#[test]
fn many_booleans_reads_all_and_fails_on_none() {
    let (end, values) = many_booleans("true false  true x").unwrap();
    assert_eq!(17, end);
    assert_eq!(
        vec![Value::Boolean(true), Value::Boolean(false), Value::Boolean(true)],
        values
    );
    let e = many_booleans("nope").unwrap_err();
    assert_eq!(
        vec![
            (0, ParseCause::Grammar(ErrorKind::Tag)),
            (0, ParseCause::Grammar(ErrorKind::Alt)),
            (0, ParseCause::Grammar(ErrorKind::Many1)),
        ],
        e.errors
    );
    let e = many_booleans("true").unwrap_err();
    assert_eq!(
        vec![
            (4, ParseCause::Grammar(ErrorKind::TakeWhile1)),
            (0, ParseCause::Grammar(ErrorKind::Many1)),
        ],
        e.errors
    );
}

#[test]
fn identifier_classification() {
    let e = identifier("").unwrap_err();
    assert_eq!(vec![(0, ParseCause::AbsentIdentifier)], e.errors);
    let e = identifier("3x").unwrap_err();
    assert_eq!(vec![(0, ParseCause::IllegalIdentifier)], e.errors);
    let (end, v) = identifier("_a-b$c").unwrap();
    assert_eq!(6, end);
    assert_eq!(Value::String("_a-b$c".to_string()), v);
    let (end, v) = identifier("author rest").unwrap();
    assert_eq!(6, end);
    assert_eq!(Value::String("author".to_string()), v);
}

#[test]
fn integers() {
    assert_eq!((3, Value::Integer(578)), integer("578").unwrap());
    assert_eq!((3, Value::Integer(-42)), integer("-42;").unwrap());
    assert_eq!((10, Value::Integer(2147483647)), integer("2147483647").unwrap());
    assert_eq!((11, Value::Integer(-2147483648)), integer("-2147483648").unwrap());
    let e = integer("2147483648").unwrap_err();
    assert_eq!(vec![(10, ParseCause::Conversion)], e.errors);
    let e = integer("99999999999999999999").unwrap_err();
    assert_eq!(vec![(20, ParseCause::Conversion)], e.errors);
    let e = integer("-x").unwrap_err();
    assert_eq!(vec![(1, ParseCause::Grammar(ErrorKind::Digit))], e.errors);
}

#[test]
fn floats() {
    assert_eq!((5, Value::Float("5.678".to_string())), float("5.678").unwrap());
    assert_eq!((4, Value::Float("-0.5".to_string())), float("-0.5 x").unwrap());
    assert_eq!(vec![(1, ParseCause::Grammar(ErrorKind::Tag))], float("5").unwrap_err().errors);
    assert_eq!(vec![(2, ParseCause::Grammar(ErrorKind::Digit))], float("5.").unwrap_err().errors);
    assert_eq!(vec![(0, ParseCause::Grammar(ErrorKind::Digit))], float(".5").unwrap_err().errors);
}

#[test]
fn literals() {
    assert_eq!((4, Value::Boolean(true)), boolean("true").unwrap());
    assert_eq!((5, Value::Boolean(false)), boolean("false").unwrap());
    assert_eq!(
        vec![
            (0, ParseCause::Grammar(ErrorKind::Tag)),
            (0, ParseCause::Grammar(ErrorKind::Alt)),
        ],
        boolean("yes").unwrap_err().errors
    );
    assert_eq!((4, Value::Null), null("null").unwrap());
    assert!(null("nul").is_err());
    assert_eq!(1, semicolon(";").unwrap());
    assert!(semicolon("").is_err());
    assert_eq!(3, space("   x").unwrap());
    assert_eq!(
        vec![(0, ParseCause::Grammar(ErrorKind::TakeWhile1))],
        space("x").unwrap_err().errors
    );
}

#[test]
fn errors_accumulate_innermost_first() {
    let e = SDLangParseError::from_error_kind(3, ErrorKind::Tag);
    let e = SDLangParseError::append(1, ErrorKind::Alt, e);
    let e = SDLangParseError::append(0, ErrorKind::Many1, e);
    assert_eq!(
        vec![
            (3, ParseCause::Grammar(ErrorKind::Tag)),
            (1, ParseCause::Grammar(ErrorKind::Alt)),
            (0, ParseCause::Grammar(ErrorKind::Many1)),
        ],
        e.errors
    );
    let e = SDLangParseError::new(2).with_message();
    assert_eq!(vec![(2, ParseCause::Grammar(ErrorKind::Verify))], e.errors);
    let e = SDLangParseError::from_char(5, ';');
    assert_eq!(vec![(5, ParseCause::Char(';'))], e.errors);
}

#[test]
fn locations_count_lines_and_columns() {
    let text: Vec<char> = "ab\ncd\n\nef".chars().collect();
    assert_eq!((0, 0), location(&text, 0));
    assert_eq!((0, 2), location(&text, 2));
    assert_eq!((1, 0), location(&text, 3));
    assert_eq!((1, 1), location(&text, 4));
    assert_eq!((3, 1), location(&text, 8));
}

#[test]
fn trace_is_located() {
    let input: Vec<char> = "true\nfalse x".chars().collect();
    let e = SDLangParseError::from_error_kind(11, ErrorKind::Tag);
    let e = SDLangParseError::append(5, ErrorKind::Alt, e);
    let e = SDLangParseError::append(99, ErrorKind::Many1, e);
    assert_eq!(
        vec![
            (1, 6, ParseCause::Grammar(ErrorKind::Tag)),
            (1, 0, ParseCause::Grammar(ErrorKind::Alt)),
            (1, 7, ParseCause::Grammar(ErrorKind::Many1)),
        ],
        e.locate(&input)
    );
}
