use rusty_orm::{default_type_for, parse_declared_type, DataType, TypeGrammarError};

#[test]
fn parse_varchar_round_trips_sizes() {
    for n in [0usize, 1, 9, 10, 100, 255, 4096, usize::MAX] {
        let text = format!("Varchar({})", n);
        assert_eq!(parse_declared_type(&text), Ok(DataType::Varchar(n)));
    }
}

#[test]
fn parse_varchar_accepts_leading_plus() {
    assert_eq!(parse_declared_type("Varchar(+5)"), Ok(DataType::Varchar(5)));
}

#[test]
fn parse_varchar_missing_open_paren_fails() {
    assert_eq!(
        parse_declared_type("Varchar10)"),
        Err(TypeGrammarError::MissingOpenParen)
    );
}

#[test]
fn parse_varchar_missing_close_paren_fails() {
    assert_eq!(
        parse_declared_type("Varchar(10"),
        Err(TypeGrammarError::MissingCloseParen)
    );
}

#[test]
fn parse_varchar_non_numeric_size_fails() {
    assert_eq!(
        parse_declared_type("Varchar(abc)"),
        Err(TypeGrammarError::InvalidSize)
    );
}

#[test]
fn parse_varchar_empty_size_fails() {
    assert_eq!(parse_declared_type("Varchar()"), Err(TypeGrammarError::InvalidSize));
}

#[test]
fn parse_varchar_close_before_open_fails() {
    assert_eq!(
        parse_declared_type("Varchar)10("),
        Err(TypeGrammarError::InvalidSize)
    );
}

#[test]
fn parse_varchar_overflowing_size_fails() {
    assert_eq!(
        parse_declared_type("Varchar(99999999999999999999999999)"),
        Err(TypeGrammarError::InvalidSize)
    );
}

#[test]
fn parse_bare_varchar_fails_on_missing_open_paren() {
    assert_eq!(
        parse_declared_type("Varchar"),
        Err(TypeGrammarError::MissingOpenParen)
    );
}

#[test]
fn parse_plain_type_names() {
    assert_eq!(parse_declared_type("Integer"), Ok(DataType::Integer));
    assert_eq!(parse_declared_type("Boolean"), Ok(DataType::Boolean));
    assert_eq!(parse_declared_type("Float"), Ok(DataType::Float));
}

#[test]
fn parse_unsupported_type_carries_text() {
    assert_eq!(
        parse_declared_type("Text"),
        Err(TypeGrammarError::UnsupportedType("Text".to_string()))
    );
    assert_eq!(
        parse_declared_type(""),
        Err(TypeGrammarError::UnsupportedType("".to_string()))
    );
}

#[test]
fn error_messages_describe_each_failure() {
    assert_eq!(
        TypeGrammarError::MissingOpenParen.message(),
        "Expected '(' in Varchar type definition"
    );
    assert_eq!(
        TypeGrammarError::MissingCloseParen.message(),
        "Expected ')' in Varchar type definition"
    );
    assert_eq!(
        TypeGrammarError::InvalidSize.message(),
        "Failed to parse size for Varchar"
    );
    assert_eq!(
        TypeGrammarError::UnsupportedType("Text".to_string()).message(),
        "Unsupported data type: Text"
    );
}

#[test]
fn default_type_covers_every_native_class() {
    assert_eq!(default_type_for("i32"), DataType::Integer);
    assert_eq!(default_type_for("i64"), DataType::Integer);
    assert_eq!(default_type_for("String"), DataType::Varchar(255));
    assert_eq!(default_type_for("bool"), DataType::Boolean);
    assert_eq!(default_type_for("f32"), DataType::Float);
    assert_eq!(default_type_for("f64"), DataType::Float);
    assert_eq!(default_type_for("Vec<u8>"), DataType::Varchar(255));
    assert_eq!(default_type_for(""), DataType::Varchar(255));
}
