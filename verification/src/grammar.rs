//! The type descriptor grammar: parsing a declared-type string such as
//! `"Varchar(100)"` or `"Integer"` into a [`DataType`], and the default
//! mapping from a field's native type name to a [`DataType`].

use vstd::prelude::*;
use vstd::string::StrSliceExecFns;
use vstd::string::StringExecFns;
use vstd::arithmetic::div_mod::lemma_fundamental_div_mod;

use crate::model::DataType;
use crate::text::{
    digit_char, digits_part, digits_val, find_char, first_index_of, has_char, is_digit,
    is_usize_text, parse_usize_str, spec_dec_digits, spec_starts_with, str_eq, str_starts_with,
    usize_text_val, lemma_first_index_of,
};

verus! {

/// A malformed declared-type string.
#[derive(Clone, Debug, PartialEq, Eq)]
pub enum TypeGrammarError {
    /// The text begins with `Varchar` but holds no `(`.
    MissingOpenParen,
    /// The text begins with `Varchar` but holds no `)`.
    MissingCloseParen,
    /// The text between the first `(` and the first `)` does not parse as a
    /// `usize`.
    InvalidSize,
    /// The text is none of `Varchar…`, `Integer`, `Boolean` or `Float`; it is
    /// carried along unchanged.
    UnsupportedType(String),
}

impl TypeGrammarError {
    /// A human-readable description of the error.
    pub fn message(&self) -> (r: String)
        ensures
            r@ == match self {
                TypeGrammarError::MissingOpenParen => "Expected '(' in Varchar type definition"@,
                TypeGrammarError::MissingCloseParen => "Expected ')' in Varchar type definition"@,
                TypeGrammarError::InvalidSize => "Failed to parse size for Varchar"@,
                TypeGrammarError::UnsupportedType(t) => "Unsupported data type: "@ + t@,
            },
    {
        match self {
            TypeGrammarError::MissingOpenParen => {
                String::from_str("Expected '(' in Varchar type definition")
            },
            TypeGrammarError::MissingCloseParen => {
                String::from_str("Expected ')' in Varchar type definition")
            },
            TypeGrammarError::InvalidSize => String::from_str("Failed to parse size for Varchar"),
            TypeGrammarError::UnsupportedType(t) => {
                String::from_str("Unsupported data type: ").concat(t.as_str())
            },
        }
    }
}

/// Whether the declared-type text begins with `Varchar`.
pub open spec fn starts_with_varchar(s: Seq<char>) -> bool {
    spec_starts_with(s, "Varchar"@)
}

/// Whether a `Varchar` declaration carries a well-formed size: the first `(`
/// comes before the first `)`, and the text between them parses as a `usize`.
pub open spec fn varchar_size_ok(s: Seq<char>) -> bool {
    let i = first_index_of(s, '(');
    let j = first_index_of(s, ')');
    i < j && is_usize_text(s.subrange(i + 1, j))
}

/// The size a well-formed `Varchar` declaration carries.
pub open spec fn varchar_size_val(s: Seq<char>) -> nat {
    let i = first_index_of(s, '(');
    let j = first_index_of(s, ')');
    usize_text_val(s.subrange(i + 1, j))
}

/// What the declared-type grammar accepts: `None` stands for a parse error.
pub open spec fn spec_parse_declared(s: Seq<char>) -> Option<DataType> {
    if starts_with_varchar(s) {
        if has_char(s, '(') && has_char(s, ')') && varchar_size_ok(s) {
            Some(DataType::Varchar(varchar_size_val(s) as usize))
        } else {
            None
        }
    } else if s == "Integer"@ {
        Some(DataType::Integer)
    } else if s == "Boolean"@ {
        Some(DataType::Boolean)
    } else if s == "Float"@ {
        Some(DataType::Float)
    } else {
        None
    }
}

/// Which error a malformed declared-type text `s` produces: each variant is
/// tied to exactly the inputs on which it is reported.
pub open spec fn error_matches(e: TypeGrammarError, s: Seq<char>) -> bool {
    match e {
        TypeGrammarError::MissingOpenParen => starts_with_varchar(s) && !has_char(s, '('),
        TypeGrammarError::MissingCloseParen => starts_with_varchar(s) && has_char(s, '(')
            && !has_char(s, ')'),
        TypeGrammarError::InvalidSize => starts_with_varchar(s) && has_char(s, '(') && has_char(
            s,
            ')',
        ) && !varchar_size_ok(s),
        TypeGrammarError::UnsupportedType(t) => !starts_with_varchar(s) && s != "Integer"@ && s
            != "Boolean"@ && s != "Float"@ && t@ == s,
    }
}

/// Parses a declared-type string into a [`DataType`].
///
/// A text beginning with `Varchar` must hold a `(`…`)` pair whose interior
/// parses as a `usize`; any other text must be exactly `Integer`, `Boolean`
/// or `Float`.  Each failure reports which part of the grammar was violated.
pub fn parse_declared_type(text: &str) -> (r: Result<DataType, TypeGrammarError>)
    ensures
        match r {
            Ok(dt) => spec_parse_declared(text@) == Some(dt),
            Err(e) => spec_parse_declared(text@) is None && error_matches(e, text@),
        },
{
    if str_starts_with(text, "Varchar") {
        let open = match find_char(text, '(') {
            Some(i) => i,
            None => {
                return Err(TypeGrammarError::MissingOpenParen);
            },
        };
        let close = match find_char(text, ')') {
            Some(j) => j,
            None => {
                return Err(TypeGrammarError::MissingCloseParen);
            },
        };
        if open < close {
            let interior = text.substring_char(open + 1, close);
            match parse_usize_str(interior) {
                Some(size) => Ok(DataType::Varchar(size)),
                None => Err(TypeGrammarError::InvalidSize),
            }
        } else {
            Err(TypeGrammarError::InvalidSize)
        }
    } else if str_eq(text, "Integer") {
        Ok(DataType::Integer)
    } else if str_eq(text, "Boolean") {
        Ok(DataType::Boolean)
    } else if str_eq(text, "Float") {
        Ok(DataType::Float)
    } else {
        Err(TypeGrammarError::UnsupportedType(String::from_str(text)))
    }
}

/// The default [`DataType`] for a native type name: integer-like names map to
/// `Integer`, `String` to `Varchar(255)`, `bool` to `Boolean`, float-like
/// names to `Float`, and anything else falls back to `Varchar(255)`.
pub open spec fn spec_default_type(s: Seq<char>) -> DataType {
    if s == "i32"@ || s == "i64"@ {
        DataType::Integer
    } else if s == "String"@ {
        DataType::Varchar(255)
    } else if s == "bool"@ {
        DataType::Boolean
    } else if s == "f32"@ || s == "f64"@ {
        DataType::Float
    } else {
        DataType::Varchar(255)
    }
}

/// Maps a field's native type name to its default [`DataType`].  Total: an
/// unknown name falls back to `Varchar(255)` rather than failing.
pub fn default_type_for(native_type: &str) -> (r: DataType)
    ensures
        r == spec_default_type(native_type@),
{
    if str_eq(native_type, "i32") || str_eq(native_type, "i64") {
        DataType::Integer
    } else if str_eq(native_type, "String") {
        DataType::Varchar(255)
    } else if str_eq(native_type, "bool") {
        DataType::Boolean
    } else if str_eq(native_type, "f32") || str_eq(native_type, "f64") {
        DataType::Float
    } else {
        DataType::Varchar(255)
    }
}

/// The decimal rendering of `n` is made of digits, is non-empty, and reads
/// back as `n`.
pub proof fn lemma_dec_digits_props(n: nat)
    ensures
        spec_dec_digits(n).len() >= 1,
        forall|i: int| 0 <= i < spec_dec_digits(n).len() ==> is_digit(
            #[trigger] spec_dec_digits(n)[i],
        ),
        digits_val(spec_dec_digits(n)) == n,
    decreases n,
{
    if n < 10 {
        let s = spec_dec_digits(n);
        assert(s =~= seq![digit_char(n)]);
        assert(s.drop_last() =~= Seq::<char>::empty());
        assert(digits_val(s) == digits_val(s.drop_last()) * 10 + crate::text::digit_val(s.last()));
    } else {
        lemma_dec_digits_props(n / 10);
        let s = spec_dec_digits(n);
        assert(s =~= spec_dec_digits(n / 10) + seq![digit_char(n % 10)]);
        assert(s.drop_last() =~= spec_dec_digits(n / 10));
        assert(s.last() == digit_char(n % 10));
        assert(digits_val(s) == digits_val(s.drop_last()) * 10 + crate::text::digit_val(s.last()));
        lemma_fundamental_div_mod(n as int, 10);
    }
}

/// The declared-type grammar round-trips sizes: for any `usize` value `n`,
/// the text `Varchar(` + decimal rendering of `n` + `)` parses back to
/// exactly `Varchar(n)`.
pub proof fn lemma_parse_varchar_round_trip(n: usize)
    ensures
        spec_parse_declared("Varchar("@ + spec_dec_digits(n as nat) + ")"@) == Some(
            DataType::Varchar(n),
        ),
{
    reveal_strlit("Varchar(");
    reveal_strlit("Varchar");
    reveal_strlit(")");
    lemma_dec_digits_props(n as nat);
    let d = spec_dec_digits(n as nat);
    let dlen = d.len() as int;
    let s = "Varchar("@ + d + ")"@;
    assert(s.len() == 9 + dlen);
    assert(s.subrange(0, 7) =~= "Varchar"@);
    assert(starts_with_varchar(s));
    assert(forall|i: int| 0 <= i < dlen ==> s[8 + i] == d[i]);
    assert(forall|c: char| is_digit(c) ==> c != '(' && c != ')') by {
        assert('(' as int == 40 && ')' as int == 41 && '0' as int == 48);
    }
    lemma_first_index_of(s, '(', 7);
    lemma_first_index_of(s, ')', 8 + dlen);
    assert(s.subrange(8, 8 + dlen) =~= d);
    assert(digits_part(d) =~= d) by {
        assert(is_digit(d[0]));
        assert('+' as int == 43 && '0' as int == 48);
    }
    assert(is_usize_text(d));
    assert(usize_text_val(d) == n);
    assert(varchar_size_ok(s));
    assert(varchar_size_val(s) == n);
}

} // verus!
