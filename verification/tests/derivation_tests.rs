use rusty_orm::{
    derive_table, DataType, DerivationError, EntityDescriptor, FieldDescriptor, TypeGrammarError,
};

fn field(name: &str, native: &str, declared: Option<&str>, pk: Option<&str>) -> FieldDescriptor {
    FieldDescriptor {
        name: name.to_string(),
        native_type: native.to_string(),
        declared_type: declared.map(|s| s.to_string()),
        primary_key: pk.map(|s| s.to_string()),
    }
}

#[test]
fn derive_basic_entity() {
    let entity = EntityDescriptor {
        name: "User".to_string(),
        table_name: None,
        fields: vec![
            field("id", "i32", Some("Integer"), Some("true")),
            field("name", "String", Some("Varchar(100)"), None),
            field("email", "String", None, None),
        ],
    };
    let table = derive_table(&entity).unwrap();
    assert_eq!(table.name, "user");
    assert_eq!(table.columns.len(), 3);
    assert_eq!(table.columns[0].name, "id");
    assert_eq!(table.columns[0].data_type, DataType::Integer);
    assert!(table.columns[0].is_primary_key);
    assert_eq!(table.columns[1].name, "name");
    assert_eq!(table.columns[1].data_type, DataType::Varchar(100));
    assert!(!table.columns[1].is_primary_key);
    assert_eq!(table.columns[2].name, "email");
    assert_eq!(table.columns[2].data_type, DataType::Varchar(255));
    assert!(!table.columns[2].is_primary_key);
}

#[test]
fn derive_preserves_declaration_order() {
    let names = ["delta", "alpha", "zeta", "beta"];
    let entity = EntityDescriptor {
        name: "Thing".to_string(),
        table_name: None,
        fields: names.iter().map(|n| field(n, "String", None, None)).collect(),
    };
    let table = derive_table(&entity).unwrap();
    let got: Vec<&str> = table.columns.iter().map(|c| c.name.as_str()).collect();
    assert_eq!(got, names);

    let reversed: Vec<FieldDescriptor> =
        names.iter().rev().map(|n| field(n, "String", None, None)).collect();
    let entity2 = EntityDescriptor {
        name: "Thing".to_string(),
        table_name: None,
        fields: reversed,
    };
    let table2 = derive_table(&entity2).unwrap();
    let got2: Vec<&str> = table2.columns.iter().map(|c| c.name.as_str()).collect();
    let want2: Vec<&str> = names.iter().rev().copied().collect();
    assert_eq!(got2, want2);
}

#[test]
fn derive_reports_first_malformed_field() {
    let entity = EntityDescriptor {
        name: "User".to_string(),
        table_name: None,
        fields: vec![
            field("id", "i32", None, None),
            field("bio", "String", Some("Varchar("), None),
            field("motto", "String", Some("Nonsense"), None),
        ],
    };
    let err = derive_table(&entity).unwrap_err();
    assert_eq!(
        err,
        DerivationError::InvalidFieldType {
            field: "bio".to_string(),
            error: TypeGrammarError::MissingCloseParen,
        }
    );
}

#[test]
fn derive_parses_primary_key_flag_leniently() {
    let entity = EntityDescriptor {
        name: "T".to_string(),
        table_name: None,
        fields: vec![
            field("a", "i32", None, Some("true")),
            field("b", "i32", None, Some("false")),
            field("c", "i32", None, Some("yes")),
            field("d", "i32", None, Some("True")),
            field("e", "i32", None, None),
        ],
    };
    let table = derive_table(&entity).unwrap();
    let flags: Vec<bool> = table.columns.iter().map(|c| c.is_primary_key).collect();
    assert_eq!(flags, [true, false, false, false, false]);
}

#[test]
fn derive_entity_without_fields() {
    let entity = EntityDescriptor {
        name: "Empty".to_string(),
        table_name: None,
        fields: vec![],
    };
    let table = derive_table(&entity).unwrap();
    assert_eq!(table.name, "empty");
    assert!(table.columns.is_empty());
}

#[test]
fn derive_honours_explicit_table_name() {
    let entity = EntityDescriptor {
        name: "User".to_string(),
        table_name: Some("users".to_string()),
        fields: vec![field("id", "i32", None, None)],
    };
    let table = derive_table(&entity).unwrap();
    assert_eq!(table.name, "users");
}

#[test]
fn derive_lowercases_entity_name() {
    let entity = EntityDescriptor {
        name: "UserProfile".to_string(),
        table_name: None,
        fields: vec![field("id", "i32", None, None)],
    };
    let table = derive_table(&entity).unwrap();
    assert_eq!(table.name, "userprofile");
}
