use rusty_orm::{
    map_data_type_to_sql, Column, DataType, MigrationGenerator, Model, SelectQuery, Table,
};

fn users_table() -> Table {
    Table {
        name: "users".to_string(),
        columns: vec![
            Column {
                name: "id".to_string(),
                data_type: DataType::Integer,
                is_primary_key: true,
            },
            Column {
                name: "name".to_string(),
                data_type: DataType::Varchar(100),
                is_primary_key: false,
            },
        ],
    }
}

#[test]
fn migration_renders_create_and_drop() {
    let migration = MigrationGenerator::generate(&users_table());
    assert_eq!(
        migration.up,
        "CREATE TABLE users (id INTEGER PRIMARY KEY, name VARCHAR(100));"
    );
    assert_eq!(migration.down, "DROP TABLE IF EXISTS users;");
}

#[test]
fn migration_of_empty_table() {
    let empty = Table {
        name: "nothing".to_string(),
        columns: vec![],
    };
    let migration = MigrationGenerator::generate(&empty);
    assert_eq!(migration.up, "CREATE TABLE nothing ();");
    assert_eq!(migration.down, "DROP TABLE IF EXISTS nothing;");
}

#[test]
fn sql_type_names_for_each_variant() {
    assert_eq!(map_data_type_to_sql(&DataType::Integer), "INTEGER");
    assert_eq!(map_data_type_to_sql(&DataType::Varchar(255)), "VARCHAR(255)");
    assert_eq!(map_data_type_to_sql(&DataType::Varchar(0)), "VARCHAR(0)");
    assert_eq!(map_data_type_to_sql(&DataType::Boolean), "BOOLEAN");
    assert_eq!(map_data_type_to_sql(&DataType::Float), "FLOAT");
}

struct User;

impl Model for User {
    fn table() -> Table {
        users_table()
    }
}

#[test]
fn model_trait_supplies_tables_to_builders() {
    let sql = SelectQuery::new(User::table()).build();
    assert_eq!(sql, "SELECT * FROM users");
    let migration = MigrationGenerator::generate(&User::table());
    assert_eq!(migration.down, "DROP TABLE IF EXISTS users;");
}
