use rusty_orm::{
    Column, DataType, DeleteQuery, EagerLoader, InsertQuery, Relationship, SelectQuery, Table,
    UpdateQuery,
};

fn users_table() -> Table {
    Table {
        name: "users".to_string(),
        columns: vec![
            Column {
                name: "id".to_string(),
                data_type: DataType::Integer,
                is_primary_key: true,
            },
            Column {
                name: "name".to_string(),
                data_type: DataType::Varchar(100),
                is_primary_key: false,
            },
        ],
    }
}

fn posts_table() -> Table {
    Table {
        name: "posts".to_string(),
        columns: vec![Column {
            name: "user_id".to_string(),
            data_type: DataType::Integer,
            is_primary_key: false,
        }],
    }
}

#[test]
fn select_with_no_calls_renders_star() {
    assert_eq!(SelectQuery::new(users_table()).build(), "SELECT * FROM users");
}

#[test]
fn select_full_chain() {
    let sql = SelectQuery::new(users_table())
        .select(&["id", "name"])
        .filter("is_active = true")
        .order_by(&["name"])
        .limit(10)
        .build();
    assert_eq!(
        sql,
        "SELECT id, name FROM users WHERE is_active = true ORDER BY name LIMIT 10"
    );
}

#[test]
fn select_with_offset() {
    let sql = SelectQuery::new(users_table()).limit(10).offset(20).build();
    assert_eq!(sql, "SELECT * FROM users LIMIT 10 OFFSET 20");
}

#[test]
fn select_later_filter_replaces_earlier() {
    let sql = SelectQuery::new(users_table())
        .filter("a = 1")
        .filter("b = 2")
        .build();
    assert_eq!(sql, "SELECT * FROM users WHERE b = 2");
}

#[test]
fn insert_renders_ordered_pairs() {
    let sql = InsertQuery::new(users_table())
        .value("name", "Alice")
        .value("email", "a@example.com")
        .build();
    assert_eq!(
        sql,
        "INSERT INTO users (name, email) VALUES ('Alice', 'a@example.com')"
    );
}

#[test]
fn insert_keeps_duplicate_columns() {
    let sql = InsertQuery::new(users_table())
        .value("name", "Alice")
        .value("name", "Bob")
        .build();
    assert_eq!(sql, "INSERT INTO users (name, name) VALUES ('Alice', 'Bob')");
}

#[test]
fn insert_quotes_every_value() {
    let sql = InsertQuery::new(users_table()).value("id", "7").build();
    assert_eq!(sql, "INSERT INTO users (id) VALUES ('7')");
}

#[test]
fn update_renders_set_and_where() {
    let sql = UpdateQuery::new(users_table())
        .set("email", "x")
        .filter("id = 1")
        .build();
    assert_eq!(sql, "UPDATE users SET email = 'x' WHERE id = 1");
}

#[test]
fn update_without_filter() {
    let sql = UpdateQuery::new(users_table())
        .set("a", "1")
        .set("b", "2")
        .build();
    assert_eq!(sql, "UPDATE users SET a = '1', b = '2'");
}

#[test]
fn delete_renders_where() {
    let sql = DeleteQuery::new(users_table()).filter("id = 1").build();
    assert_eq!(sql, "DELETE FROM users WHERE id = 1");
}

#[test]
fn delete_without_filter() {
    let sql = DeleteQuery::new(users_table()).build();
    assert_eq!(sql, "DELETE FROM users");
}

#[test]
fn build_is_deterministic_for_equal_state() {
    let make = || {
        SelectQuery::new(users_table())
            .select(&["id", "name"])
            .filter("is_active = true")
            .order_by(&["name", "id"])
            .limit(3)
            .offset(6)
    };
    assert_eq!(make().build(), make().build());

    let make_insert = || {
        InsertQuery::new(users_table())
            .value("name", "Alice")
            .value("email", "a@example.com")
    };
    assert_eq!(make_insert().build(), make_insert().build());

    let make_update = || UpdateQuery::new(users_table()).set("a", "1").filter("id = 1");
    assert_eq!(make_update().build(), make_update().build());

    let make_delete = || DeleteQuery::new(users_table()).filter("id = 1");
    assert_eq!(make_delete().build(), make_delete().build());
}

#[test]
fn eager_loader_appends_inner_join() {
    let sql = EagerLoader::new(SelectQuery::new(users_table()))
        .with_join(&posts_table(), "id", "user_id")
        .build();
    assert_eq!(
        sql,
        "SELECT * FROM users INNER JOIN posts ON users.id = posts.user_id"
    );
}

#[test]
fn eager_loader_chains_joins_in_call_order() {
    let comments = Table {
        name: "comments".to_string(),
        columns: vec![],
    };
    let sql = EagerLoader::new(SelectQuery::new(users_table()).filter("id = 1"))
        .with_join(&posts_table(), "id", "user_id")
        .with_join(&comments, "id", "author_id")
        .build();
    assert_eq!(
        sql,
        "SELECT * FROM users INNER JOIN posts ON users.id = posts.user_id \
         INNER JOIN comments ON users.id = comments.author_id WHERE id = 1"
    );
}

struct UserPosts;

impl Relationship for UserPosts {
    // The spec_* members are specification-level; compiled code never calls
    // them, so their bodies are unreachable.
    fn spec_related_table() -> Table {
        unreachable!()
    }

    fn spec_foreign_key() -> vstd::seq::Seq<char> {
        unreachable!()
    }

    fn spec_related_key() -> vstd::seq::Seq<char> {
        unreachable!()
    }

    fn related_table() -> Table {
        posts_table()
    }

    fn foreign_key() -> String {
        "id".to_string()
    }

    fn related_key() -> String {
        "user_id".to_string()
    }
}

#[test]
fn eager_loader_uses_declared_relationship() {
    let sql = EagerLoader::new(SelectQuery::new(users_table()))
        .with::<UserPosts>()
        .build();
    assert_eq!(
        sql,
        "SELECT * FROM users INNER JOIN posts ON users.id = posts.user_id"
    );
}
