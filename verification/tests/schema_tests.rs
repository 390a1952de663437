use auth_service::schema::{revoked_tokens_table, users_table, ColumnType};

#[test]
fn users_table_columns() {
    let t = users_table();
    assert_eq!(t.name, "users");
    assert!(t.if_not_exists);
    let names: Vec<&str> = t.columns.iter().map(|c| c.name.as_str()).collect();
    assert_eq!(names, vec!["id", "username", "email", "firstname", "lastname", "password_hash"]);
    assert_eq!(t.columns[0].column_type, ColumnType::Uuid);
    assert!(t.columns[0].primary_key);
    assert!(t.columns[1].unique && t.columns[2].unique);
    assert!(!t.columns[3].unique && !t.columns[4].unique && !t.columns[5].unique);
    assert!(t.columns.iter().all(|c| c.not_null));
    assert_eq!(t.columns.iter().filter(|c| c.primary_key).count(), 1);
}

#[test]
fn revoked_tokens_table_columns() {
    let t = revoked_tokens_table();
    assert_eq!(t.name, "revoked_tokens");
    let cols: Vec<(&str, ColumnType)> = t.columns.iter().map(|c| (c.name.as_str(), c.column_type)).collect();
    assert_eq!(
        cols,
        vec![
            ("jti", ColumnType::Text),
            ("user_id", ColumnType::Uuid),
            ("exp", ColumnType::BigInteger),
            ("revoked_at", ColumnType::Timestamp),
        ]
    );
    assert!(t.columns[0].primary_key);
    assert_eq!(t.columns.iter().filter(|c| c.primary_key).count(), 1);
    assert!(t.columns.iter().all(|c| c.not_null && !c.unique));
}
