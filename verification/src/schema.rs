//! The store's tables, as the migrations create them.

use vstd::prelude::*;

verus! {

/// The type of a column.
#[derive(Debug, Clone, Copy, PartialEq, Eq, Structural)]
pub enum ColumnType {
    Uuid,
    Text,
    BigInteger,
    Timestamp,
}

/// A column: its name, type and constraints.
#[derive(Debug, Clone, PartialEq, Eq)]
pub struct ColumnDef {
    pub name: String,
    pub column_type: ColumnType,
    pub not_null: bool,
    pub primary_key: bool,
    pub unique: bool,
}

/// A table to create (only if it does not exist yet) with its columns in order.
#[derive(Debug, Clone, PartialEq, Eq)]
pub struct TableDef {
    pub name: String,
    pub if_not_exists: bool,
    pub columns: Vec<ColumnDef>,
}

/// The column is a non-null column with this name, type and key constraints.
pub open spec fn column_is(c: ColumnDef, name: Seq<char>, t: ColumnType, primary_key: bool, unique: bool) -> bool {
    &&& c.name@ == name
    &&& c.column_type == t
    &&& c.not_null
    &&& c.primary_key == primary_key
    &&& c.unique == unique
}

/// The table of users: a UUID key, unique user names and e-mail addresses.
pub open spec fn is_users_table(t: TableDef) -> bool {
    &&& t.name@ == "users"@
    &&& t.if_not_exists
    &&& t.columns@.len() == 6
    &&& column_is(t.columns@[0], "id"@, ColumnType::Uuid, true, false)
    &&& column_is(t.columns@[1], "username"@, ColumnType::Text, false, true)
    &&& column_is(t.columns@[2], "email"@, ColumnType::Text, false, true)
    &&& column_is(t.columns@[3], "firstname"@, ColumnType::Text, false, false)
    &&& column_is(t.columns@[4], "lastname"@, ColumnType::Text, false, false)
    &&& column_is(t.columns@[5], "password_hash"@, ColumnType::Text, false, false)
}

/// The revocation list: keyed by token id, with the owner, the token's
/// expiry (for the purge) and the time of revocation.
pub open spec fn is_revoked_tokens_table(t: TableDef) -> bool {
    &&& t.name@ == "revoked_tokens"@
    &&& t.if_not_exists
    &&& t.columns@.len() == 4
    &&& column_is(t.columns@[0], "jti"@, ColumnType::Text, true, false)
    &&& column_is(t.columns@[1], "user_id"@, ColumnType::Uuid, false, false)
    &&& column_is(t.columns@[2], "exp"@, ColumnType::BigInteger, false, false)
    &&& column_is(t.columns@[3], "revoked_at"@, ColumnType::Timestamp, false, false)
}

fn column(name: &str, column_type: ColumnType, primary_key: bool, unique: bool) -> (c: ColumnDef)
    ensures
        column_is(c, name@, column_type, primary_key, unique),
{
    ColumnDef { name: String::from_str(name), column_type, not_null: true, primary_key, unique }
}

/// The name of the users table.
pub fn users_table_name() -> (s: String)
    ensures
        s@ == "users"@,
{
    String::from_str("users")
}

/// The name of the revocation table.
pub fn revoked_tokens_table_name() -> (s: String)
    ensures
        s@ == "revoked_tokens"@,
{
    String::from_str("revoked_tokens")
}

/// The users table as the first migration creates it.
pub fn users_table() -> (t: TableDef)
    ensures
        is_users_table(t),
{
    let mut columns: Vec<ColumnDef> = Vec::new();
    columns.push(column("id", ColumnType::Uuid, true, false));
    columns.push(column("username", ColumnType::Text, false, true));
    columns.push(column("email", ColumnType::Text, false, true));
    columns.push(column("firstname", ColumnType::Text, false, false));
    columns.push(column("lastname", ColumnType::Text, false, false));
    columns.push(column("password_hash", ColumnType::Text, false, false));
    TableDef { name: users_table_name(), if_not_exists: true, columns }
}

/// The revocation table as the second migration creates it.
pub fn revoked_tokens_table() -> (t: TableDef)
    ensures
        is_revoked_tokens_table(t),
{
    let mut columns: Vec<ColumnDef> = Vec::new();
    columns.push(column("jti", ColumnType::Text, true, false));
    columns.push(column("user_id", ColumnType::Uuid, false, false));
    columns.push(column("exp", ColumnType::BigInteger, false, false));
    columns.push(column("revoked_at", ColumnType::Timestamp, false, false));
    TableDef { name: revoked_tokens_table_name(), if_not_exists: true, columns }
}

/// Every table has exactly one primary key column.
pub open spec fn has_single_key(t: TableDef) -> bool {
    exists|k: int|
        0 <= k < t.columns@.len() && #[trigger] t.columns@[k].primary_key && forall|j: int|
            0 <= j < t.columns@.len() && j != k ==> !(#[trigger] t.columns@[j]).primary_key
}

/// Both tables have a single primary key, and no two columns share a name.
pub proof fn lemma_tables_well_formed(users: TableDef, revoked: TableDef)
    requires
        is_users_table(users),
        is_revoked_tokens_table(revoked),
    ensures
        has_single_key(users),
        has_single_key(revoked),
        forall|i: int, j: int|
            0 <= i < j < users.columns@.len() ==> #[trigger] users.columns@[i].name@ != #[trigger] users.columns@[j].name@,
        forall|i: int, j: int|
            0 <= i < j < revoked.columns@.len() ==> #[trigger] revoked.columns@[i].name@ != #[trigger] revoked.columns@[j].name@,
{
    reveal_strlit("id");
    reveal_strlit("username");
    reveal_strlit("email");
    reveal_strlit("firstname");
    reveal_strlit("lastname");
    reveal_strlit("password_hash");
    reveal_strlit("jti");
    reveal_strlit("user_id");
    reveal_strlit("exp");
    reveal_strlit("revoked_at");
    assert(users.columns@[0].primary_key);
    assert(revoked.columns@[0].primary_key);
    assert forall|i: int, j: int| 0 <= i < j < users.columns@.len() implies #[trigger] users.columns@[i].name@
        != #[trigger] users.columns@[j].name@ by {
        let a = users.columns@[i].name@;
        let b = users.columns@[j].name@;
        assert(a.len() != b.len() || a[0] != b[0]);
    }
    assert forall|i: int, j: int| 0 <= i < j < revoked.columns@.len() implies #[trigger] revoked.columns@[i].name@
        != #[trigger] revoked.columns@[j].name@ by {
        let a = revoked.columns@[i].name@;
        let b = revoked.columns@[j].name@;
        assert(a.len() != b.len() || a[0] != b[0]);
    }
}

} // verus!
