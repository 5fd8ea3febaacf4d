use std::collections::HashMap;
use std::marker::PhantomData;
use vstd::prelude::*;
use vstd::string::*;

verus! {

broadcast use vstd::std_specs::hash::group_hash_axioms;

/// The decimal digit `d`.
pub open spec fn digit(d: nat) -> char {
    "0123456789"@[d as int]
}

/// The decimal notation of `n`, without sign or leading zeros.
pub open spec fn decimal(n: nat) -> Seq<char>
    decreases n,
{
    if n < 10 {
        seq![digit(n)]
    } else {
        decimal(n / 10).push(digit(n % 10))
    }
}

/// The numbered parameters `$1, $2, ..., $n` of a query.
pub open spec fn placeholder_list(n: nat) -> Seq<char>
    decreases n,
{
    if n == 0 {
        Seq::empty()
    } else if n == 1 {
        "$"@ + decimal(1)
    } else {
        placeholder_list((n - 1) as nat) + ", $"@ + decimal(n)
    }
}

/// Relies on std's `Display` for `usize` (through `to_string`): the decimal
/// notation of the number.
#[verifier::external_body]
fn decimal_text(n: usize) -> (r: String)
    ensures
        r@ == decimal(n as nat),
{
    n.to_string()
}

/// The parameter list `$1, $2, ..., $n` of a query over `n` keys.
pub fn placeholders(n: usize) -> (r: String)
    ensures
        r@ == placeholder_list(n as nat),
{
    let mut s = String::new();
    let mut i: usize = 0;
    while i < n
        invariant
            i <= n,
            s@ == placeholder_list(i as nat),
        decreases n - i,
    {
        if i > 0 {
            s.append(", $");
        } else {
            s.append("$");
        }
        let d = decimal_text(i + 1);
        s.append(d.as_str());
        i = i + 1;
    }
    s
}

/// A row of the users table.
#[derive(Debug, PartialEq, Eq)]
pub struct User {
    pub id: i32,
    pub name: String,
    pub email: String,
}

impl Clone for User {
    fn clone(&self) -> (r: User)
        ensures
            r == *self,
    {
        User { id: self.id, name: self.name.clone(), email: self.email.clone() }
    }
}

/// The fetch result of the rows that came back: each row under its id, a
/// later row replacing an earlier one with the same id.
pub open spec fn rows_by_id(rows: Seq<User>) -> Map<i32, Result<User, String>>
    decreases rows.len(),
{
    if rows.len() == 0 {
        Map::empty()
    } else {
        rows_by_id(rows.drop_last()).insert(rows.last().id, Ok(rows.last()))
    }
}

/// The text every key fails with when the query itself failed.
pub open spec fn database_error(detail: Seq<char>) -> Seq<char> {
    "Database error: "@ + detail
}

/// Files each returned row under its id.
pub fn users_by_id(rows: Vec<User>) -> (r: HashMap<i32, Result<User, String>>)
    ensures
        r@ == rows_by_id(rows@),
{
    let ghost all = rows@;
    let mut rest = rows;
    let mut out: HashMap<i32, Result<User, String>> = HashMap::new();
    let ghost done: int = 0;
    while rest.len() > 0
        invariant
            0 <= done <= all.len(),
            rest@ == all.subrange(done, all.len() as int),
            out@ == rows_by_id(all.subrange(0, done)),
        decreases rest@.len(),
    {
        let user = rest.remove(0);
        proof {
            assert(all.subrange(0, done + 1).drop_last() =~= all.subrange(0, done));
            assert(all.subrange(0, done + 1).last() == user);
        }
        out.insert(user.id, Ok(user));
        proof {
            done = done + 1;
            assert(rest@ =~= all.subrange(done, all.len() as int));
        }
    }
    assert(all.subrange(0, all.len() as int) =~= all);
    out
}

/// The fetch result when the query failed: every key fails with the same
/// database error.
pub fn failure_for_all(keys: &Vec<i32>, detail: &str) -> (r: HashMap<i32, Result<User, String>>)
    ensures
        forall|k: i32| r@.contains_key(k) <==> keys@.contains(k),
        forall|k: i32| #[trigger]
            r@.contains_key(k) ==> r@[k] is Err && r@[k]->Err_0@ == database_error(detail@),
{
    let mut out: HashMap<i32, Result<User, String>> = HashMap::new();
    let mut i: usize = 0;
    while i < keys.len()
        invariant
            i <= keys@.len(),
            forall|k: i32|
                out@.contains_key(k) <==> exists|j: int| 0 <= j < i && #[trigger] keys@[j] == k,
            forall|k: i32| #[trigger]
                out@.contains_key(k) ==> out@[k] is Err && out@[k]->Err_0@ == database_error(
                    detail@,
                ),
        decreases keys@.len() - i,
    {
        let mut msg = String::from_str("Database error: ");
        msg.append(detail);
        out.insert(keys[i], Err(msg));
        i = i + 1;
    }
    out
}

/// The query that reads the users with `n` given ids.
pub open spec fn user_query_text(n: nat) -> Seq<char> {
    "SELECT id, name, email FROM users WHERE id IN ("@ + placeholder_list(n) + ")"@
}

/// Fetches users by id through a connection pool of type `P`.
pub struct UserLoader<P> {
    pool: P,
}

impl<P> UserLoader<P> {
    /// The pool the loader queries.
    pub closed spec fn pool_spec(&self) -> P {
        self.pool
    }

    /// A loader over `pool`.
    pub fn new(pool: P) -> (r: Self)
        ensures
            r.pool_spec() == pool,
    {
        UserLoader { pool }
    }

    /// The pool the loader queries.
    pub fn pool(&self) -> (r: &P)
        ensures
            *r == self.pool_spec(),
    {
        &self.pool
    }

    /// The query for `n` ids, with one numbered parameter per id.
    pub fn query(&self, n: usize) -> (r: String)
        ensures
            r@ == user_query_text(n as nat),
    {
        let mut q = String::from_str("SELECT id, name, email FROM users WHERE id IN (");
        let p = placeholders(n);
        q.append(p.as_str());
        q.append(")");
        q
    }
}

/// The query that reads the rows of `table` whose `column` holds one of `n` ids.
pub open spec fn table_query_text(table: Seq<char>, column: Seq<char>, n: nat) -> Seq<char> {
    "SELECT * FROM "@ + table + " WHERE "@ + column + " IN ("@ + placeholder_list(n) + ")"@
}

/// Fetches rows of type `T` by id from any table, through a connection pool of
/// type `P`; `K` is the key type callers use for the ids.
pub struct GenericSQLLoader<P, T, K> {
    pool: P,
    table_name: String,
    id_column: String,
    _rows: PhantomData<(T, K)>,
}

impl<P, T, K> GenericSQLLoader<P, T, K> {
    /// The pool the loader queries.
    pub closed spec fn pool_spec(&self) -> P {
        self.pool
    }

    /// The table the rows come from.
    pub closed spec fn table_spec(&self) -> Seq<char> {
        self.table_name@
    }

    /// The column holding the ids.
    pub closed spec fn column_spec(&self) -> Seq<char> {
        self.id_column@
    }

    /// A loader over `pool` that reads `table_name` by `id_column`.
    pub fn new(pool: P, table_name: &str, id_column: &str) -> (r: Self)
        ensures
            r.pool_spec() == pool,
            r.table_spec() == table_name@,
            r.column_spec() == id_column@,
    {
        GenericSQLLoader {
            pool,
            table_name: String::from_str(table_name),
            id_column: String::from_str(id_column),
            _rows: PhantomData,
        }
    }

    /// The pool the loader queries.
    pub fn pool(&self) -> (r: &P)
        ensures
            *r == self.pool_spec(),
    {
        &self.pool
    }

    /// The query for `n` ids, with one numbered parameter per id.
    pub fn query(&self, n: usize) -> (r: String)
        ensures
            r@ == table_query_text(self.table_spec(), self.column_spec(), n as nat),
    {
        let mut q = String::from_str("SELECT * FROM ");
        q.append(self.table_name.as_str());
        q.append(" WHERE ");
        q.append(self.id_column.as_str());
        q.append(" IN (");
        let p = placeholders(n);
        q.append(p.as_str());
        q.append(")");
        q
    }
}

} // verus!
