//! Decisions of the schema migration of the local database: which
//! migrations run, in which order, and when the database is refused. The
//! statements themselves run against the database in the caller.

use vstd::prelude::*;
use crate::error::StorageError;
use crate::text::{push_signed_decimal_str, signed_decimal_chars, string_of};

verus! {

/// The migrations still to run from `current`: those of a higher version,
/// in their order.
pub open spec fn pending_migrations(available: Seq<i32>, current: i32) -> Seq<i32> {
    available.filter(|v: i32| v > current)
}

/// Message of the refusal of a database newer than the schema.
pub open spec fn newer_database_message(current: int, schema: int) -> Seq<char> {
    "Database version ("@ + signed_decimal_chars(current) + ") is newer than schema version ("@
        + signed_decimal_chars(schema) + "). Please update the app."@
}

/// Versions of the known migrations, in the order in which they run.
pub fn migration_versions() -> (res: Vec<i32>)
    ensures
        res@ == seq![1i32],
{
    let mut v: Vec<i32> = Vec::new();
    v.push(1);
    v
}

/// Whether a database at `current_version` is behind the schema.
pub fn needs_migration(current_version: i32, schema_version: i32) -> (res: bool)
    ensures
        res == (current_version < schema_version),
{
    current_version < schema_version
}

/// The migrations to run on a database at `current_version`: none when it
/// is at the schema version, a refusal when it is newer, and otherwise each
/// available migration of a higher version, in order.
pub fn migration_plan(current_version: i32, schema_version: i32, available: &Vec<i32>) -> (res:
    Result<Vec<i32>, StorageError>)
    ensures
        res is Err <==> current_version > schema_version,
        res matches Err(e) ==> e matches StorageError::MigrationFailed(m) && m@
            == newer_database_message(current_version as int, schema_version as int),
        current_version == schema_version ==> (res matches Ok(p) && p@.len() == 0),
        current_version < schema_version ==> (res matches Ok(p) && p@ == pending_migrations(
            available@,
            current_version,
        )),
{
    if current_version == schema_version {
        return Ok(Vec::new());
    }
    if current_version > schema_version {
        let mut m = string_of("Database version (");
        push_signed_decimal_str(&mut m, current_version as i64);
        m.append(") is newer than schema version (");
        push_signed_decimal_str(&mut m, schema_version as i64);
        m.append("). Please update the app.");
        return Err(StorageError::MigrationFailed(m));
    }
    let ghost pred = |v: i32| v > current_version;
    let mut plan: Vec<i32> = Vec::new();
    let mut i: usize = 0;
    while i < available.len()
        invariant
            i <= available@.len(),
            pred == (|v: i32| v > current_version),
            plan@ == available@.take(i as int).filter(pred),
        decreases available@.len() - i,
    {
        let v = available[i];
        proof {
            assert(available@.take(i as int + 1) =~= available@.take(i as int).push(v));
            available@.take(i as int).lemma_filter_push(v, pred);
        }
        if v > current_version {
            plan.push(v);
        }
        i = i + 1;
    }
    assert(available@.take(available@.len() as int) =~= available@);
    Ok(plan)
}

/// The error of a migration that failed: `Migration V failed: CAUSE`.
pub fn migration_failed(version: i32, cause: &str) -> (res: StorageError)
    ensures
        res matches StorageError::MigrationFailed(m) && m@ == "Migration "@ + signed_decimal_chars(
            version as int,
        ) + " failed: "@ + cause@,
{
    let mut m = string_of("Migration ");
    push_signed_decimal_str(&mut m, version as i64);
    m.append(" failed: ");
    m.append(cause);
    StorageError::MigrationFailed(m)
}

} // verus!
