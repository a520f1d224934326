//! The mission-viewing repository handle. Its queries are SQL run by the
//! unverified shell; what lives here is the pooled database handle they
//! share and the one piece of query text that is computed, the name
//! filter pattern.

use vstd::prelude::*;
use std::sync::Arc;
use diesel::pg::PgConnection;
use diesel::r2d2::{ConnectionManager, Pool};

verus! {

/// The pool of connections to the mission database. The pool type's own
/// generics carry a trait bound Verus cannot declare, so the pool is
/// held opaquely; the field stays reachable for the shell that runs the
/// SQL.
#[verifier::external_body]
pub struct PgPoolSquad {
    pub pool: Pool<ConnectionManager<PgConnection>>,
}

/// Relies on diesel::r2d2::ConnectionManager::new and r2d2's
/// Pool::builder().build: opens a connection pool for the given
/// database URL; a failure comes back as its message.
#[verifier::external_body]
pub fn establish_connection(database_url: &str) -> Result<PgPoolSquad, String> {
    let manager = ConnectionManager::<PgConnection>::new(database_url);
    match Pool::builder().build(manager) {
        Ok(pool) => Ok(PgPoolSquad { pool }),
        Err(e) => Err(e.to_string()),
    }
}

/// Read-only access to missions, their chiefs and their crews.
pub struct MissionViewingPostgres {
    db_pool: Arc<PgPoolSquad>,
}

impl MissionViewingPostgres {
    /// The pool this repository runs its queries on.
    pub closed spec fn pool(self) -> Arc<PgPoolSquad> {
        self.db_pool
    }

    /// Builds the repository around a pooled database handle.
    pub fn new(db_pool: Arc<PgPoolSquad>) -> (r: Self)
        ensures
            r.pool() == db_pool,
    {
        MissionViewingPostgres { db_pool }
    }

    /// Hands the pool to the shell that executes the SQL.
    pub fn db_pool(&self) -> (r: &Arc<PgPoolSquad>)
        ensures
            *r == self.pool(),
    {
        &self.db_pool
    }
}

/// The pattern a name filter becomes in the mission listing query: the
/// name wrapped in wildcards, so any mission whose name contains it
/// matches.
pub fn name_like_pattern(name: &str) -> (p: String)
    ensures
        p@ == seq!['%'] + name@ + seq!['%'],
{
    let mut p = String::from_str("%");
    p.append(name);
    p.append("%");
    proof {
        reveal_strlit("%");
        assert(p@ =~= seq!['%'] + name@ + seq!['%']);
    }
    p
}

} // verus!
