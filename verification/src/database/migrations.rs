//! The hook for work on the schema beyond the migrations.

use vstd::prelude::*;
use crate::database::error::DatabaseResult;

verus! {

/// Does the work on the schema that the migrations leave: none. It succeeds.
pub fn init_migrations() -> (r: DatabaseResult<()>)
    ensures
        r is Ok,
{
    Ok(())
}

} // verus!
