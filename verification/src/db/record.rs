//! What the five tables of the hierarchy have in common: every row carries an
//! identity, links to the rows it hangs under, and an archive stamp.

use vstd::prelude::*;
use crate::commands::repository::EntityType;

verus! {

/// A row of one of the hierarchy's tables.
pub trait Record: Sized {
    /// The row's identity.
    spec fn key(&self) -> Seq<char>;

    /// When the row was archived, if it is.
    spec fn archived(&self) -> Option<i64>;

    /// The identity of the row of table `to` that this row hangs under, if
    /// it has such a link and the link is set.
    spec fn link(&self, to: EntityType) -> Option<Seq<char>>;

    /// This row with its archive stamp and its time of last change replaced.
    spec fn stamped(self, archived: Option<i64>, updated: i64) -> Self;

    /// Stamping a row changes neither its identity nor its links.
    proof fn stamped_keeps_shape(self, archived: Option<i64>, updated: i64)
        ensures
            self.stamped(archived, updated).key() == self.key(),
            self.stamped(archived, updated).archived() == archived,
            forall|to: EntityType| #[trigger] self.stamped(archived, updated).link(to) == self.link(to),
    ;

    fn id(&self) -> (r: &String)
        ensures
            r@ == self.key(),
    ;

    fn archived_at(&self) -> (r: Option<i64>)
        ensures
            r == self.archived(),
    ;

    /// Whether this row hangs under the row `id` of table `to`.
    fn links_to(&self, to: EntityType, id: &str) -> (r: bool)
        ensures
            r == (self.link(to) == Some(id@)),
    ;

    /// A copy of this row.
    fn duplicate(&self) -> (r: Self)
        ensures
            r == *self,
    ;

    fn stamp(&mut self, archived: Option<i64>, updated: i64)
        ensures
            *final(self) == old(self).stamped(archived, updated),
    ;
}

} // verus!
