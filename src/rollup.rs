use vstd::prelude::*;

use crate::error::AdW3Error;
use crate::state::{keys_equal, Key};

verus! {

/// The two execution contexts: the durable primary one, and the fast
/// secondary one where auctions are resolved.
#[derive(Clone, Copy, Debug, PartialEq, Eq, Structural)]
pub enum Location {
    Primary,
    Secondary,
}

/// Where one record (a request, a bid or an auction record) lives: the
/// context that holds its write authority, the party that controls it, and
/// whether the secondary copy holds writes not yet committed to the primary.
#[derive(Clone, Copy, Debug)]
pub struct Residency {
    pub controller: Key,
    pub location: Location,
    pub uncommitted: bool,
}

impl Residency {
    /// A record in the primary context never has uncommitted writes.
    pub open spec fn wf(&self) -> bool {
        self.location == Location::Primary ==> !self.uncommitted
    }

    /// A fresh record, owned by the primary context.
    pub fn new(controller: Key) -> (r: Residency)
        ensures
            r == (Residency { controller, location: Location::Primary, uncommitted: false }),
            r.wf(),
    {
        Residency { controller, location: Location::Primary, uncommitted: false }
    }

    /// Whether `context` may write the record: exactly one context may.
    pub fn writable_in(&self, context: Location) -> (r: bool)
        ensures
            r == (self.location == context),
    {
        match (self.location, context) {
            (Location::Primary, Location::Primary) => true,
            (Location::Secondary, Location::Secondary) => true,
            _ => false,
        }
    }

    /// Hands write authority to the secondary context. Only the
    /// controlling party may, and only for a record the primary holds; on
    /// an error nothing changes.
    pub fn delegate(&mut self, authority: &Key) -> (r: Result<(), AdW3Error>)
        ensures
            r is Ok <==> (old(self).location == Location::Primary && authority@ == old(self).controller@),
            match r {
                Ok(()) => {
                    &&& old(self).location == Location::Primary
                    &&& authority@ == old(self).controller@
                    &&& *final(self) == (Residency { location: Location::Secondary, uncommitted: false, ..*old(self) })
                },
                Err(e) => {
                    &&& *final(self) == *old(self)
                    &&& e == if old(self).location == Location::Secondary {
                        AdW3Error::AccountAlreadyDelegated
                    } else {
                        AdW3Error::UnauthorizedAccess
                    }
                },
            },
            old(self).wf() ==> final(self).wf(),
    {
        if self.location == Location::Secondary {
            return Err(AdW3Error::AccountAlreadyDelegated);
        }
        if !keys_equal(authority, &self.controller) {
            return Err(AdW3Error::UnauthorizedAccess);
        }
        self.location = Location::Secondary;
        self.uncommitted = false;
        Ok(())
    }

    /// Notes a write made in the secondary context.
    pub fn record_write(&mut self) -> (r: Result<(), AdW3Error>)
        ensures
            r is Ok <==> old(self).location == Location::Secondary,
            r is Err ==> r == Err::<(), AdW3Error>(AdW3Error::AccountNotDelegated) && *final(self) == *old(self),
            r is Ok ==> *final(self) == (Residency { uncommitted: true, ..*old(self) }),
            old(self).wf() ==> final(self).wf(),
    {
        if self.location != Location::Secondary {
            return Err(AdW3Error::AccountNotDelegated);
        }
        self.uncommitted = true;
        Ok(())
    }

    /// Pushes the secondary copy back to the primary context; the record
    /// stays delegated.
    pub fn commit(&mut self) -> (r: Result<(), AdW3Error>)
        ensures
            r is Ok <==> old(self).location == Location::Secondary,
            r is Err ==> r == Err::<(), AdW3Error>(AdW3Error::AccountNotDelegated) && *final(self) == *old(self),
            r is Ok ==> *final(self) == (Residency { uncommitted: false, ..*old(self) }),
            old(self).wf() ==> final(self).wf(),
    {
        if self.location != Location::Secondary {
            return Err(AdW3Error::AccountNotDelegated);
        }
        self.uncommitted = false;
        Ok(())
    }

    /// Commits the secondary copy and returns write authority to the
    /// primary context, so no stale state is ever undelegated.
    pub fn commit_and_undelegate(&mut self) -> (r: Result<(), AdW3Error>)
        ensures
            r is Ok <==> old(self).location == Location::Secondary,
            r is Err ==> r == Err::<(), AdW3Error>(AdW3Error::AccountNotDelegated) && *final(self) == *old(self),
            r is Ok ==> *final(self) == (Residency {
                location: Location::Primary,
                uncommitted: false,
                ..*old(self)
            }),
            old(self).wf() ==> final(self).wf(),
    {
        if self.location != Location::Secondary {
            return Err(AdW3Error::AccountNotDelegated);
        }
        self.location = Location::Primary;
        self.uncommitted = false;
        Ok(())
    }
}

/// Commits several delegated records as one batch: all of them or none.
/// Every record must be held by the secondary context; otherwise nothing
/// changes.
pub fn commit_batch(records: &mut Vec<Residency>) -> (r: Result<(), AdW3Error>)
    ensures
        r is Ok <==> forall|i: int| 0 <= i < old(records)@.len() ==> old(records)@[i].location == Location::Secondary,
        r is Err ==> r == Err::<(), AdW3Error>(AdW3Error::AccountNotDelegated) && final(records)@ == old(records)@,
        r is Ok ==> {
            &&& final(records)@.len() == old(records)@.len()
            &&& forall|i: int| 0 <= i < old(records)@.len() ==> #[trigger] final(records)@[i] == (Residency {
                uncommitted: false,
                ..old(records)@[i]
            })
        },
{
    let mut i: usize = 0;
    while i < records.len()
        invariant
            i <= records@.len(),
            records@ == old(records)@,
            forall|j: int| 0 <= j < i ==> records@[j].location == Location::Secondary,
        decreases records@.len() - i,
    {
        if records[i].location != Location::Secondary {
            return Err(AdW3Error::AccountNotDelegated);
        }
        i = i + 1;
    }
    let ghost before = records@;
    let mut k: usize = 0;
    while k < records.len()
        invariant
            k <= records@.len(),
            records@.len() == before.len(),
            forall|j: int| 0 <= j < k ==> #[trigger] records@[j] == (Residency { uncommitted: false, ..before[j] }),
            forall|j: int| k <= j < before.len() ==> #[trigger] records@[j] == before[j],
        decreases records@.len() - k,
    {
        let mut rec = records[k];
        rec.uncommitted = false;
        records[k] = rec;
        k = k + 1;
    }
    Ok(())
}

} // verus!
