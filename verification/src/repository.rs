//! What the submission pipeline asks of a message store.
use vstd::prelude::*;
use crate::entity::ContactMessage;
use crate::exceptions::RepositoryError;

verus! {

/// A store of contact messages. `save` answers `true` for an acknowledged
/// write.
pub trait ContactMessageRepository: Sized {
    /// What one call of `save` with `contact` did to a store: `self` is the
    /// store before the call, `after` the store after it, `answer` what
    /// the call returned. A store may say for itself what holds here; of
    /// one that does not, nothing is known.
    open spec fn save_effect(
        self,
        after: Self,
        contact: ContactMessage,
        answer: Result<bool, RepositoryError>,
    ) -> bool {
        true
    }

    fn save(&mut self, contact: &ContactMessage) -> (r: Result<bool, RepositoryError>)
        ensures
            old(self).save_effect(*final(self), *contact, r),
    ;
}

} // verus!
