//! The two facts of a compilation, each settled once and replayed ever after.
//!
//! A cache starts empty. The first reading settles its fact; from then on every
//! reading gives that same fact and leaves the cache as it is. Whoever owns a cache
//! sees to it that one reader at a time holds it.

use crate::diagnostic::QueryFailure;
use crate::moment::CompileMoment;
use crate::version::ToolchainVersion;
use vstd::prelude::*;

verus! {

/// The moment of compilation, once it has been read from the clock.
pub struct MomentCache {
    slot: Option<CompileMoment>,
}

impl View for MomentCache {
    type V = Option<CompileMoment>;

    closed spec fn view(&self) -> Option<CompileMoment> {
        self.slot
    }
}

impl MomentCache {
    #[verifier::type_invariant]
    closed spec fn inv(self) -> bool {
        self.slot matches Some(moment) ==> moment@.is_valid()
    }

    /// What one reading does: `moment` is what it returns, `before` and `after` the
    /// cache on both sides of it. A settled cache replays and stays; an empty one is
    /// settled with what the reading returns.
    pub open spec fn reading(
        before: Option<CompileMoment>,
        after: Option<CompileMoment>,
        moment: CompileMoment,
    ) -> bool {
        &&& after == Some(moment)
        &&& before is Some ==> after == before
    }

    /// A cache that has not looked at the clock yet.
    pub fn new() -> (cache: MomentCache)
        ensures
            cache@ is None,
    {
        MomentCache { slot: None }
    }

    /// Whether the moment is settled.
    pub fn is_settled(&self) -> (settled: bool)
        ensures
            settled == (self@ is Some),
    {
        self.slot.is_some()
    }

    /// The moment of compilation. The first call reads the clock; every later call
    /// returns what the first one did.
    pub fn moment(&mut self) -> (moment: CompileMoment)
        ensures
            MomentCache::reading(old(self)@, final(self)@, moment),
            moment@.is_valid(),
    {
        proof {
            use_type_invariant(&*self);
        }
        let moment = match self.slot {
            Some(moment) => moment,
            None => CompileMoment::capture(),
        };
        self.slot = Some(moment);
        moment
    }
}

/// What the toolchain answered when it was asked for its version, once it has been
/// asked. The asking itself is left to the owner of the cache, who asks when
/// `needs_query` says so and hands the answer to `settle`.
pub struct ToolchainCache {
    slot: Option<Result<ToolchainVersion, QueryFailure>>,
}

impl View for ToolchainCache {
    type V = Option<Result<ToolchainVersion, QueryFailure>>;

    closed spec fn view(&self) -> Option<Result<ToolchainVersion, QueryFailure>> {
        self.slot
    }
}

impl ToolchainCache {
    /// What handing in an answer does: the first answer settles the cache, a later
    /// one is dropped.
    pub open spec fn settling(
        before: Option<Result<ToolchainVersion, QueryFailure>>,
        after: Option<Result<ToolchainVersion, QueryFailure>>,
        answer: Result<ToolchainVersion, QueryFailure>,
    ) -> bool {
        after == (if before is Some {
            before
        } else {
            Some(answer)
        })
    }

    /// A cache for a toolchain that has not been asked yet.
    pub fn new() -> (cache: ToolchainCache)
        ensures
            cache@ is None,
    {
        ToolchainCache { slot: None }
    }

    /// Whether the toolchain is still to be asked: true until an answer is handed in.
    pub fn needs_query(&self) -> (needed: bool)
        ensures
            needed == (self@ is None),
    {
        self.slot.is_none()
    }

    /// Hands in what the toolchain answered, a version or a failure. Only the first
    /// answer counts.
    pub fn settle(&mut self, answer: Result<ToolchainVersion, QueryFailure>)
        ensures
            ToolchainCache::settling(old(self)@, final(self)@, answer),
    {
        if self.slot.is_none() {
            self.slot = Some(answer);
        }
    }

    /// The settled answer, a failure as much as a version; `None` before any answer
    /// was handed in.
    pub fn answer(&self) -> (answer: Option<&Result<ToolchainVersion, QueryFailure>>)
        ensures
            match answer {
                Some(settled) => self@ == Some(*settled),
                None => self@ is None,
            },
    {
        self.slot.as_ref()
    }
}

} // verus!
