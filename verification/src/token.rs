//! The exclusive right to enter the engine.
//!
//! An [`AccessFlag`] records whether that right is currently held. A holder
//! proves it with an [`AccessToken`], which only [`AccessToken::claim`] creates
//! and only [`AccessToken::release`] gives back.

use vstd::prelude::*;

verus! {

/// Whether the right to enter the engine is currently held by someone.
#[derive(Debug)]
pub struct AccessFlag {
    claimed: bool,
}

/// Proof that its owner holds the right to enter the engine.
#[derive(Debug)]
pub struct AccessToken {
    held: (),
}

/// What a claim does: it is granted exactly when the flag was free, and a
/// refused claim leaves the flag as it was.
pub open spec fn claim_outcome(before: AccessFlag, after: AccessFlag, granted: bool) -> bool {
    &&& granted == !before.is_claimed()
    &&& after.is_claimed()
    &&& !granted ==> after == before
}

/// What a release does: the flag is free afterwards.
pub open spec fn release_outcome(before: AccessFlag, after: AccessFlag) -> bool {
    before.is_claimed() && !after.is_claimed()
}

impl AccessFlag {
    /// True while a token is outstanding.
    pub closed spec fn is_claimed(&self) -> bool {
        self.claimed
    }

    /// A flag on which no token is outstanding.
    pub fn new() -> (flag: AccessFlag)
        ensures
            !flag.is_claimed(),
    {
        AccessFlag { claimed: false }
    }

    /// Reads the flag.
    pub fn claimed(&self) -> (held: bool)
        ensures
            held == self.is_claimed(),
    {
        self.claimed
    }
}

impl AccessToken {
    /// Takes the token if nobody holds it.
    pub fn claim(flag: &mut AccessFlag) -> (token: Option<AccessToken>)
        ensures
            claim_outcome(*old(flag), *final(flag), token is Some),
    {
        if flag.claimed {
            None
        } else {
            flag.claimed = true;
            Some(AccessToken { held: () })
        }
    }

    /// Gives the token back, so that the next claim is granted.
    pub fn release(self, flag: &mut AccessFlag)
        requires
            old(flag).is_claimed(),
        ensures
            release_outcome(*old(flag), *final(flag)),
    {
        flag.claimed = false;
    }
}

/// While a token is outstanding, every further claim is refused.
pub proof fn lemma_second_claim_refused(
    free: AccessFlag,
    held: AccessFlag,
    after: AccessFlag,
    first: bool,
    second: bool,
)
    requires
        claim_outcome(free, held, first),
        claim_outcome(held, after, second),
    ensures
        !second,
        after == held,
{
}

/// Once the token has been released, the next claim is granted.
pub proof fn lemma_claim_after_release(
    held: AccessFlag,
    free: AccessFlag,
    after: AccessFlag,
    granted: bool,
)
    requires
        release_outcome(held, free),
        claim_outcome(free, after, granted),
    ensures
        granted,
        after.is_claimed(),
{
}

/// One thing that happens to a flag.
pub enum AccessStep {
    /// Somebody tried to claim the token, and was granted it or not.
    Claim { granted: bool },
    /// A holder gave the token back.
    Release,
}

/// The number of tokens that are outstanding after the steps.
pub open spec fn outstanding(steps: Seq<AccessStep>) -> int
    decreases steps.len(),
{
    if steps.len() == 0 {
        0
    } else {
        outstanding(steps.drop_last()) + match steps.last() {
            AccessStep::Claim { granted } => if granted {
                1int
            } else {
                0int
            },
            AccessStep::Release => -1int,
        }
    }
}

/// True of a history of a flag: it starts free, `flags[i + 1]` is the flag
/// after step `i`, every claim does what a claim does, and a release is made
/// by the holder of an outstanding token and leaves the flag free.
pub open spec fn is_history(flags: Seq<AccessFlag>, steps: Seq<AccessStep>) -> bool {
    &&& flags.len() == steps.len() + 1
    &&& !flags[0].is_claimed()
    &&& forall|i: int|
        0 <= i < steps.len() ==> match #[trigger] steps[i] {
            AccessStep::Claim { granted } => claim_outcome(flags[i], flags[i + 1], granted),
            AccessStep::Release => outstanding(steps.take(i)) > 0 && !flags[i + 1].is_claimed(),
        }
}

/// At every point of a history at most one token is outstanding, and the flag
/// is claimed exactly while one is. So whoever holds a token may release it.
pub proof fn lemma_at_most_one_token(flags: Seq<AccessFlag>, steps: Seq<AccessStep>, at: int)
    requires
        is_history(flags, steps),
        0 <= at <= steps.len(),
    ensures
        0 <= outstanding(steps.take(at)) <= 1,
        outstanding(steps.take(at)) == 1 <==> flags[at].is_claimed(),
        at < steps.len() && steps[at] is Release ==> release_outcome(flags[at], flags[at + 1]),
    decreases at,
{
    if at > 0 {
        lemma_at_most_one_token(flags, steps, at - 1);
        assert(steps.take(at).drop_last() =~= steps.take(at - 1));
        assert(steps.take(at).last() == steps[at - 1]);
    }
}

} // verus!
