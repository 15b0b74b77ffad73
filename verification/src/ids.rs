//! Process-wide allocation of request identities.
//!
//! Every inbound request is assigned a monotonically increasing 64-bit
//! identity, used to correlate captured output and environment exposure.
//! The counter wraps at `2^64`; identities are unique for any run that
//! serves fewer than `2^64` requests.
use vstd::prelude::*;

verus! {

use vstd::arithmetic::div_mod::lemma_add_mod_noop;
use vstd::arithmetic::div_mod::lemma_mod_self_0;
use vstd::arithmetic::div_mod::lemma_small_mod;

/// One more than `u64::MAX`: the modulus at which request identities wrap.
pub const ID_MODULUS: u128 = 0x1_0000_0000_0000_0000;

/// The identity handed out by the `k`-th call to [`RequestIdGen::next_id`]
/// on a generator whose counter started at `start`.
pub open spec fn nth_id(start: nat, k: nat) -> nat {
    (start + k) % (ID_MODULUS as nat)
}

/// Allocator of request identities. The process holds exactly one, shared
/// by all connections; each call hands out the current counter value and
/// advances it.
pub struct RequestIdGen {
    counter: u64,
    issued: Ghost<nat>,
}

impl RequestIdGen {
    /// The value the next call to [`Self::next_id`] will return.
    pub closed spec fn counter(self) -> u64 {
        self.counter
    }

    /// How many identities this generator has handed out.
    pub closed spec fn issued(self) -> nat {
        self.issued@
    }

    /// The counter always stands at the identity of the next request of
    /// the run.
    #[verifier::type_invariant]
    spec fn wf(self) -> bool {
        self.counter == nth_id(0, self.issued@)
    }

    /// A fresh generator; the first request observes identity `0`.
    pub fn new() -> (g: RequestIdGen)
        ensures
            g.counter() == 0,
            g.issued() == 0,
    {
        proof {
            lemma_small_mod(0, ID_MODULUS as nat);
        }
        RequestIdGen { counter: 0, issued: Ghost(0) }
    }

    /// Hands out the next identity and advances the counter, wrapping at
    /// `2^64`: the `k`-th call of a run returns [`nth_id`]`(0, k)`.
    pub fn next_id(&mut self) -> (id: u64)
        ensures
            id == old(self).counter(),
            id == nth_id(0, old(self).issued()),
            final(self).issued() == old(self).issued() + 1,
            final(self).counter() == (old(self).counter() + 1) % (ID_MODULUS as int),
    {
        proof {
            use_type_invariant(&*self);
        }
        let id = self.counter;
        let next = if id == u64::MAX {
            0
        } else {
            id + 1
        };
        let ghost k = self.issued@;
        proof {
            if id < u64::MAX {
                lemma_small_mod((id + 1) as nat, ID_MODULUS as nat);
            } else {
                lemma_mod_self_0(ID_MODULUS as int);
            }
            lemma_add_mod_noop(k as int, 1, ID_MODULUS as int);
            lemma_small_mod(1, ID_MODULUS as nat);
            assert((id + 1) % (ID_MODULUS as int) == (k as int + 1) % (ID_MODULUS as int));
        }
        *self = RequestIdGen { counter: next, issued: Ghost(k + 1) };
        id
    }
}

/// Law: request identities are unique for the lifetime of the process as
/// long as fewer than `2^64` identities are handed out. The `i`-th and
/// `j`-th requests of a run that started from a fresh generator never
/// observe the same identity.
pub proof fn lemma_request_ids_unique(i: nat, j: nat)
    requires
        i < j < ID_MODULUS,
    ensures
        nth_id(0, i) != nth_id(0, j),
{
    lemma_small_mod(i, ID_MODULUS as nat);
    lemma_small_mod(j, ID_MODULUS as nat);
}

} // verus!
