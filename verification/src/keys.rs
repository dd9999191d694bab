//! One-byte prefixes that keep the persistent collections of one contract
//! apart.

use vstd::prelude::*;

verus! {

/// The counter after one more prefix is handed out: one past the current
/// value, except that 90 is followed by 97.
pub open spec fn next_prefix(counter: nat) -> nat {
    if counter == 90 {
        97
    } else {
        counter + 1
    }
}

/// The counter after `n` prefixes are handed out, starting from `start`;
/// for `n > 0` it is also the last of those prefixes.
pub open spec fn prefix_after(start: nat, n: nat) -> nat
    decreases n,
{
    if n == 0 {
        start
    } else {
        next_prefix(prefix_after(start, (n - 1) as nat))
    }
}

/// The `n`-th prefix that a new generator hands out, counted from one.
pub open spec fn fresh_prefix(n: nat) -> nat {
    if n <= 26 {
        64 + n
    } else {
        70 + n
    }
}

/// Hands out storage-key prefixes. `ascii` is the counter: the last prefix
/// handed out, or 64 before the first.
#[derive(Debug, PartialEq, Eq)]
pub struct IntoStorageKeyGenerator {
    pub ascii: u8,
}

impl Default for IntoStorageKeyGenerator {
    /// A generator that has handed out nothing yet.
    fn default() -> (generator: Self)
        ensures
            generator.ascii == 64,
    {
        Self { ascii: 64 }
    }
}

impl IntoStorageKeyGenerator {
    /// Hands out the next prefix, which is larger than every prefix handed
    /// out before. The last prefix is 255: after it no call is allowed.
    pub fn get_into_storage_key(&mut self) -> (key: Vec<u8>)
        requires
            old(self).ascii < 255,
        ensures
            final(self).ascii == next_prefix(old(self).ascii as nat),
            final(self).ascii == prefix_after(old(self).ascii as nat, 1),
            final(self).ascii > old(self).ascii,
            key@ == seq![final(self).ascii],
    {
        proof {
            reveal_with_fuel(prefix_after, 2);
        }
        if self.ascii == 90 {
            self.ascii += 6;
        }
        self.ascii += 1;
        vec![self.ascii]
    }
}

/// What a new generator hands out depends on the number of calls alone: the
/// first 26 prefixes are 65 to 90, and the `n`-th after them is `70 + n`. The
/// prefix fits in a byte for exactly the first 185 calls.
pub proof fn lemma_fresh_prefixes(n: nat)
    ensures
        prefix_after(64, n) == fresh_prefix(n),
        n <= 185 <==> prefix_after(64, n) <= 255,
    decreases n,
{
    if n > 0 {
        lemma_fresh_prefixes((n - 1) as nat);
    }
}

/// Each prefix is strictly greater than every prefix handed out before it,
/// whatever the counter started from.
pub proof fn lemma_prefixes_increase(start: nat, i: nat, j: nat)
    requires
        i < j,
    ensures
        prefix_after(start, i) < prefix_after(start, j),
    decreases j,
{
    if i < j - 1 {
        lemma_prefixes_increase(start, i, (j - 1) as nat);
    }
}

/// A new generator never hands out one of the six values that follow 90.
pub proof fn lemma_fresh_prefixes_skip_after_90(n: nat)
    ensures
        !(91 <= prefix_after(64, n) <= 96),
{
    lemma_fresh_prefixes(n);
}

} // verus!
