//! Correlation ids: a fixed prefix and a running number.

use crate::text::{decimal, numeral_is_injective, push_decimal, push_upper_hex, upper_hex};
use vstd::prelude::*;

verus! {

/// `rand::random` for a `u32`: any value may come back.
#[verifier::external_body]
fn random_seed() -> u32 {
    rand::random::<u32>()
}

/// Hands out the ids of one connection: `<prefix>_<sequence>`, the sequence
/// counting up from zero.
pub struct IdGenerator {
    prefix: String,
    id: u64,
}

/// The id with the given prefix and sequence number.
pub open spec fn id_text(prefix: Seq<char>, sequence: u64) -> Seq<char> {
    prefix + seq!['_'] + decimal(sequence as nat)
}

/// The prefix that a generator without a given one takes from a random seed.
pub open spec fn seeded_prefix(seed: u32) -> Seq<char> {
    "RS_REPL_"@ + upper_hex(seed as nat)
}

impl IdGenerator {
    /// The prefix of every id.
    pub closed spec fn prefix(&self) -> Seq<char> {
        self.prefix@
    }

    /// The number that the next id carries.
    pub closed spec fn spec_sequence(&self) -> u64 {
        self.id
    }

    /// A generator that starts at zero under the given prefix.
    pub fn new_with_prefix(prefix: &str) -> (r: Self)
        ensures
            r.prefix() == prefix@,
            r.sequence() == 0,
    {
        Self { prefix: String::from_str(prefix), id: 0 }
    }

    /// A generator that starts at zero under the prefix made from `seed`.
    pub fn with_seed(seed: u32) -> (r: Self)
        ensures
            r.prefix() == seeded_prefix(seed),
            r.sequence() == 0,
    {
        let mut prefix = String::from_str("RS_REPL_");
        push_upper_hex(&mut prefix, seed as u64);
        Self { prefix, id: 0 }
    }

    /// The number that the next id carries.
    #[verifier::when_used_as_spec(spec_sequence)]
    pub fn sequence(&self) -> (n: u64)
        ensures
            n == self.sequence(),
    {
        self.id
    }

    /// The next id. The sequence number goes up by one, and starts over at zero
    /// after the largest.
    pub fn next(&mut self) -> (id: String)
        ensures
            id@ == id_text(old(self).prefix(), old(self).sequence()),
            final(self).prefix() == old(self).prefix(),
            final(self).sequence() == if old(self).sequence() == u64::MAX {
                0
            } else {
                old(self).sequence() + 1
            },
    {
        let n = self.id;
        self.id = if n == u64::MAX {
            0
        } else {
            n + 1
        };
        let mut id = self.prefix.clone();
        id.append("_");
        push_decimal(&mut id, n);
        proof {
            reveal_strlit("_");
            assert("_"@ =~= seq!['_']);
        }
        id
    }
}

impl Default for IdGenerator {
    /// A generator that starts at zero under a prefix drawn at random.
    fn default() -> (r: Self)
        ensures
            exists|seed: u32| r.prefix() == seeded_prefix(seed),
            r.sequence() == 0,
    {
        Self::with_seed(random_seed())
    }
}

/// Under one prefix, two sequence numbers never give the same id.
pub proof fn ids_are_distinct(prefix: Seq<char>, a: u64, b: u64)
    requires
        a != b,
    ensures
        id_text(prefix, a) != id_text(prefix, b),
{
    let head = prefix + seq!['_'];
    let x = decimal(a as nat);
    let y = decimal(b as nat);
    if head + x == head + y {
        assert(x =~= (head + x).subrange(head.len() as int, (head + x).len() as int));
        assert(y =~= (head + y).subrange(head.len() as int, (head + y).len() as int));
        numeral_is_injective(a as nat, b as nat, 10);
    }
}

} // verus!
