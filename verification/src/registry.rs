//! The registry of fabricated signatures.

use vstd::prelude::*;
use vstd::string::StringExecFns;

verus! {

/// The signatures fabricated so far.
///
/// The registry only grows: a signature that was inserted is found for as
/// long as the registry lives. Its order is of no account, so its view is a
/// set.
#[derive(Debug)]
pub struct SignatureRegistry {
    signatures: Vec<String>,
}

/// Whether one of `entries` reads `signature`.
pub open spec fn holds(entries: Seq<String>, signature: Seq<char>) -> bool {
    exists|i: int| 0 <= i < entries.len() && (#[trigger] entries[i])@ == signature
}

impl View for SignatureRegistry {
    type V = Set<Seq<char>>;

    closed spec fn view(&self) -> Set<Seq<char>> {
        Set::new(|signature: Seq<char>| holds(self.signatures@, signature))
    }
}

impl SignatureRegistry {
    /// A registry that holds no signature.
    pub fn new() -> (registry: SignatureRegistry)
        ensures
            registry@ == Set::<Seq<char>>::empty(),
    {
        let registry = SignatureRegistry { signatures: Vec::new() };
        assert(registry@ =~= Set::<Seq<char>>::empty());
        registry
    }

    /// Adds `signature` to the registry.
    pub fn insert(&mut self, signature: String)
        ensures
            final(self)@ == old(self)@.insert(signature@),
    {
        let ghost before = self.signatures@;
        self.signatures.push(signature);
        proof {
            let after = self.signatures@;
            assert forall|s: Seq<char>|
                holds(after, s) <==> (holds(before, s) || s == signature@) by {
                if holds(before, s) {
                    let i = choose|i: int| 0 <= i < before.len() && (#[trigger] before[i])@ == s;
                    assert(after[i]@ == s);
                }
                if s == signature@ {
                    assert(after[before.len() as int]@ == s);
                }
                if holds(after, s) {
                    let i = choose|i: int| 0 <= i < after.len() && (#[trigger] after[i])@ == s;
                    if i < before.len() {
                        assert(before[i]@ == s);
                    }
                }
            }
            assert(self@ =~= old(self)@.insert(signature@));
        }
    }

    /// Whether `signature` was inserted before.
    pub fn contains(&self, signature: &str) -> (found: bool)
        ensures
            found == self@.contains(signature@),
    {
        let wanted = String::from_str(signature);
        let mut i: usize = 0;
        while i < self.signatures.len()
            invariant
                i <= self.signatures.len(),
                wanted@ == signature@,
                forall|j: int| 0 <= j < i ==> (#[trigger] self.signatures@[j])@ != signature@,
            decreases self.signatures.len() - i,
        {
            if self.signatures[i] == wanted {
                assert(holds(self.signatures@, signature@));
                return true;
            }
            i += 1;
        }
        false
    }
}

impl Default for SignatureRegistry {
    fn default() -> (registry: SignatureRegistry)
        ensures
            registry@ == Set::<Seq<char>>::empty(),
    {
        SignatureRegistry::new()
    }
}

} // verus!
