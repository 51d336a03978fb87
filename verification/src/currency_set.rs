//! The set of currency codes a snapshot speaks of.

use vstd::prelude::*;

use crate::text::uppercase;

verus! {

/// A set of currency codes. The codes are kept in the order in which they
/// were first inserted, and none occurs twice.
#[derive(Debug)]
pub struct CurrencySet {
    codes: Vec<String>,
}

impl View for CurrencySet {
    type V = Set<Seq<char>>;

    open spec fn view(&self) -> Set<Seq<char>> {
        self.codes().to_set()
    }
}

impl CurrencySet {
    /// The codes of the set, in the order of their first insertion.
    pub closed spec fn codes(&self) -> Seq<Seq<char>> {
        self.codes@.map_values(|code: String| code@)
    }

    /// No code occurs twice.
    #[verifier::type_invariant]
    pub open spec fn distinct(&self) -> bool {
        self.codes().no_duplicates()
    }

    /// The empty set.
    pub fn new() -> (set: CurrencySet)
        ensures
            set.codes() == Seq::<Seq<char>>::empty(),
    {
        CurrencySet { codes: Vec::new() }
    }

    /// The number of codes in the set.
    pub fn len(&self) -> (count: usize)
        ensures
            count == self.codes().len(),
            self.codes().no_duplicates(),
    {
        proof {
            use_type_invariant(self);
        }
        self.codes.len()
    }

    /// Whether `code` is in the set.
    pub fn contains(&self, code: &str) -> (found: bool)
        ensures
            found == self@.contains(code@),
    {
        let wanted: String = code.to_owned();
        let mut i: usize = 0;
        while i < self.codes.len()
            invariant
                i <= self.codes.len(),
                wanted@ == code@,
                forall|k: int| 0 <= k < i ==> self.codes()[k] != code@,
            decreases self.codes.len() - i,
        {
            if self.codes[i] == wanted {
                assert(self.codes()[i as int] == code@);
                return true;
            }
            i += 1;
        }
        false
    }

    /// Adds `code` unless it is already in the set, and says whether it was
    /// added.
    pub fn insert(&mut self, code: String) -> (added: bool)
        ensures
            added == !old(self)@.contains(code@),
            final(self).codes() == if added {
                old(self).codes().push(code@)
            } else {
                old(self).codes()
            },
            final(self)@ == old(self)@.insert(code@),
    {
        proof {
            use_type_invariant(&*self);
        }
        if self.contains(code.as_str()) {
            false
        } else {
            let ghost before = self.codes();
            let mut codes: Vec<String> = Vec::new();
            std::mem::swap(&mut self.codes, &mut codes);
            codes.push(code);
            proof {
                let after = codes@.map_values(|code: String| code@);
                assert(after =~= before.push(code@));
            }
            self.codes = codes;
            assert forall|other: Seq<char>| self@.contains(other) == before.to_set().insert(
                code@,
            ).contains(other) by {
                if before.contains(other) {
                    let k = choose|k: int| 0 <= k < before.len() && before[k] == other;
                    assert(self.codes()[k] == other);
                }
                if other == code@ {
                    assert(self.codes()[before.len() as int] == other);
                }
            }
            true
        }
    }

    /// The code that an entered text stands for: the text in capitals, if
    /// that is in the set.
    pub fn select(&self, input: &str) -> (chosen: Option<String>)
        ensures
            match chosen {
                Some(code) => code@ == uppercase(input@) && self@.contains(code@),
                None => !self@.contains(uppercase(input@)),
            },
    {
        let code: String = input.to_uppercase();
        if self.contains(code.as_str()) {
            Some(code)
        } else {
            None
        }
    }

    /// The codes of the set, in the order of their first insertion.
    pub fn to_vec(&self) -> (codes: Vec<String>)
        ensures
            codes@.map_values(|code: String| code@) == self.codes(),
            self.codes().no_duplicates(),
    {
        proof {
            use_type_invariant(self);
        }
        let mut codes: Vec<String> = Vec::new();
        let mut i: usize = 0;
        while i < self.codes.len()
            invariant
                i <= self.codes.len(),
                codes@.map_values(|code: String| code@) == self.codes().take(i as int),
            decreases self.codes.len() - i,
        {
            codes.push(self.codes[i].clone());
            assert(self.codes().take(i + 1) =~= self.codes().take(i as int).push(
                self.codes()[i as int],
            ));
            i += 1;
        }
        codes
    }
}

} // verus!
