//! Snapshots of exchange rates and what can be read off them.

use vstd::prelude::*;

use crate::currency_set::CurrencySet;
use crate::error::{ClientError, Failure};
use crate::rate::{is_nan, rank, Rate, ONE_BITS};

verus! {

/// The rates of one day against a base currency, as the rate service
/// reports them. Every currency is listed at most once, and the rates keep
/// the order in which they were inserted.
#[derive(Debug)]
pub struct ExchangeRate {
    base: String,
    date: String,
    rates: Vec<(String, Rate)>,
}

/// What an [`ExchangeRate`] holds: the base currency, the day, and the listed
/// currencies in order, each with the bit pattern of its rate.
pub struct Snapshot {
    pub base: Seq<char>,
    pub date: Seq<char>,
    pub rates: Seq<(Seq<char>, u64)>,
}

impl Snapshot {
    /// No currency is listed twice, and every rate is a number.
    pub open spec fn wf(self) -> bool {
        &&& forall|i: int, j: int|
            0 <= i < j < self.rates.len() ==> self.rates[i].0 != self.rates[j].0
        &&& forall|i: int| 0 <= i < self.rates.len() ==> !is_nan(self.rates[i].1)
    }

    /// The listed currencies, in order.
    pub open spec fn codes(self) -> Seq<Seq<char>> {
        self.rates.map_values(|entry: (Seq<char>, u64)| entry.0)
    }

    /// Whether `code` is listed.
    pub open spec fn has(self, code: Seq<char>) -> bool {
        exists|i: int| 0 <= i < self.rates.len() && self.rates[i].0 == code
    }

    /// Where `code` is listed, if it is.
    pub open spec fn position(self, code: Seq<char>) -> int {
        choose|i: int| 0 <= i < self.rates.len() && self.rates[i].0 == code
    }

    /// The rates as a map from currency to bit pattern.
    pub open spec fn rate_map(self) -> Map<Seq<char>, u64> {
        Map::new(
            |code: Seq<char>| self.has(code),
            |code: Seq<char>| self.rates[self.position(code)].1,
        )
    }

    /// The snapshot with `code` listed at `bits`: in its old place if it was
    /// listed before, at the end otherwise.
    pub open spec fn with(self, code: Seq<char>, bits: u64) -> Snapshot {
        Snapshot {
            rates: if self.has(code) {
                self.rates.update(self.position(code), (code, bits))
            } else {
                self.rates.push((code, bits))
            },
            ..self
        }
    }

    /// The snapshot for `base` on `date` in which `entries` were listed one
    /// after the other, a later entry replacing the rate of an earlier one
    /// for the same currency.
    pub open spec fn listing(
        base: Seq<char>,
        date: Seq<char>,
        entries: Seq<(Seq<char>, u64)>,
    ) -> Snapshot
        decreases entries.len(),
    {
        if entries.len() == 0 {
            Snapshot { base, date, rates: Seq::<(Seq<char>, u64)>::empty() }
        } else {
            Self::listing(base, date, entries.drop_last()).with(
                entries.last().0,
                entries.last().1,
            )
        }
    }

    /// The snapshot without the entry of `code`.
    pub open spec fn without(self, code: Seq<char>) -> Snapshot {
        Snapshot {
            rates: if self.has(code) {
                self.rates.remove(self.position(code))
            } else {
                self.rates
            },
            ..self
        }
    }

    /// Every currency the snapshot speaks of: the listed ones in order, then
    /// the base unless it is listed itself.
    pub open spec fn currencies(self) -> Seq<Seq<char>> {
        if self.has(self.base) {
            self.codes()
        } else {
            self.codes().push(self.base)
        }
    }

    /// Entry `i` holds the least rate, and no entry before it holds the same.
    pub open spec fn is_first_minimum(self, i: int) -> bool {
        &&& 0 <= i < self.rates.len()
        &&& forall|j: int|
            0 <= j < self.rates.len() ==> rank(self.rates[i].1) <= rank(#[trigger] self.rates[j].1)
        &&& forall|j: int| 0 <= j < i ==> rank(self.rates[i].1) < rank(#[trigger] self.rates[j].1)
    }

    /// Entry `i` holds the greatest rate, and no entry after it holds the same.
    pub open spec fn is_last_maximum(self, i: int) -> bool {
        &&& 0 <= i < self.rates.len()
        &&& forall|j: int|
            0 <= j < self.rates.len() ==> rank(#[trigger] self.rates[j].1) <= rank(self.rates[i].1)
        &&& forall|j: int|
            i < j < self.rates.len() ==> rank(#[trigger] self.rates[j].1) < rank(self.rates[i].1)
    }

    /// The first of the entries that hold the least rate.
    pub open spec fn first_minimum(self) -> int {
        choose|i: int| self.is_first_minimum(i)
    }

    /// The last of the entries that hold the greatest rate.
    pub open spec fn last_maximum(self) -> int {
        choose|i: int| self.is_last_maximum(i)
    }

    /// No rate is below one.
    pub open spec fn no_rate_below_one(self) -> bool {
        forall|i: int| 0 <= i < self.rates.len() ==> rank(#[trigger] self.rates[i].1) >= rank(ONE_BITS)
    }

    /// No rate is above one.
    pub open spec fn no_rate_above_one(self) -> bool {
        forall|i: int| 0 <= i < self.rates.len() ==> rank(#[trigger] self.rates[i].1) <= rank(ONE_BITS)
    }

    /// `code` is listed at the least of all rates, and that rate is below
    /// one.
    pub open spec fn is_least_and_below_one(self, code: Seq<char>) -> bool {
        exists|i: int|
            {
                &&& 0 <= i < self.rates.len()
                &&& (#[trigger] self.rates[i]).0 == code
                &&& rank(self.rates[i].1) < rank(ONE_BITS)
                &&& forall|j: int|
                    0 <= j < self.rates.len() ==> rank(self.rates[i].1) <= rank(
                        #[trigger] self.rates[j].1,
                    )
            }
    }

    /// `code` is listed at the greatest of all rates, and that rate is above
    /// one.
    pub open spec fn is_greatest_and_above_one(self, code: Seq<char>) -> bool {
        exists|i: int|
            {
                &&& 0 <= i < self.rates.len()
                &&& (#[trigger] self.rates[i]).0 == code
                &&& rank(self.rates[i].1) > rank(ONE_BITS)
                &&& forall|j: int|
                    0 <= j < self.rates.len() ==> rank(#[trigger] self.rates[j].1) <= rank(
                        self.rates[i].1,
                    )
            }
    }

    /// The currency worth most. A rate counts units of a currency per unit
    /// of the base, so the least rate marks the most valuable currency; if
    /// even that rate is not below one, the base itself is worth most.
    pub open spec fn highest_value_currency(self) -> Seq<char> {
        let least = self.rates[self.first_minimum()];
        if rank(least.1) < rank(ONE_BITS) {
            least.0
        } else {
            self.base
        }
    }

    /// The currency worth least: that of the greatest rate, or the base if
    /// even that rate is not above one.
    pub open spec fn lowest_value_currency(self) -> Seq<char> {
        let greatest = self.rates[self.last_maximum()];
        if rank(greatest.1) > rank(ONE_BITS) {
            greatest.0
        } else {
            self.base
        }
    }
}

/// Among the first `n` entries, one holds the least rate and comes before
/// every other entry that holds it.
proof fn lemma_first_minimum_of_prefix(s: Snapshot, n: int) -> (i: int)
    requires
        0 < n <= s.rates.len(),
    ensures
        0 <= i < n,
        forall|j: int| 0 <= j < n ==> rank(s.rates[i].1) <= rank(#[trigger] s.rates[j].1),
        forall|j: int| 0 <= j < i ==> rank(s.rates[i].1) < rank(#[trigger] s.rates[j].1),
    decreases n,
{
    if n == 1 {
        0
    } else {
        let before = lemma_first_minimum_of_prefix(s, n - 1);
        if rank(s.rates[n - 1].1) < rank(s.rates[before].1) {
            n - 1
        } else {
            before
        }
    }
}

/// Among the first `n` entries, one holds the greatest rate and comes after
/// every other entry that holds it.
proof fn lemma_last_maximum_of_prefix(s: Snapshot, n: int) -> (i: int)
    requires
        0 < n <= s.rates.len(),
    ensures
        0 <= i < n,
        forall|j: int| 0 <= j < n ==> rank(#[trigger] s.rates[j].1) <= rank(s.rates[i].1),
        forall|j: int| i < j < n ==> rank(#[trigger] s.rates[j].1) < rank(s.rates[i].1),
    decreases n,
{
    if n == 1 {
        0
    } else {
        let before = lemma_last_maximum_of_prefix(s, n - 1);
        if rank(s.rates[n - 1].1) >= rank(s.rates[before].1) {
            n - 1
        } else {
            before
        }
    }
}

/// A snapshot that lists any rate has exactly one first minimum.
pub proof fn lemma_first_minimum(s: Snapshot)
    requires
        s.rates.len() > 0,
    ensures
        s.is_first_minimum(s.first_minimum()),
        forall|i: int| s.is_first_minimum(i) ==> i == s.first_minimum(),
{
    let witness = lemma_first_minimum_of_prefix(s, s.rates.len() as int);
    assert(s.is_first_minimum(witness));
}

/// A snapshot that lists any rate has exactly one last maximum.
pub proof fn lemma_last_maximum(s: Snapshot)
    requires
        s.rates.len() > 0,
    ensures
        s.is_last_maximum(s.last_maximum()),
        forall|i: int| s.is_last_maximum(i) ==> i == s.last_maximum(),
{
    let witness = lemma_last_maximum_of_prefix(s, s.rates.len() as int);
    assert(s.is_last_maximum(witness));
}

/// Where no rate is below one, the currency worth most is the base.
/// Otherwise it is a currency listed at the least of all rates, and that
/// rate is below one.
pub proof fn lemma_highest_value_currency(s: Snapshot)
    requires
        s.rates.len() > 0,
    ensures
        s.no_rate_below_one() ==> s.highest_value_currency() == s.base,
        !s.no_rate_below_one() ==> s.is_least_and_below_one(s.highest_value_currency()),
{
    lemma_first_minimum(s);
}

/// Where no rate is above one, the currency worth least is the base.
/// Otherwise it is a currency listed at the greatest of all rates, and that
/// rate is above one.
pub proof fn lemma_lowest_value_currency(s: Snapshot)
    requires
        s.rates.len() > 0,
    ensures
        s.no_rate_above_one() ==> s.lowest_value_currency() == s.base,
        !s.no_rate_above_one() ==> s.is_greatest_and_above_one(s.lowest_value_currency()),
{
    lemma_last_maximum(s);
}

/// The currency worth most is the base exactly when no rate is below one.
/// Otherwise it is a currency listed at the least of all rates, and that
/// rate is below one.
///
/// This holds of every snapshot that lists a rate, with one exception: where
/// the least rate is below one and stands under the code of the base itself,
/// the answer is that code although a rate is below one.
pub proof fn law_highest_value_currency(s: Snapshot)
    requires
        s.rates.len() > 0,
        !(s.rates[s.first_minimum()].0 == s.base && rank(s.rates[s.first_minimum()].1) < rank(
            ONE_BITS,
        )),
    ensures
        s.highest_value_currency() == s.base <==> s.no_rate_below_one(),
        s.highest_value_currency() != s.base ==> s.is_least_and_below_one(
            s.highest_value_currency(),
        ),
{
    lemma_first_minimum(s);
}

/// The currency worth least is the base exactly when no rate is above one.
/// Otherwise it is a currency listed at the greatest of all rates, and that
/// rate is above one.
///
/// This holds of every snapshot that lists a rate, with one exception: where
/// the greatest rate is above one and stands under the code of the base
/// itself, the answer is that code although a rate is above one.
pub proof fn law_lowest_value_currency(s: Snapshot)
    requires
        s.rates.len() > 0,
        !(s.rates[s.last_maximum()].0 == s.base && rank(s.rates[s.last_maximum()].1) > rank(
            ONE_BITS,
        )),
    ensures
        s.lowest_value_currency() == s.base <==> s.no_rate_above_one(),
        s.lowest_value_currency() != s.base ==> s.is_greatest_and_above_one(
            s.lowest_value_currency(),
        ),
{
    lemma_last_maximum(s);
}

/// The currencies of a snapshot are its base and every listed currency,
/// each once, and nothing else.
pub proof fn law_currencies(s: Snapshot)
    requires
        s.wf(),
    ensures
        s.currencies().no_duplicates(),
        s.currencies().contains(s.base),
        forall|code: Seq<char>| s.rate_map().contains_key(code) ==> s.currencies().contains(code),
        s.currencies().to_set() == s.rate_map().dom().insert(s.base),
{
    lemma_codes(s);
    let all = s.currencies();
    if !s.has(s.base) {
        assert(all[s.codes().len() as int] == s.base);
        assert forall|code: Seq<char>| s.codes().contains(code) implies all.contains(code) by {
            let i = choose|i: int| 0 <= i < s.codes().len() && s.codes()[i] == code;
            assert(all[i] == code);
        }
    }
}

impl View for ExchangeRate {
    type V = Snapshot;

    closed spec fn view(&self) -> Snapshot {
        Snapshot {
            base: self.base@,
            date: self.date@,
            rates: self.rates@.map_values(|entry: (String, Rate)| (entry.0@, entry.1@)),
        }
    }
}

impl ExchangeRate {
    /// Every snapshot is well formed.
    #[verifier::type_invariant]
    pub open spec fn well_formed(&self) -> bool {
        self@.wf()
    }

    /// A snapshot for `base` on `date` that lists no rate yet.
    pub fn new(base: String, date: String) -> (snapshot: ExchangeRate)
        ensures
            snapshot@ == (Snapshot {
                base: base@,
                date: date@,
                rates: Seq::<(Seq<char>, u64)>::empty(),
            }),
    {
        let snapshot = ExchangeRate { base, date, rates: Vec::new() };
        assert(snapshot@.rates =~= Seq::<(Seq<char>, u64)>::empty());
        snapshot
    }

    /// The snapshot for `base` on `date` that lists `entries`, each a
    /// currency and the bit pattern of its rate, one after the other. There
    /// is none if a pattern is a NaN.
    pub fn from_entries(base: String, date: String, entries: Vec<(String, u64)>) -> (snapshot:
        Option<ExchangeRate>)
        ensures
            match snapshot {
                Some(listed) => {
                    &&& forall|i: int| 0 <= i < entries.len() ==> !is_nan(#[trigger] entries[i].1)
                    &&& listed@ == Snapshot::listing(
                        base@,
                        date@,
                        entries@.map_values(|entry: (String, u64)| (entry.0@, entry.1)),
                    )
                    &&& listed@.wf()
                },
                None => exists|i: int| 0 <= i < entries.len() && is_nan(#[trigger] entries[i].1),
            },
    {
        let ghost all = entries@.map_values(|entry: (String, u64)| (entry.0@, entry.1));
        let mut listed = ExchangeRate::new(base, date);
        let mut i: usize = 0;
        while i < entries.len()
            invariant
                i <= entries.len(),
                all == entries@.map_values(|entry: (String, u64)| (entry.0@, entry.1)),
                forall|k: int| 0 <= k < i ==> !is_nan(#[trigger] entries[k].1),
                listed@ == Snapshot::listing(base@, date@, all.take(i as int)),
                listed@.wf(),
            decreases entries.len() - i,
        {
            match Rate::from_bits(entries[i].1) {
                Some(rate) => {
                    assert(all.take(i + 1).drop_last() =~= all.take(i as int));
                    listed.insert(entries[i].0.clone(), rate);
                },
                None => {
                    return None;
                },
            }
            i += 1;
        }
        assert(all.take(i as int) =~= all);
        Some(listed)
    }

    /// The base currency.
    pub fn base(&self) -> (base: &String)
        ensures
            base@ == self@.base,
    {
        &self.base
    }

    /// The day of the rates.
    pub fn date(&self) -> (date: &String)
        ensures
            date@ == self@.date,
    {
        &self.date
    }

    /// The listed currencies with their rates, in order.
    pub fn rates(&self) -> (rates: &Vec<(String, Rate)>)
        ensures
            rates@.map_values(|entry: (String, Rate)| (entry.0@, entry.1@)) == self@.rates,
            self@.wf(),
    {
        proof {
            use_type_invariant(self);
        }
        &self.rates
    }

    /// Where `code` is listed, if it is.
    fn find(&self, code: &String) -> (found: Option<usize>)
        ensures
            self@.wf(),
            match found {
                Some(i) => i < self@.rates.len() && self@.rates[i as int].0 == code@
                    && self@.position(code@) == i,
                None => !self@.has(code@),
            },
    {
        proof {
            use_type_invariant(self);
        }
        let mut i: usize = 0;
        while i < self.rates.len()
            invariant
                i <= self.rates.len(),
                self@.wf(),
                self@.rates.len() == self.rates.len(),
                forall|k: int| 0 <= k < i ==> self@.rates[k].0 != code@,
            decreases self.rates.len() - i,
        {
            if self.rates[i].0 == *code {
                assert(self@.rates[i as int].0 == code@);
                return Some(i);
            }
            i += 1;
        }
        None
    }

    /// The rate at which `code` is listed, if it is.
    pub fn rate_of(&self, code: &str) -> (rate: Option<Rate>)
        ensures
            match rate {
                Some(r) => self@.rate_map().contains_key(code@) && self@.rate_map()[code@] == r@,
                None => !self@.rate_map().contains_key(code@),
            },
    {
        let wanted: String = code.to_owned();
        match self.find(&wanted) {
            Some(i) => Some(self.rates[i].1),
            None => None,
        }
    }

    /// Lists `code` at `rate` and returns the rate at which it was listed
    /// before, if it was. A currency that was listed keeps its place; a new
    /// one goes to the end.
    pub fn insert(&mut self, code: String, rate: Rate) -> (previous: Option<Rate>)
        ensures
            final(self)@ == old(self)@.with(code@, rate@),
            final(self)@.wf(),
            match previous {
                Some(r) => old(self)@.has(code@) && r@ == old(self)@.rate_map()[code@],
                None => !old(self)@.has(code@),
            },
    {
        proof {
            use_type_invariant(&rate);
        }
        let found = self.find(&code);
        let ghost before = self@;
        let mut rates: Vec<(String, Rate)> = Vec::new();
        std::mem::swap(&mut self.rates, &mut rates);
        let previous = match found {
            Some(i) => {
                let old_rate: Rate = rates[i].1;
                rates.set(i, (code, rate));
                Some(old_rate)
            },
            None => {
                rates.push((code, rate));
                None
            },
        };
        proof {
            let after = rates@.map_values(|entry: (String, Rate)| (entry.0@, entry.1@));
            assert(after =~= before.with(code@, rate@).rates);
        }
        self.rates = rates;
        previous
    }

    /// Removes the entry of `code` and returns its rate, if it was listed.
    pub fn remove(&mut self, code: &str) -> (removed: Option<Rate>)
        ensures
            final(self)@ == old(self)@.without(code@),
            final(self)@.wf(),
            !final(self)@.has(code@),
            match removed {
                Some(r) => old(self)@.has(code@) && r@ == old(self)@.rate_map()[code@],
                None => !old(self)@.has(code@),
            },
    {
        let wanted: String = code.to_owned();
        let found = self.find(&wanted);
        let ghost before = self@;
        match found {
            Some(i) => {
                let mut rates: Vec<(String, Rate)> = Vec::new();
                std::mem::swap(&mut self.rates, &mut rates);
                let entry = rates.remove(i);
                proof {
                    let after = rates@.map_values(|entry: (String, Rate)| (entry.0@, entry.1@));
                    assert(after =~= before.rates.remove(i as int));
                    lemma_without_lacks(before, code@);
                }
                self.rates = rates;
                Some(entry.1)
            },
            None => None,
        }
    }

    /// Every currency the snapshot speaks of: the listed ones and the base.
    pub fn currencies(&self) -> (set: CurrencySet)
        ensures
            set.codes() == self@.currencies(),
            set@ == self@.rate_map().dom().insert(self@.base),
    {
        proof {
            use_type_invariant(self);
        }
        let mut set = CurrencySet::new();
        let mut i: usize = 0;
        while i < self.rates.len()
            invariant
                i <= self.rates.len(),
                self@.wf(),
                self@.rates.len() == self.rates.len(),
                set.codes() == self@.codes().take(i as int),
            decreases self.rates.len() - i,
        {
            assert forall|k: int| 0 <= k < i implies self@.codes().take(i as int)[k]
                != self@.rates[i as int].0 by {}
            set.insert(self.rates[i].0.clone());
            i += 1;
        }
        assert(self@.codes().take(i as int) =~= self@.codes());
        proof {
            lemma_codes(self@);
        }
        set.insert(self.base.clone());
        set
    }

    /// The currency worth most: that of the first among the least rates if
    /// that rate is below one, the base otherwise.
    pub fn highest_value_currency(&self) -> (currency: Result<String, ClientError>)
        ensures
            match currency {
                Ok(code) => {
                    &&& self@.rates.len() > 0
                    &&& code@ == self@.highest_value_currency()
                    &&& self@.no_rate_below_one() ==> code@ == self@.base
                    &&& !self@.no_rate_below_one() ==> self@.is_least_and_below_one(code@)
                },
                Err(error) => self@.rates.len() == 0 && error@ == Failure::EmptyRates,
            },
    {
        if self.rates.len() == 0 {
            return Err(ClientError::EmptyRates);
        }
        let mut best: usize = 0;
        let mut i: usize = 1;
        while i < self.rates.len()
            invariant
                0 <= best < i <= self.rates.len(),
                self@.rates.len() == self.rates.len(),
                forall|j: int|
                    0 <= j < i ==> rank(self@.rates[best as int].1) <= rank(
                        #[trigger] self@.rates[j].1,
                    ),
                forall|j: int|
                    0 <= j < best ==> rank(self@.rates[best as int].1) < rank(
                        #[trigger] self@.rates[j].1,
                    ),
            decreases self.rates.len() - i,
        {
            if self.rates[i].1.is_less_than(&self.rates[best].1) {
                best = i;
            }
            i += 1;
        }
        proof {
            lemma_first_minimum(self@);
            lemma_highest_value_currency(self@);
        }
        if self.rates[best].1.is_below_one() {
            Ok(self.rates[best].0.clone())
        } else {
            Ok(self.base.clone())
        }
    }

    /// The currency worth least: that of the last among the greatest rates
    /// if that rate is above one, the base otherwise.
    pub fn lowest_value_currency(&self) -> (currency: Result<String, ClientError>)
        ensures
            match currency {
                Ok(code) => {
                    &&& self@.rates.len() > 0
                    &&& code@ == self@.lowest_value_currency()
                    &&& self@.no_rate_above_one() ==> code@ == self@.base
                    &&& !self@.no_rate_above_one() ==> self@.is_greatest_and_above_one(code@)
                },
                Err(error) => self@.rates.len() == 0 && error@ == Failure::EmptyRates,
            },
    {
        if self.rates.len() == 0 {
            return Err(ClientError::EmptyRates);
        }
        let mut best: usize = 0;
        let mut i: usize = 1;
        while i < self.rates.len()
            invariant
                0 <= best < i <= self.rates.len(),
                self@.rates.len() == self.rates.len(),
                forall|j: int|
                    0 <= j < i ==> rank(#[trigger] self@.rates[j].1) <= rank(
                        self@.rates[best as int].1,
                    ),
                forall|j: int|
                    best < j < i ==> rank(#[trigger] self@.rates[j].1) < rank(
                        self@.rates[best as int].1,
                    ),
            decreases self.rates.len() - i,
        {
            if !self.rates[i].1.is_less_than(&self.rates[best].1) {
                best = i;
            }
            i += 1;
        }
        proof {
            lemma_last_maximum(self@);
            lemma_lowest_value_currency(self@);
        }
        if self.rates[best].1.is_above_one() {
            Ok(self.rates[best].0.clone())
        } else {
            Ok(self.base.clone())
        }
    }
}

/// The listed currencies are the keys of the rate map, each once.
pub proof fn lemma_codes(s: Snapshot)
    requires
        s.wf(),
    ensures
        s.codes().no_duplicates(),
        s.codes().to_set() == s.rate_map().dom(),
        forall|code: Seq<char>| s.has(code) <==> s.codes().contains(code),
{
    assert forall|code: Seq<char>| s.has(code) <==> s.codes().contains(code) by {
        if s.has(code) {
            let i = s.position(code);
            assert(s.codes()[i] == code);
        }
    }
}

/// Once the entry of a currency is taken out, the currency is listed no
/// more, and everything else stays as it was.
pub proof fn lemma_without_lacks(s: Snapshot, code: Seq<char>)
    requires
        s.wf(),
    ensures
        s.without(code).wf(),
        !s.without(code).has(code),
        s.without(code).rate_map() == s.rate_map().remove(code),
{
    let t = s.without(code);
    if s.has(code) {
        let p = s.position(code);
        assert forall|other: Seq<char>| other != code implies (t.has(other) <==> s.has(other)) by {
            if s.has(other) {
                let k = s.position(other);
                let i = if k < p {
                    k
                } else {
                    k - 1
                };
                assert(t.rates[i].0 == other);
            }
        }
    }
}

} // verus!
