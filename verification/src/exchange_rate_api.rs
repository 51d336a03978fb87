//! The client of the exchange-rate service. Each operation comes in two
//! halves: a request for the transport to perform, and a function that
//! turns the transport's reply into the result.

use vstd::prelude::*;
use vstd::string::StringExecFns;

use crate::currency_set::CurrencySet;
use crate::error::{ClientError, Failure};
use crate::snapshot::lemma_without_lacks;
use crate::transport::{Expect, Reply, Request, RequestView};

pub use crate::error::ExchangeRequestError;
pub use crate::snapshot::ExchangeRate;

verus! {

/// The address of the latest rates.
pub open spec fn latest_url() -> Seq<char> {
    "https://api.exchangeratesapi.io/latest"@
}

/// The client of the exchange-rate service.
#[derive(Debug)]
pub struct ApiClient {}

impl ApiClient {
    /// A client of the service.
    pub fn new() -> ApiClient {
        ApiClient {  }
    }

    /// The request for the latest rates against the base the service picks.
    /// The answer is taken for a snapshot, whatever its status.
    pub fn latest_request(&self) -> (request: Request)
        ensures
            request@ == (RequestView {
                url: latest_url(),
                query: Seq::<(Seq<char>, Seq<char>)>::empty(),
                expects: Expect::Snapshot,
            }),
    {
        let request = Request {
            url: String::from_str("https://api.exchangeratesapi.io/latest"),
            query: Vec::new(),
            expects: Expect::Snapshot,
        };
        assert(request@.query =~= Seq::<(Seq<char>, Seq<char>)>::empty());
        request
    }

    /// The request for the latest rates against `currency`. The answer is
    /// taken for a snapshot if its status reports success, and for a refusal
    /// otherwise.
    pub fn rates_request(&self, currency: &str) -> (request: Request)
        ensures
            request@ == (RequestView {
                url: latest_url(),
                query: seq![("base"@, currency@)],
                expects: Expect::SnapshotOrRefusal,
            }),
    {
        let mut query: Vec<(String, String)> = Vec::new();
        query.push((String::from_str("base"), currency.to_owned()));
        let request = Request {
            url: String::from_str("https://api.exchangeratesapi.io/latest"),
            query,
            expects: Expect::SnapshotOrRefusal,
        };
        assert(request@.query =~= seq![("base"@, currency@)]);
        request
    }

    /// Every currency the service knows: those listed in the reply to
    /// [`ApiClient::latest_request`], and the base.
    pub fn get_currencies(&self, reply: Reply) -> (currencies: Result<CurrencySet, ClientError>)
        ensures
            match reply@.snapshot() {
                Ok(snapshot) => currencies matches Ok(set) && {
                    &&& set.codes() == snapshot.currencies()
                    &&& set.codes().no_duplicates()
                    &&& set@.contains(snapshot.base)
                    &&& forall|code: Seq<char>|
                        snapshot.rate_map().contains_key(code) ==> set@.contains(code)
                    &&& set@ == snapshot.rate_map().dom().insert(snapshot.base)
                },
                Err(failure) => currencies matches Err(error) && error@ == failure,
            },
    {
        match reply.into_snapshot() {
            Ok(snapshot) => {
                let set = snapshot.currencies();
                proof {
                    use_type_invariant(&set);
                }
                Ok(set)
            },
            Err(error) => Err(error),
        }
    }

    /// The rates against `currency`, from the reply to
    /// [`ApiClient::rates_request`] for it. The rate of `currency` against
    /// itself says nothing and is taken out. Where the service refused the
    /// request, the refusal is the failure.
    pub fn get_currency_exchange_rates(&self, currency: &str, reply: Reply) -> (rates: Result<
        ExchangeRate,
        ClientError,
    >)
        ensures
            match reply@.snapshot_or_refusal() {
                Ok(snapshot) => rates matches Ok(exchange_rate) && {
                    &&& exchange_rate@ == snapshot.without(currency@)
                    &&& exchange_rate@.rate_map() == snapshot.rate_map().remove(currency@)
                    &&& !exchange_rate@.rate_map().contains_key(currency@)
                    &&& exchange_rate@.wf()
                },
                Err(failure) => rates matches Err(error) && error@ == failure,
            },
    {
        match reply.into_snapshot_or_refusal() {
            Ok(snapshot) => {
                let mut exchange_rate = snapshot;
                proof {
                    lemma_without_lacks(exchange_rate@, currency@);
                }
                exchange_rate.remove(currency);
                Ok(exchange_rate)
            },
            Err(error) => Err(error),
        }
    }

    /// The currency worth most according to the reply to
    /// [`ApiClient::latest_request`]: the first listed at the least rate if
    /// that rate is below one, the base otherwise.
    pub fn get_highest_value_currency(&self, reply: Reply) -> (currency: Result<
        String,
        ClientError,
    >)
        ensures
            match reply@.snapshot() {
                Ok(snapshot) => if snapshot.rates.len() > 0 {
                    currency matches Ok(code) && {
                        &&& code@ == snapshot.highest_value_currency()
                        &&& snapshot.no_rate_below_one() ==> code@ == snapshot.base
                        &&& !snapshot.no_rate_below_one() ==> snapshot.is_least_and_below_one(
                            code@,
                        )
                    }
                } else {
                    currency matches Err(error) && error@ == Failure::EmptyRates
                },
                Err(failure) => currency matches Err(error) && error@ == failure,
            },
    {
        match reply.into_snapshot() {
            Ok(snapshot) => snapshot.highest_value_currency(),
            Err(error) => Err(error),
        }
    }

    /// The currency worth least according to the reply to
    /// [`ApiClient::latest_request`]: the last listed at the greatest rate
    /// if that rate is above one, the base otherwise.
    pub fn get_lowest_value_currency(&self, reply: Reply) -> (currency: Result<
        String,
        ClientError,
    >)
        ensures
            match reply@.snapshot() {
                Ok(snapshot) => if snapshot.rates.len() > 0 {
                    currency matches Ok(code) && {
                        &&& code@ == snapshot.lowest_value_currency()
                        &&& snapshot.no_rate_above_one() ==> code@ == snapshot.base
                        &&& !snapshot.no_rate_above_one() ==> snapshot.is_greatest_and_above_one(
                            code@,
                        )
                    }
                } else {
                    currency matches Err(error) && error@ == Failure::EmptyRates
                },
                Err(failure) => currency matches Err(error) && error@ == failure,
            },
    {
        match reply.into_snapshot() {
            Ok(snapshot) => snapshot.lowest_value_currency(),
            Err(error) => Err(error),
        }
    }
}

} // verus!
