//! What the client hands to a transport and what it takes back. The client
//! itself never touches the network: a transport performs the request,
//! decodes the body in the shape the client names, and reports what it got.

use vstd::prelude::*;
use vstd::string::StringExecFns;

use crate::error::{ClientError, ExchangeRequestError, Failure};
use crate::rate::is_nan;
use crate::snapshot::{ExchangeRate, Snapshot};

verus! {

/// The shapes a body can be decoded in.
#[derive(Clone, Copy, Debug, PartialEq, Eq)]
pub enum Shape {
    /// `{ base: string, date: string, rates: { string: number } }`
    Snapshot,
    /// `{ error: string }`
    Refusal,
    /// `{ origin: string }`
    Origin,
}

/// What a request expects for an answer.
#[derive(Clone, Copy, Debug, PartialEq, Eq)]
pub enum Expect {
    /// A snapshot, whatever the status.
    Snapshot,
    /// A snapshot if the status reports success, a refusal otherwise.
    SnapshotOrRefusal,
    /// An origin, whatever the status.
    Origin,
}

/// An HTTP GET: the address, the query parameters in order, and what is
/// expected for an answer.
#[derive(Debug)]
pub struct Request {
    pub url: String,
    pub query: Vec<(String, String)>,
    pub expects: Expect,
}

/// A [`Request`] with its texts as sequences of characters.
pub struct RequestView {
    pub url: Seq<char>,
    pub query: Seq<(Seq<char>, Seq<char>)>,
    pub expects: Expect,
}

impl View for Request {
    type V = RequestView;

    open spec fn view(&self) -> RequestView {
        RequestView {
            url: self.url@,
            query: self.query@.map_values(|pair: (String, String)| (pair.0@, pair.1@)),
            expects: self.expects,
        }
    }
}

/// Whether an HTTP status reports success.
pub open spec fn is_success(status: u16) -> bool {
    200 <= status < 300
}

/// The shape in which to decode the body of a reply with this status.
pub open spec fn shape_for(expects: Expect, status: u16) -> Shape {
    match expects {
        Expect::Snapshot => Shape::Snapshot,
        Expect::SnapshotOrRefusal => if is_success(status) {
            Shape::Snapshot
        } else {
            Shape::Refusal
        },
        Expect::Origin => Shape::Origin,
    }
}

/// Whether an HTTP status reports success.
pub fn status_is_success(status: u16) -> (success: bool)
    ensures
        success == is_success(status),
{
    200 <= status && status < 300
}

impl Request {
    /// The shape in which to decode the body of the reply to this request,
    /// once its status is known.
    pub fn shape_for(&self, status: u16) -> (shape: Shape)
        ensures
            shape == shape_for(self.expects, status),
    {
        match self.expects {
            Expect::Snapshot => Shape::Snapshot,
            Expect::SnapshotOrRefusal => {
                if status_is_success(status) {
                    Shape::Snapshot
                } else {
                    Shape::Refusal
                }
            },
            Expect::Origin => Shape::Origin,
        }
    }
}

/// The body of a reply, decoded in one of the [`Shape`]s.
#[derive(Debug)]
pub enum Body {
    /// A snapshot of rates.
    Snapshot(ExchangeRate),
    /// The `error` text with which the service refused the request.
    Refusal(String),
    /// The `origin` text of the address service.
    Origin(String),
    /// The body did not have the shape it was to be decoded in; the text
    /// says what was wrong with it.
    Malformed(String),
}

/// What came of a request.
#[derive(Debug)]
pub enum Reply {
    /// No reply arrived; the text says what went wrong.
    Unreachable(String),
    /// A reply arrived with this HTTP status and body.
    Received { status: u16, body: Body },
}

/// A [`Body`] with its contents as mathematical values.
pub enum BodyView {
    Snapshot(Snapshot),
    Refusal(Seq<char>),
    Origin(Seq<char>),
    Malformed(Seq<char>),
}

/// A [`Reply`] with its contents as mathematical values.
pub enum ReplyView {
    Unreachable(Seq<char>),
    Received { status: u16, body: BodyView },
}

impl View for Body {
    type V = BodyView;

    open spec fn view(&self) -> BodyView {
        match self {
            Body::Snapshot(snapshot) => BodyView::Snapshot(snapshot@),
            Body::Refusal(message) => BodyView::Refusal(message@),
            Body::Origin(origin) => BodyView::Origin(origin@),
            Body::Malformed(detail) => BodyView::Malformed(detail@),
        }
    }
}

impl View for Reply {
    type V = ReplyView;

    open spec fn view(&self) -> ReplyView {
        match self {
            Reply::Unreachable(detail) => ReplyView::Unreachable(detail@),
            Reply::Received { status, body } => ReplyView::Received { status: *status, body: body@ },
        }
    }
}

/// What is reported of a body that was decoded in another shape than the
/// one the client needs.
pub open spec fn unexpected_shape() -> Seq<char> {
    "The response body has an unexpected shape"@
}

/// What is reported of a snapshot in which a rate is not a number.
pub open spec fn rate_not_a_number() -> Seq<char> {
    "A rate in the response body is not a number"@
}

/// What is reported of a body that lacks the field `name`.
pub open spec fn missing_field(name: Seq<char>) -> Seq<char> {
    "The response body has no field "@ + name
}

impl BodyView {
    /// The body whose fields make up a snapshot: the snapshot that lists the
    /// entries one after the other, unless the bit pattern of a rate is a
    /// NaN.
    pub open spec fn listed(
        base: Seq<char>,
        date: Seq<char>,
        entries: Seq<(Seq<char>, u64)>,
    ) -> BodyView {
        if exists|i: int| 0 <= i < entries.len() && is_nan(#[trigger] entries[i].1) {
            BodyView::Malformed(rate_not_a_number())
        } else {
            BodyView::Snapshot(Snapshot::listing(base, date, entries))
        }
    }
}

fn missing_field_body(name: &str) -> (body: Body)
    ensures
        body@ == BodyView::Malformed(missing_field(name@)),
{
    let mut detail: String = String::from_str("The response body has no field ");
    detail.append(name);
    Body::Malformed(detail)
}

impl Body {
    /// The body of which the fields `base`, `date` and `rates` were read,
    /// each rate given by its bit pattern. A field that the body lacks is
    /// `None`, and the first that is lacking makes the body malformed; so does
    /// a rate that is a NaN.
    pub fn of_snapshot(
        base: Option<String>,
        date: Option<String>,
        rates: Option<Vec<(String, u64)>>,
    ) -> (body: Body)
        ensures
            body@ == match (base, date, rates) {
                (Some(base), Some(date), Some(rates)) => BodyView::listed(
                    base@,
                    date@,
                    rates@.map_values(|entry: (String, u64)| (entry.0@, entry.1)),
                ),
                (None, _, _) => BodyView::Malformed(missing_field("base"@)),
                (Some(_), None, _) => BodyView::Malformed(missing_field("date"@)),
                (Some(_), Some(_), None) => BodyView::Malformed(missing_field("rates"@)),
            },
    {
        let base: String = match base {
            Some(base) => base,
            None => {
                return missing_field_body("base");
            },
        };
        let date: String = match date {
            Some(date) => date,
            None => {
                return missing_field_body("date");
            },
        };
        let rates: Vec<(String, u64)> = match rates {
            Some(rates) => rates,
            None => {
                return missing_field_body("rates");
            },
        };
        let ghost raw = rates@;
        let ghost all = raw.map_values(|entry: (String, u64)| (entry.0@, entry.1));
        match ExchangeRate::from_entries(base, date, rates) {
            Some(snapshot) => Body::Snapshot(snapshot),
            None => {
                proof {
                    let i = choose|i: int| 0 <= i < raw.len() && is_nan(#[trigger] raw[i].1);
                    assert(is_nan(all[i].1));
                }
                Body::Malformed(String::from_str("A rate in the response body is not a number"))
            },
        }
    }

    /// The body of which the field `error` was read; without the field the
    /// body is malformed.
    pub fn of_refusal(error: Option<String>) -> (body: Body)
        ensures
            body@ == match error {
                Some(message) => BodyView::Refusal(message@),
                None => BodyView::Malformed(missing_field("error"@)),
            },
    {
        match error {
            Some(message) => Body::Refusal(message),
            None => missing_field_body("error"),
        }
    }

    /// The body of which the field `origin` was read; without the field the
    /// body is malformed.
    pub fn of_origin(origin: Option<String>) -> (body: Body)
        ensures
            body@ == match origin {
                Some(address) => BodyView::Origin(address@),
                None => BodyView::Malformed(missing_field("origin"@)),
            },
    {
        match origin {
            Some(address) => Body::Origin(address),
            None => missing_field_body("origin"),
        }
    }
}

impl ReplyView {
    /// What a request for a snapshot yields, whatever the status: the
    /// snapshot in the body, or the reason why there is none.
    pub open spec fn snapshot(self) -> Result<Snapshot, Failure> {
        match self {
            ReplyView::Unreachable(detail) => Err(Failure::Transport(detail)),
            ReplyView::Received { status, body } => match body {
                BodyView::Snapshot(snapshot) => Ok(snapshot),
                BodyView::Malformed(detail) => Err(Failure::Decode(detail)),
                _ => Err(Failure::Decode(unexpected_shape())),
            },
        }
    }

    /// What a request for the rates of one currency yields. On success the
    /// body must be a snapshot; on any other status it must be a refusal,
    /// which becomes the failure.
    pub open spec fn snapshot_or_refusal(self) -> Result<Snapshot, Failure> {
        match self {
            ReplyView::Unreachable(detail) => Err(Failure::Transport(detail)),
            ReplyView::Received { status, body } => match body {
                BodyView::Snapshot(snapshot) if is_success(status) => Ok(snapshot),
                BodyView::Refusal(message) if !is_success(status) => Err(
                    Failure::Api(status, message),
                ),
                BodyView::Malformed(detail) => Err(Failure::Decode(detail)),
                _ => Err(Failure::Decode(unexpected_shape())),
            },
        }
    }

    /// What a request for the caller's address yields, whatever the status.
    pub open spec fn origin(self) -> Result<Seq<char>, Failure> {
        match self {
            ReplyView::Unreachable(detail) => Err(Failure::Transport(detail)),
            ReplyView::Received { status, body } => match body {
                BodyView::Origin(origin) => Ok(origin),
                BodyView::Malformed(detail) => Err(Failure::Decode(detail)),
                _ => Err(Failure::Decode(unexpected_shape())),
            },
        }
    }
}

fn unexpected_shape_error() -> (error: ClientError)
    ensures
        error@ == Failure::Decode(unexpected_shape()),
{
    ClientError::Decode(String::from_str("The response body has an unexpected shape"))
}

impl Reply {
    /// The snapshot in the reply to a request for one, whatever the status.
    pub fn into_snapshot(self) -> (outcome: Result<ExchangeRate, ClientError>)
        ensures
            match outcome {
                Ok(snapshot) => self@.snapshot() == Ok::<Snapshot, Failure>(snapshot@)
                    && snapshot@.wf(),
                Err(error) => self@.snapshot() == Err::<Snapshot, Failure>(error@),
            },
    {
        match self {
            Reply::Unreachable(detail) => Err(ClientError::Transport(detail)),
            Reply::Received { status, body } => match body {
                Body::Snapshot(snapshot) => {
                    proof {
                        use_type_invariant(&snapshot);
                    }
                    Ok(snapshot)
                },
                Body::Malformed(detail) => Err(ClientError::Decode(detail)),
                _ => Err(unexpected_shape_error()),
            },
        }
    }

    /// The snapshot in the reply to a request for the rates of one currency,
    /// or the refusal of the service.
    pub fn into_snapshot_or_refusal(self) -> (outcome: Result<ExchangeRate, ClientError>)
        ensures
            match outcome {
                Ok(snapshot) => self@.snapshot_or_refusal() == Ok::<Snapshot, Failure>(snapshot@)
                    && snapshot@.wf(),
                Err(error) => self@.snapshot_or_refusal() == Err::<Snapshot, Failure>(error@),
            },
    {
        match self {
            Reply::Unreachable(detail) => Err(ClientError::Transport(detail)),
            Reply::Received { status, body } => {
                let success = status_is_success(status);
                match body {
                    Body::Snapshot(snapshot) => {
                        if success {
                            proof {
                                use_type_invariant(&snapshot);
                            }
                            Ok(snapshot)
                        } else {
                            Err(unexpected_shape_error())
                        }
                    },
                    Body::Refusal(message) => {
                        if success {
                            Err(unexpected_shape_error())
                        } else {
                            Err(ClientError::Api(ExchangeRequestError::new(status, message)))
                        }
                    },
                    Body::Malformed(detail) => Err(ClientError::Decode(detail)),
                    Body::Origin(_) => Err(unexpected_shape_error()),
                }
            },
        }
    }

    /// The address in the reply to a request for it, whatever the status.
    pub fn into_origin(self) -> (outcome: Result<String, ClientError>)
        ensures
            match outcome {
                Ok(origin) => self@.origin() == Ok::<Seq<char>, Failure>(origin@),
                Err(error) => self@.origin() == Err::<Seq<char>, Failure>(error@),
            },
    {
        match self {
            Reply::Unreachable(detail) => Err(ClientError::Transport(detail)),
            Reply::Received { status, body } => match body {
                Body::Origin(origin) => Ok(origin),
                Body::Malformed(detail) => Err(ClientError::Decode(detail)),
                _ => Err(unexpected_shape_error()),
            },
        }
    }
}

} // verus!
