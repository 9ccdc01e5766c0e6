//! Search expressions and the contract that every metadata backend meets.

use vstd::prelude::*;

pub mod musicbrainz;
pub mod text;

verus! {

/// A boolean search expression, independent of any backend.
///
/// An expression is a tree: each combinator owns its two operands, and the
/// tree is compiled exactly as it was built.
pub enum QueryExpr<'a> {
    Title(&'a str),
    Artist(&'a str),
    /// Every one of these names must match.
    Artists(Vec<&'a str>),
    Album(&'a str),
    Year(u16),
    TrackNumber(u16),
    TotalTracks(u16),
    Length(u32),
    /// A key and the value it is matched against.
    Custom(&'a str, &'a str),
    AND(Box<QueryExpr<'a>>, Box<QueryExpr<'a>>),
    OR(Box<QueryExpr<'a>>, Box<QueryExpr<'a>>),
}

impl<'a> QueryExpr<'a> {
    /// Whether the expression is a single predicate on one field.
    pub open spec fn is_atomic(self) -> bool {
        !(self is Artists) && !(self is AND) && !(self is OR)
    }

    /// The text that a predicate matches its field against: a name as given,
    /// a number as its decimal numeral.
    pub open spec fn value_text(self) -> Seq<char>
        recommends
            self.is_atomic(),
    {
        match self {
            QueryExpr::Title(t) => t@,
            QueryExpr::Artist(a) => a@,
            QueryExpr::Album(a) => a@,
            QueryExpr::Year(y) => text::decimal(y as nat),
            QueryExpr::TrackNumber(n) => text::decimal(n as nat),
            QueryExpr::TotalTracks(t) => text::decimal(t as nat),
            QueryExpr::Length(l) => text::decimal(l as nat),
            QueryExpr::Custom(_, v) => v@,
            _ => Seq::empty(),
        }
    }

    /// The expression that holds where both `self` and `other` hold.
    pub fn and(self, other: QueryExpr<'a>) -> (e: QueryExpr<'a>)
        ensures
            e == QueryExpr::AND(Box::new(self), Box::new(other)),
    {
        QueryExpr::AND(Box::new(self), Box::new(other))
    }

    /// The expression that holds where `self` or `other` holds.
    pub fn or(self, other: QueryExpr<'a>) -> (e: QueryExpr<'a>)
        ensures
            e == QueryExpr::OR(Box::new(self), Box::new(other)),
    {
        QueryExpr::OR(Box::new(self), Box::new(other))
    }
}

/// The one request that a lookup sends: a GET of `url` with the single query
/// parameter `key`, whose value is `value`.
#[derive(Debug)]
pub struct Request {
    pub url: String,
    pub key: String,
    pub value: String,
}

/// What came back for a request. `F` is the transport's own failure.
#[derive(Debug)]
pub enum Reply<F> {
    /// Nothing usable came back: the request was not sent, or its answer
    /// could not be read to the end.
    Failed(F),
    /// The backend answered with this status and this body.
    Answered { status: u16, body: Vec<u8> },
}

/// Whether an HTTP status reports success: the codes from 200 to 299.
pub open spec fn is_success(status: u16) -> bool {
    200 <= status <= 299
}

impl<F> Reply<F> {
    /// Whether the backend answered, and with success.
    pub open spec fn is_usable(self) -> bool {
        self matches Reply::Answered { status, .. } && is_success(status)
    }
}

/// A backend that compiles search expressions into its own syntax and turns
/// what comes back into typed records.
///
/// A lookup is one round trip. The backend says what to send (`request`),
/// the caller sends it and hands the reply to `receive`; where that gives a
/// body the caller decodes it and hands the outcome to `decoded`. A lookup
/// can fail at the transport or at the decoder, and both failures come out
/// as the backend's one error type.
pub trait MetadataProvider {
    /// The typed records of one answer.
    type Response;

    /// The single failure channel of the backend.
    type Error;

    /// The failure that the transport reports.
    type Failure;

    /// The failure that the decoder reports.
    type Malformed;

    /// The search string that the backend's compiler gives for `q`.
    spec fn query_text(q: QueryExpr) -> Seq<char>;

    /// Whether `e` arose at the transport.
    spec fn is_transport_error(e: Self::Error) -> bool;

    /// Whether `e` arose at the decoder.
    spec fn is_decode_error(e: Self::Error) -> bool;

    /// Compiles `q` into the backend's search syntax. Compilation cannot
    /// fail, and it performs no escaping.
    fn build_query<'a>(q: QueryExpr<'a>) -> (s: String)
        ensures
            s@ == Self::query_text(q),
    ;

    /// The request that looks `q` up: its one parameter carries the compiled
    /// expression.
    fn request<'a>(&self, q: QueryExpr<'a>) -> (r: Request)
        ensures
            r.value@ == Self::query_text(q),
    ;

    /// Judges a reply: the body of a successful answer is handed on to be
    /// decoded, and everything else is a transport error.
    fn receive(reply: Reply<Self::Failure>) -> (r: Result<Vec<u8>, Self::Error>)
        ensures
            reply.is_usable() ==> r == Ok::<Vec<u8>, Self::Error>(reply->body),
            !reply.is_usable() ==> r is Err && Self::is_transport_error(r->Err_0)
                && !Self::is_decode_error(r->Err_0),
    ;

    /// Concludes a lookup with what the decoder made of the body: the
    /// records as they are, or a decode error.
    fn decoded(outcome: Result<Self::Response, Self::Malformed>) -> (r: Result<
        Self::Response,
        Self::Error,
    >)
        ensures
            outcome is Ok ==> r == Ok::<Self::Response, Self::Error>(outcome->Ok_0),
            outcome is Err ==> r is Err && Self::is_decode_error(r->Err_0)
                && !Self::is_transport_error(r->Err_0),
    ;
}

/// Everything of a lookup that follows the round trip, for any backend: the
/// reply is judged, and the body of a successful answer is decoded by
/// `decode` and concluded.
///
/// A reply that is no successful answer ends in a transport error, and its
/// body is never decoded. A successful answer ends in what `decode` made of
/// its body: the records, or a decode error.
pub fn resolve<P, D>(reply: Reply<P::Failure>, decode: D) -> (r: Result<P::Response, P::Error>)
    where
        P: MetadataProvider,
        D: FnOnce(Vec<u8>) -> Result<P::Response, P::Malformed>,
    requires
        reply.is_usable() ==> decode.requires((reply->body,)),
    ensures
        !reply.is_usable() ==> r is Err && P::is_transport_error(r->Err_0) && !P::is_decode_error(
            r->Err_0,
        ),
        reply.is_usable() ==> exists|outcome: Result<P::Response, P::Malformed>|
            {
                &&& #[trigger] decode.ensures((reply->body,), outcome)
                &&& outcome is Ok ==> r == Ok::<P::Response, P::Error>(outcome->Ok_0)
                &&& outcome is Err ==> r is Err && P::is_decode_error(r->Err_0)
                    && !P::is_transport_error(r->Err_0)
            },
{
    match P::receive(reply) {
        Ok(body) => {
            let outcome = decode(body);
            let ghost seen = outcome;
            let r = P::decoded(outcome);
            assert(decode.ensures((reply->body,), seen));
            r
        },
        Err(e) => Err(e),
    }
}

} // verus!
