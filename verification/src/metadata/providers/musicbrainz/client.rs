//! The MusicBrainz search client: what it sends, and how it reads a search
//! expression and an answer.

use vstd::prelude::*;

use crate::metadata::providers::text;
use crate::metadata::providers::{is_success, MetadataProvider, QueryExpr, Reply, Request};
use super::entities::Recording;
use super::error::LookupError;

verus! {

/// One answer to a search for recordings.
#[derive(Debug)]
pub struct SearchResponse {
    /// When the backend made the answer.
    pub created: String,
    /// How many recordings match in all.
    pub count: usize,
    /// How many matches come before the first one of this answer.
    pub offset: usize,
    pub recordings: Vec<Recording>,
}

/// A header that goes with every request.
#[derive(Debug)]
pub struct Header {
    pub name: String,
    pub value: String,
}

/// The name by which the client introduces itself: the backend turns away
/// requests that do not say who sends them.
pub open spec fn user_agent(version: Seq<char>) -> Seq<char> {
    "Doplr/"@ + version + " ( doplr@jcndrop.com )"@
}

/// The address at which recordings are searched.
pub open spec fn recording_url() -> Seq<char> {
    "http://musicbrainz.org/ws/2"@ + "/recording"@
}

/// The backend's name for the field that an atomic predicate matches. A
/// custom predicate names its field itself.
pub open spec fn field_name(q: QueryExpr) -> Seq<char>
    recommends
        q.is_atomic(),
{
    match q {
        QueryExpr::Title(_) => "title"@,
        QueryExpr::Artist(_) => "artist"@,
        QueryExpr::Album(_) => "release"@,
        QueryExpr::Year(_) => "date"@,
        QueryExpr::TrackNumber(_) => "tnum"@,
        QueryExpr::TotalTracks(_) => "tracks"@,
        QueryExpr::Length(_) => "dur"@,
        QueryExpr::Custom(k, _) => k@,
        _ => Seq::empty(),
    }
}

/// One predicate on the artist-name field for each name, in the order of the
/// names.
pub open spec fn artist_terms(names: Seq<&str>) -> Seq<Seq<char>> {
    Seq::new(names.len(), |i: int| text::term("artistname"@, names[i]@))
}

/// The search string for `q` in the backend's syntax.
///
/// An atomic predicate is its field, a colon and its value. A list of artist
/// names is one predicate for each name, joined by ` AND `, with no
/// parentheses around the whole. A combinator is always parenthesised, so
/// that no rule of precedence is ever needed.
pub open spec fn search_text(q: QueryExpr) -> Seq<char>
    decreases q,
{
    match q {
        QueryExpr::Artists(names) => text::joined(artist_terms(names@), " AND "@),
        QueryExpr::AND(l, r) => text::grouped(search_text(*l), " AND "@, search_text(*r)),
        QueryExpr::OR(l, r) => text::grouped(search_text(*l), " OR "@, search_text(*r)),
        _ => text::term(field_name(q), q.value_text()),
    }
}

/// Every atomic predicate compiles to the backend's name for its field, a
/// colon, and its value: a name as it was given, a number in decimal. A
/// custom predicate compiles to its key, a colon and its value, verbatim.
pub proof fn lemma_atomic_predicates(q: QueryExpr)
    requires
        q.is_atomic(),
    ensures
        search_text(q) == field_name(q) + ":"@ + q.value_text(),
        match q {
            QueryExpr::Title(t) => search_text(q) == "title:"@ + t@,
            QueryExpr::Artist(a) => search_text(q) == "artist:"@ + a@,
            QueryExpr::Album(a) => search_text(q) == "release:"@ + a@,
            QueryExpr::Year(y) => search_text(q) == "date:"@ + text::decimal(y as nat),
            QueryExpr::TrackNumber(n) => search_text(q) == "tnum:"@ + text::decimal(n as nat),
            QueryExpr::TotalTracks(t) => search_text(q) == "tracks:"@ + text::decimal(t as nat),
            QueryExpr::Length(l) => search_text(q) == "dur:"@ + text::decimal(l as nat),
            QueryExpr::Custom(k, v) => search_text(q) == k@ + ":"@ + v@,
            _ => true,
        },
{
    reveal_strlit(":");
    reveal_strlit("title");
    reveal_strlit("title:");
    reveal_strlit("artist");
    reveal_strlit("artist:");
    reveal_strlit("release");
    reveal_strlit("release:");
    reveal_strlit("date");
    reveal_strlit("date:");
    reveal_strlit("tnum");
    reveal_strlit("tnum:");
    reveal_strlit("tracks");
    reveal_strlit("tracks:");
    reveal_strlit("dur");
    reveal_strlit("dur:");
    assert("title"@ + ":"@ =~= "title:"@);
    assert("artist"@ + ":"@ =~= "artist:"@);
    assert("release"@ + ":"@ =~= "release:"@);
    assert("date"@ + ":"@ =~= "date:"@);
    assert("tnum"@ + ":"@ =~= "tnum:"@);
    assert("tracks"@ + ":"@ =~= "tracks:"@);
    assert("dur"@ + ":"@ =~= "dur:"@);
}

/// A combinator compiles to its two compiled operands, the left one first,
/// with ` AND ` or ` OR ` between them and parentheses around the whole.
pub proof fn lemma_combinators(a: QueryExpr, b: QueryExpr)
    ensures
        search_text(QueryExpr::AND(Box::new(a), Box::new(b))) == "("@ + search_text(a) + " AND "@
            + search_text(b) + ")"@,
        search_text(QueryExpr::OR(Box::new(a), Box::new(b))) == "("@ + search_text(a) + " OR "@
            + search_text(b) + ")"@,
{
}

/// Nesting to the right is kept as it was built: the inner conjunction
/// compiles inside its own parentheses.
pub proof fn lemma_right_nested_and(a: QueryExpr, b: QueryExpr, c: QueryExpr)
    ensures
        search_text(
            QueryExpr::AND(Box::new(a), Box::new(QueryExpr::AND(Box::new(b), Box::new(c)))),
        ) == "("@ + search_text(a) + " AND "@ + ("("@ + search_text(b) + " AND "@ + search_text(c)
            + ")"@) + ")"@,
{
    lemma_combinators(b, c);
    lemma_combinators(a, QueryExpr::AND(Box::new(b), Box::new(c)));
}

/// Where the first character of `x` is an opening parenthesis and every
/// later one repeats the one before it, the one at `k` is an opening
/// parenthesis too.
proof fn lemma_all_opening(x: Seq<char>, k: int)
    requires
        0 <= k < x.len(),
        x[0] == '(',
        forall|i: int| 1 <= i < x.len() ==> #[trigger] x[i] == x[i - 1],
    ensures
        x[k] == '(',
    decreases k,
{
    if k > 0 {
        lemma_all_opening(x, k - 1);
    }
}

/// The shape of the tree shows in the compiled string: nesting a conjunction
/// to the right never compiles to what nesting it to the left compiles to.
pub proof fn lemma_nesting_is_not_folded(a: QueryExpr, b: QueryExpr, c: QueryExpr)
    ensures
        search_text(
            QueryExpr::AND(Box::new(a), Box::new(QueryExpr::AND(Box::new(b), Box::new(c)))),
        ) != search_text(
            QueryExpr::AND(Box::new(QueryExpr::AND(Box::new(a), Box::new(b))), Box::new(c)),
        ),
{
    lemma_combinators(a, b);
    lemma_combinators(b, c);
    lemma_combinators(a, QueryExpr::AND(Box::new(b), Box::new(c)));
    lemma_combinators(QueryExpr::AND(Box::new(a), Box::new(b)), c);
    let x = search_text(a);
    let y = search_text(b);
    let z = search_text(c);
    let right = text::grouped(x, " AND "@, text::grouped(y, " AND "@, z));
    let left = text::grouped(text::grouped(x, " AND "@, y), " AND "@, z);
    reveal_strlit("(");
    reveal_strlit(")");
    reveal_strlit(" AND ");
    let n = x.len() as int;
    assert(forall|i: int| 0 <= i < n ==> right[1 + i] == x[i]);
    assert(right[1 + n] == ' ');
    assert(left[1] == '(');
    assert(forall|i: int| 0 <= i < n ==> left[2 + i] == x[i]);
    if right == left {
        if n == 0 {
            assert(false);
        } else {
            assert(x[0] == right[1]);
            assert forall|i: int| 1 <= i < n implies #[trigger] x[i] == x[i - 1] by {
                assert(x[i] == right[1 + i]);
                assert(x[i - 1] == left[2 + (i - 1)]);
            }
            lemma_all_opening(x, n - 1);
            assert(left[1 + n] == x[n - 1]);
            assert(false);
        }
    }
}

/// Under a disjunction each conjunction keeps its own parentheses.
pub proof fn lemma_or_of_ands(a: QueryExpr, b: QueryExpr, c: QueryExpr, d: QueryExpr)
    ensures
        search_text(
            QueryExpr::OR(
                Box::new(QueryExpr::AND(Box::new(a), Box::new(b))),
                Box::new(QueryExpr::AND(Box::new(c), Box::new(d))),
            ),
        ) == "("@ + ("("@ + search_text(a) + " AND "@ + search_text(b) + ")"@) + " OR "@ + ("("@
            + search_text(c) + " AND "@ + search_text(d) + ")"@) + ")"@,
{
    lemma_combinators(a, b);
    lemma_combinators(c, d);
    lemma_combinators(
        QueryExpr::AND(Box::new(a), Box::new(b)),
        QueryExpr::AND(Box::new(c), Box::new(d)),
    );
}

/// A list of artist names compiles to one predicate on the artist-name
/// field for each name, joined by ` AND `, and to nothing around them: no
/// parentheses enclose the list, unlike a conjunction. A single name is its
/// predicate alone, and an empty list compiles to the empty string.
pub proof fn lemma_artist_names(names: Vec<&str>)
    ensures
        names@.len() == 0 ==> search_text(QueryExpr::Artists(names)) == Seq::<char>::empty(),
        names@.len() == 1 ==> search_text(QueryExpr::Artists(names)) == "artistname:"@
            + names@[0]@,
        names@.len() == 2 ==> search_text(QueryExpr::Artists(names)) == "artistname:"@
            + names@[0]@ + " AND "@ + "artistname:"@ + names@[1]@,
        names@.len() >= 2 ==> search_text(QueryExpr::Artists(names)) == text::joined(
            artist_terms(names@.drop_last()),
            " AND "@,
        ) + " AND "@ + "artistname:"@ + names@.last()@,
{
    reveal_strlit(":");
    reveal_strlit("artistname");
    reveal_strlit("artistname:");
    assert("artistname"@ + ":"@ =~= "artistname:"@);
    let terms = artist_terms(names@);
    let sep = " AND "@;
    if names@.len() >= 2 {
        assert(terms.drop_last() =~= artist_terms(names@.drop_last()));
        assert(text::joined(terms, sep) == text::joined(terms.drop_last(), sep) + sep
            + terms.last());
        assert(terms.last() == "artistname:"@ + names@.last()@);
        assert(text::joined(terms, sep) =~= text::joined(artist_terms(names@.drop_last()), sep)
            + sep + "artistname:"@ + names@.last()@);
        if names@.len() == 2 {
            assert(terms.drop_last().len() == 1);
            assert(text::joined(terms.drop_last(), sep) == terms[0]);
            assert(text::joined(terms, sep) =~= "artistname:"@ + names@[0]@ + " AND "@
                + "artistname:"@ + names@[1]@);
        }
    }
}

/// What a reply comes to: the body of a successful answer, to be decoded;
/// the transport's failure; or the status of an answer that is no success.
pub open spec fn reply_outcome(reply: Reply<reqwest::Error>) -> Result<Vec<u8>, LookupError> {
    match reply {
        Reply::Failed(e) => Err(LookupError::Http(e)),
        Reply::Answered { status, body } => if is_success(status) {
            Ok(body)
        } else {
            Err(LookupError::Status(status))
        },
    }
}

/// What the decoder's outcome comes to: the records as they are, or the
/// decoder's failure.
pub open spec fn decode_outcome(outcome: Result<SearchResponse, serde_json::Error>) -> Result<
    SearchResponse,
    LookupError,
> {
    match outcome {
        Ok(found) => Ok(found),
        Err(e) => Err(LookupError::Json(e)),
    }
}

/// An answer whose status is no success is a transport error that carries
/// the status, whatever its body holds: the body is never decoded, so the
/// lookup cannot end in a decode error.
pub proof fn lemma_failed_status_is_transport_error(status: u16, body: Vec<u8>)
    requires
        !is_success(status),
    ensures
        reply_outcome(Reply::Answered { status, body }) == Err::<Vec<u8>, LookupError>(
            LookupError::Status(status),
        ),
        LookupError::Status(status).is_transport(),
        !LookupError::Status(status).is_decode(),
{
}

/// A failure of the transport itself is a transport error that carries it.
pub proof fn lemma_transport_failure_is_transport_error(e: reqwest::Error)
    ensures
        reply_outcome(Reply::Failed(e)) == Err::<Vec<u8>, LookupError>(LookupError::Http(e)),
        LookupError::Http(e).is_transport(),
        !LookupError::Http(e).is_decode(),
{
}

/// A successful answer hands its body to the decoder, and where the decoder
/// fails on it the lookup ends in a decode error that carries the decoder's
/// failure, never in a transport error.
pub proof fn lemma_malformed_body_is_decode_error(
    status: u16,
    body: Vec<u8>,
    e: serde_json::Error,
)
    requires
        is_success(status),
    ensures
        reply_outcome(Reply::Answered { status, body }) == Ok::<Vec<u8>, LookupError>(body),
        decode_outcome(Err(e)) == Err::<SearchResponse, LookupError>(LookupError::Json(e)),
        LookupError::Json(e).is_decode(),
        !LookupError::Json(e).is_transport(),
{
}

/// No failure is of both kinds, and every failure is of one.
pub proof fn lemma_error_has_one_origin(e: LookupError)
    ensures
        e.is_transport() != e.is_decode(),
{
}

/// The MusicBrainz backend. It holds what it needs to introduce itself; the
/// connection belongs to whoever sends the requests.
pub struct Client {
    version: String,
}

impl Client {
    /// The version under which the client introduces itself.
    pub closed spec fn version(self) -> Seq<char> {
        self.version@
    }

    /// A client that introduces itself under `version`.
    pub fn new(version: &str) -> (c: Client)
        ensures
            c.version() == version@,
    {
        Client { version: String::from_str(version) }
    }

    /// The headers that go with every request, in this order: who is asking,
    /// and that the answer is wanted as JSON (the backend answers in XML
    /// where it is not asked otherwise).
    pub fn default_headers(&self) -> (headers: Vec<Header>)
        ensures
            headers.len() == 2,
            headers[0].name@ == "user-agent"@,
            headers[0].value@ == user_agent(self.version()),
            headers[1].name@ == "accept"@,
            headers[1].value@ == "application/json"@,
    {
        let mut ua = String::from_str("Doplr/");
        ua.append(self.version.as_str());
        ua.append(" ( doplr@jcndrop.com )");
        let mut headers: Vec<Header> = Vec::new();
        headers.push(Header { name: String::from_str("user-agent"), value: ua });
        headers.push(
            Header {
                name: String::from_str("accept"),
                value: String::from_str("application/json"),
            },
        );
        headers
    }

    /// The request that searches recordings for `query`, a search string in
    /// the backend's syntax: exactly one parameter, named `query`.
    pub fn search_recordings(&self, query: &str) -> (r: Request)
        ensures
            r.url@ == recording_url(),
            r.key@ == "query"@,
            r.value@ == query@,
    {
        let mut url = String::from_str("http://musicbrainz.org/ws/2");
        url.append("/recording");
        Request { url, key: String::from_str("query"), value: String::from_str(query) }
    }

    /// Writes one predicate on the artist-name field for each name, joined
    /// by ` AND `.
    fn artists_query(names: &Vec<&str>) -> (s: String)
        ensures
            s@ == text::joined(artist_terms(names@), " AND "@),
    {
        let mut s = String::new();
        let mut i: usize = 0;
        while i < names.len()
            invariant
                i <= names.len(),
                s@ == text::joined(artist_terms(names@).take(i as int), " AND "@),
            decreases names.len() - i,
        {
            proof {
                text::lemma_joined_next(artist_terms(names@), " AND "@, i as int);
            }
            if i > 0 {
                s.append(" AND ");
            }
            let t = text::field_term("artistname", names[i]);
            s.append(t.as_str());
            i += 1;
        }
        assert(artist_terms(names@).take(i as int) =~= artist_terms(names@));
        s
    }
}

impl MetadataProvider for Client {
    type Response = SearchResponse;

    type Error = LookupError;

    type Failure = reqwest::Error;

    type Malformed = serde_json::Error;

    open spec fn query_text(q: QueryExpr) -> Seq<char> {
        search_text(q)
    }

    open spec fn is_transport_error(e: LookupError) -> bool {
        e.is_transport()
    }

    open spec fn is_decode_error(e: LookupError) -> bool {
        e.is_decode()
    }

    fn build_query<'a>(q: QueryExpr<'a>) -> (s: String)
        decreases q,
    {
        match q {
            QueryExpr::Title(t) => text::field_term("title", t),
            QueryExpr::Artist(a) => text::field_term("artist", a),
            QueryExpr::Artists(names) => Self::artists_query(&names),
            QueryExpr::Album(a) => text::field_term("release", a),
            QueryExpr::Year(y) => text::number_term("date", y as u32),
            QueryExpr::TrackNumber(n) => text::number_term("tnum", n as u32),
            QueryExpr::TotalTracks(t) => text::number_term("tracks", t as u32),
            QueryExpr::Length(l) => text::number_term("dur", l),
            QueryExpr::Custom(k, v) => text::field_term(k, v),
            QueryExpr::AND(l, r) => {
                let left = Self::build_query(*l);
                let right = Self::build_query(*r);
                text::grouped_string(left, " AND ", right)
            },
            QueryExpr::OR(l, r) => {
                let left = Self::build_query(*l);
                let right = Self::build_query(*r);
                text::grouped_string(left, " OR ", right)
            },
        }
    }

    fn request<'a>(&self, q: QueryExpr<'a>) -> (r: Request)
        ensures
            r.url@ == recording_url(),
            r.key@ == "query"@,
    {
        let compiled = Self::build_query(q);
        self.search_recordings(compiled.as_str())
    }

    fn receive(reply: Reply<reqwest::Error>) -> (r: Result<Vec<u8>, LookupError>)
        ensures
            r == reply_outcome(reply),
    {
        match reply {
            Reply::Failed(e) => Err(LookupError::Http(e)),
            Reply::Answered { status, body } => {
                if 200 <= status && status <= 299 {
                    Ok(body)
                } else {
                    Err(LookupError::Status(status))
                }
            },
        }
    }

    fn decoded(outcome: Result<SearchResponse, serde_json::Error>) -> (r: Result<
        SearchResponse,
        LookupError,
    >)
        ensures
            r == decode_outcome(outcome),
    {
        match outcome {
            Ok(found) => Ok(found),
            Err(e) => Err(LookupError::Json(e)),
        }
    }
}

} // verus!
