//! Requests as plain values. The crate says what to send; its caller sends it.

use vstd::prelude::*;

verus! {

/// How a request is made.
#[derive(Clone, Copy, Debug, PartialEq, Eq, Structural)]
pub enum Method {
    Get,
    Post,
}

/// A request for the caller to send.
#[derive(Debug, PartialEq, Eq)]
pub struct HttpRequest {
    pub method: Method,
    /// The address, query string included.
    pub url: String,
    /// A header to send along, as name and value.
    pub header: Option<(String, String)>,
    /// A member, as name and value, of the JSON object to send as the body.
    pub json: Option<(String, String)>,
}

/// An [`HttpRequest`] as text.
pub struct HttpRequestView {
    pub method: Method,
    pub url: Seq<char>,
    pub header: Option<(Seq<char>, Seq<char>)>,
    pub json: Option<(Seq<char>, Seq<char>)>,
}

/// A pair of strings as text.
pub open spec fn pair_view(pair: (String, String)) -> (Seq<char>, Seq<char>) {
    (pair.0@, pair.1@)
}

/// An optional pair of strings as text.
pub open spec fn optional_pair_view(pair: Option<(String, String)>) -> Option<
    (Seq<char>, Seq<char>),
> {
    match pair {
        Some(pair) => Some(pair_view(pair)),
        None => None,
    }
}

impl View for HttpRequest {
    type V = HttpRequestView;

    open spec fn view(&self) -> HttpRequestView {
        HttpRequestView {
            method: self.method,
            url: self.url@,
            header: optional_pair_view(self.header),
            json: optional_pair_view(self.json),
        }
    }
}

/// The pairs of a query as text.
pub open spec fn pairs_view(pairs: Seq<(String, String)>) -> Seq<(Seq<char>, Seq<char>)> {
    Seq::new(pairs.len(), |i: int| pair_view(pairs[i]))
}

/// What `Url::parse_with_params` makes of a base address and the pairs to add
/// to its query: the resulting address, or the message of the parse error.
pub uninterp spec fn url_with_params(
    base: Seq<char>,
    pairs: Seq<(Seq<char>, Seq<char>)>,
) -> Result<Seq<char>, Seq<char>>;

/// The longest base address that [`with_params`] takes.
pub const MAX_BASE_LEN: usize = 0xffff;

/// A base address that [`with_params`] takes: of moderate length and without
/// a fragment.
pub open spec fn plain_base(base: Seq<char>) -> bool {
    &&& base.len() <= MAX_BASE_LEN
    &&& forall|i: int| 0 <= i < base.len() ==> base[i] != '#'
}

/// `url::Url::parse_with_params`, with the address handed back as a string
/// and the error as its message. The result depends on the arguments alone.
/// The outside function keeps positions in 32 bits and panics where one does
/// not fit: when the parsed base is too long, or when a fragment has to be
/// put back behind a query that is. A short base without a fragment rules out
/// both.
#[verifier::external_body]
pub(crate) fn with_params(base: &str, pairs: &Vec<(String, String)>) -> (built: Result<
    String,
    String,
>)
    requires
        plain_base(base@),
    ensures
        match built {
            Ok(url) => url_with_params(base@, pairs_view(pairs@)) == Ok::<Seq<char>, Seq<char>>(
                url@,
            ),
            Err(message) => url_with_params(base@, pairs_view(pairs@)) == Err::<
                Seq<char>,
                Seq<char>,
            >(message@),
        },
{
    match url::Url::parse_with_params(base, pairs) {
        Ok(url) => Ok(String::from(url)),
        Err(error) => Err(error.to_string()),
    }
}

/// The pair of two texts, owned.
pub(crate) fn pair(name: &str, value: &str) -> (made: (String, String))
    ensures
        pair_view(made) == (name@, value@),
{
    (name.to_owned(), value.to_owned())
}

/// What came back for a request: the body of the response, or the message
/// of the error that kept it from arriving.
pub open spec fn reply_view(reply: Result<String, String>) -> Result<Seq<char>, Seq<char>> {
    match reply {
        Ok(body) => Ok(body@),
        Err(message) => Err(message@),
    }
}

} // verus!
