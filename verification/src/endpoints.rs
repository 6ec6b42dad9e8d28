//! The addresses of the two upstream feeds.

use vstd::prelude::*;
use vstd::string::StringExecFns;
use vstd::string::StrSliceExecFns;

verus! {

/// The lower-case form of a text, as the standard library computes it.
pub uninterp spec fn lowercase_of(text: Seq<char>) -> Seq<char>;

/// `text` without the slashes at its end.
pub open spec fn without_trailing_slashes(text: Seq<char>) -> Seq<char>
    decreases text.len(),
{
    if text.len() > 0 && text.last() == '/' {
        without_trailing_slashes(text.drop_last())
    } else {
        text
    }
}

/// The address of the trade stream at `endpoint` that goes by `name`.
pub open spec fn stream_address(endpoint: Seq<char>, name: Seq<char>) -> Seq<char> {
    without_trailing_slashes(endpoint) + "/ws/"@ + name + "@trade"@
}

/// The address of the trade stream of `symbol` at `endpoint`: streams go
/// by the lower-case form of their symbol.
pub open spec fn trade_stream_address(endpoint: Seq<char>, symbol: Seq<char>) -> Seq<char> {
    stream_address(endpoint, lowercase_of(symbol))
}

/// The address of the one-day, one-minute chart of `symbol` at `base`.
pub open spec fn chart_address(base: Seq<char>, symbol: Seq<char>) -> Seq<char> {
    base + "/v8/finance/chart/"@ + symbol + "?interval=1m&range=1d"@
}

/// What is left of a text without its trailing slashes ends in no slash
/// and is a prefix of the text; the rest of the text is slashes only.
pub proof fn trailing_slashes_are_gone(text: Seq<char>)
    ensures
        ({
            let kept = without_trailing_slashes(text);
            &&& kept.len() <= text.len()
            &&& kept == text.subrange(0, kept.len() as int)
            &&& kept.len() > 0 ==> kept.last() != '/'
            &&& forall|i: int| kept.len() <= i < text.len() ==> text[i] == '/'
        }),
    decreases text.len(),
{
    if text.len() > 0 && text.last() == '/' {
        let front = text.drop_last();
        trailing_slashes_are_gone(front);
        let kept = without_trailing_slashes(text);
        assert(kept == without_trailing_slashes(front));
        assert(kept =~= text.subrange(0, kept.len() as int));
        assert forall|i: int| kept.len() <= i < text.len() implies text[i] == '/' by {
            if i < front.len() {
                assert(front[i] == text[i]);
            }
        }
    } else {
        assert(text =~= text.subrange(0, text.len() as int));
    }
}

/// Calls `str::to_lowercase` of the standard library. The result is the
/// lower-case form of the text under the Unicode rules that the standard
/// library applies; nothing more is known of it here.
#[verifier::external_body]
fn to_lowercase(text: &str) -> (lowered: String)
    ensures
        lowered@ == lowercase_of(text@),
{
    text.to_lowercase()
}

/// `text` up to its trailing slashes.
pub fn trim_trailing_slashes(text: &str) -> (kept: &str)
    ensures
        kept@ == without_trailing_slashes(text@),
{
    let mut end: usize = text.unicode_len();
    assert(text@.subrange(0, end as int) =~= text@);
    while end > 0 && text.get_char(end - 1) == '/'
        invariant
            end <= text@.len(),
            without_trailing_slashes(text@) == without_trailing_slashes(
                text@.subrange(0, end as int),
            ),
        decreases end,
    {
        proof {
            let head = text@.subrange(0, end as int);
            assert(head.last() == '/');
            assert(head.drop_last() =~= text@.subrange(0, end as int - 1));
        }
        end = end - 1;
    }
    proof {
        let head = text@.subrange(0, end as int);
        assert(end > 0 ==> head.last() == text@[end as int - 1]);
        assert(without_trailing_slashes(head) == head);
    }
    text.substring_char(0, end)
}

/// The address of the trade stream named `name` at `endpoint`: the
/// endpoint without trailing slashes, then `/ws/`, the name and `@trade`.
pub fn stream_url(endpoint: &str, name: &str) -> (url: String)
    ensures
        url@ == stream_address(endpoint@, name@),
{
    let mut url = String::from_str(trim_trailing_slashes(endpoint));
    url.append("/ws/");
    url.append(name);
    url.append("@trade");
    url
}

/// The address at which a chart service at `base_url` serves the latest
/// trading day of `symbol` in one-minute steps.
pub fn chart_url(base_url: &str, symbol: &str) -> (url: String)
    ensures
        url@ == chart_address(base_url@, symbol@),
{
    let mut url = String::from_str(base_url);
    url.append("/v8/finance/chart/");
    url.append(symbol);
    url.append("?interval=1m&range=1d");
    url
}

/// A client of a trade feed that streams one symbol per connection.
#[derive(Debug, Clone)]
pub struct BinanceClient {
    endpoint: String,
}

impl BinanceClient {
    /// The address of the feed.
    pub closed spec fn address(&self) -> Seq<char> {
        self.endpoint@
    }

    pub fn new(endpoint: String) -> (client: Self)
        ensures
            client.address() == endpoint@,
    {
        BinanceClient { endpoint }
    }

    pub fn endpoint(&self) -> (endpoint: &String)
        ensures
            endpoint@ == self.address(),
    {
        &self.endpoint
    }

    /// The address to connect to for the trades of `symbol`: that of the
    /// stream named by the symbol in lower case.
    pub fn trade_stream_url(&self, symbol: &str) -> (url: String)
        ensures
            url@ == trade_stream_address(self.address(), symbol@),
    {
        let lowered = to_lowercase(symbol);
        stream_url(self.endpoint.as_str(), lowered.as_str())
    }
}

} // verus!
