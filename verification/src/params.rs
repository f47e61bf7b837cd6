//! The query-parameter collection and its appending onto a resolved URL.
//!
//! The `url` crate records offsets into a URL's serialization as `u32` and
//! panics past that machine limit, so appending is guarded: [`QueryParams::add_to_url`]
//! demands room under [`params_fit`], and [`QueryParams::try_add_to_url`]
//! tests that bound at run time and reports it instead of appending.

use vstd::prelude::*;
use vstd::string::StrSliceExecFns;

verus! {

/// The length in bytes of a URL's serialization.
pub uninterp spec fn url_len(u: url::Url) -> nat;

/// Relies on `url::Url::as_str` and `str::len`: the byte length of the URL's
/// serialization — what `url_len` names.
#[verifier::external_body]
pub fn url_serialization_len(url: &url::Url) -> (n: usize)
    ensures
        n == url_len(*url),
{
    url.as_str().len()
}

/// The URL that the `url` crate's query serializer produces when one key/value
/// pair is appended, percent-encoded, to the query string of `u`. The result
/// depends on the URL and the pair alone.
pub uninterp spec fn url_with_pair(u: url::Url, key: Seq<char>, value: Seq<char>) -> url::Url;

/// How many bytes appending one pair can add to a URL's serialization: at
/// most one separator, one `=`, and each character's UTF-8 bytes (at most
/// four) percent-encoded (at most threefold).
pub open spec fn pair_growth(key: Seq<char>, value: Seq<char>) -> nat {
    12 * (key.len() + value.len()) + 2
}

/// The bytes appending every pair can add, summed in order.
pub open spec fn pairs_growth(pairs: Seq<(Seq<char>, Seq<char>)>) -> nat
    decreases pairs.len(),
{
    if pairs.len() == 0 {
        0
    } else {
        pair_growth(pairs[0].0, pairs[0].1) + pairs_growth(pairs.drop_first())
    }
}

/// Whether appending `params` to `u` stays under the `url` crate's `u32`
/// serialization limit. Nothing is appended for an empty collection, so that
/// case always fits.
pub open spec fn params_fit(u: url::Url, params: Seq<(Seq<char>, Seq<char>)>) -> bool {
    params.len() == 0 || url_len(u) + pairs_growth(params) <= u32::MAX as int
}

/// A suffix never outgrows the whole: dropping leading pairs cannot increase
/// the summed growth.
proof fn lemma_pairs_growth_skip(s: Seq<(Seq<char>, Seq<char>)>, i: int)
    requires
        0 <= i <= s.len(),
    ensures
        pairs_growth(s.skip(i)) <= pairs_growth(s),
    decreases i,
{
    if i == 0 {
        assert(s.skip(0) =~= s);
    } else {
        assert(s.skip(i) =~= s.drop_first().skip(i - 1));
        lemma_pairs_growth_skip(s.drop_first(), i - 1);
    }
}

/// The URL after every pair of `pairs` has been appended to `u`, in order.
pub open spec fn url_with_params(u: url::Url, pairs: Seq<(Seq<char>, Seq<char>)>) -> url::Url
    decreases pairs.len(),
{
    if pairs.len() == 0 {
        u
    } else {
        url_with_params(url_with_pair(u, pairs[0].0, pairs[0].1), pairs.drop_first())
    }
}

/// Appending pairwise from the left agrees with appending the last pair after
/// the rest: the fold over `s.push(p)` is one more `url_with_pair` step.
proof fn lemma_url_with_params_push(
    u: url::Url,
    s: Seq<(Seq<char>, Seq<char>)>,
    p: (Seq<char>, Seq<char>),
)
    ensures
        url_with_params(u, s.push(p)) == url_with_pair(url_with_params(u, s), p.0, p.1),
    decreases s.len(),
{
    let sp = s.push(p);
    if s.len() == 0 {
        assert(sp[0] == p);
        assert(url_with_params(u, sp) == url_with_params(
            url_with_pair(u, sp[0].0, sp[0].1),
            sp.drop_first(),
        ));
        assert(sp.drop_first().len() == 0);
    } else {
        assert(sp[0] == s[0]);
        assert(sp.drop_first() =~= s.drop_first().push(p));
        assert(url_with_params(u, sp) == url_with_params(
            url_with_pair(u, sp[0].0, sp[0].1),
            sp.drop_first(),
        ));
        assert(url_with_params(u, s) == url_with_params(
            url_with_pair(u, s[0].0, s[0].1),
            s.drop_first(),
        ));
        lemma_url_with_params_push(url_with_pair(u, s[0].0, s[0].1), s.drop_first(), p);
    }
}

/// A collection of query parameters: ordered key/value pairs that are
/// appended to the resolved URL before the transfer. Percent-encoding is the
/// `url` crate's responsibility; this layer only invokes it.
pub struct QueryParams {
    pub pairs: Vec<(String, String)>,
}

impl View for QueryParams {
    type V = Seq<(Seq<char>, Seq<char>)>;

    open spec fn view(&self) -> Seq<(Seq<char>, Seq<char>)> {
        self.pairs@.map_values(|p: (String, String)| (p.0@, p.1@))
    }
}

impl QueryParams {
    /// An empty parameter collection.
    pub fn new() -> (q: QueryParams)
        ensures
            q@ == Seq::<(Seq<char>, Seq<char>)>::empty(),
    {
        QueryParams { pairs: Vec::new() }
    }

    /// Add one key/value pair at the end.
    pub fn push(&mut self, key: String, value: String)
        ensures
            final(self)@ == old(self)@.push((key@, value@)),
    {
        self.pairs.push((key, value));
    }

    /// Append every pair to the URL's query string, in order. The caller owes
    /// the room for it; [`QueryParams::try_add_to_url`] tests that bound
    /// instead of demanding it.
    pub fn add_to_url(&self, url: &mut url::Url)
        requires
            params_fit(*old(url), self@),
        ensures
            *final(url) == url_with_params(*old(url), self@),
    {
        let ghost start = *url;
        proof {
            assert(self@.skip(0) =~= self@);
        }
        let mut i: usize = 0;
        while i < self.pairs.len()
            invariant
                i <= self.pairs.len(),
                *url == url_with_params(start, self@.take(i as int)),
                self.pairs.len() > 0 ==> url_len(*url) + pairs_growth(self@.skip(i as int))
                    <= u32::MAX as int,
            decreases self.pairs.len() - i,
        {
            proof {
                assert(self@[i as int] == (self.pairs@[i as int].0@, self.pairs@[i as int].1@));
                assert(self@.take(i + 1) =~= self@.take(i as int).push(self@[i as int]));
                assert(self@.skip(i as int)[0] == self@[i as int]);
                assert(self@.skip(i as int).drop_first() =~= self@.skip(i + 1));
                lemma_url_with_params_push(start, self@.take(i as int), self@[i as int]);
            }
            append_pair(url, self.pairs[i].0.as_str(), self.pairs[i].1.as_str());
            i = i + 1;
        }
        proof {
            assert(self@.take(self.pairs.len() as int) =~= self@);
        }
    }

    /// Test whether every pair fits under the `url` crate's serialization
    /// limit and, exactly then, append them all in order; otherwise leave the
    /// URL untouched and say so.
    pub fn try_add_to_url(&self, url: &mut url::Url) -> (ok: bool)
        ensures
            ok == params_fit(*old(url), self@),
            ok ==> *final(url) == url_with_params(*old(url), self@),
            !ok ==> *final(url) == *old(url),
    {
        if self.pairs.len() == 0 {
            proof {
                assert(self@.len() == 0);
            }
            return true;
        }
        let mut i: usize = self.pairs.len();
        let mut total: u128 = 0;
        while i > 0
            invariant
                i <= self.pairs.len(),
                total == pairs_growth(self@.skip(i as int)),
                total <= u32::MAX as u128,
            decreases i,
        {
            i = i - 1;
            let key_chars = self.pairs[i].0.as_str().unicode_len();
            let value_chars = self.pairs[i].1.as_str().unicode_len();
            let term: u128 = 12 * ((key_chars as u128) + (value_chars as u128)) + 2;
            total = total + term;
            proof {
                assert(self@[i as int] == (self.pairs@[i as int].0@, self.pairs@[i as int].1@));
                assert(self@.skip(i as int)[0] == self@[i as int]);
                assert(self@.skip(i as int).drop_first() =~= self@.skip(i + 1));
            }
            if total > (u32::MAX as u128) {
                proof {
                    lemma_pairs_growth_skip(self@, i as int);
                }
                return false;
            }
        }
        proof {
            assert(self@.skip(0) =~= self@);
        }
        let n = url_serialization_len(url);
        if n as u128 > (u32::MAX as u128) - total {
            return false;
        }
        self.add_to_url(url);
        true
    }
}

/// Relies on `url::Url::query_pairs_mut` and `Serializer::append_pair`: the
/// pair is appended, percent-encoded, to the URL's query string — the step
/// that `url_with_pair` names, adding at most `pair_growth` bytes. The `url`
/// crate records offsets as `u32` and panics past that limit, which the bound
/// in `requires` keeps out of reach.
#[verifier::external_body]
fn append_pair(url: &mut url::Url, key: &str, value: &str)
    requires
        url_len(*old(url)) + pair_growth(key@, value@) <= u32::MAX as int,
    ensures
        *final(url) == url_with_pair(*old(url), key@, value@),
        url_len(*final(url)) <= url_len(*old(url)) + pair_growth(key@, value@),
{
    url.query_pairs_mut().append_pair(key, value);
}

} // verus!
