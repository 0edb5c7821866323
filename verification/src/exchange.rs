//! The exchange of an authorization code for an access token: where the code is sent,
//! and how the hosting platform's reply is read.

use crate::text::{split, split_on, texts};
use vstd::prelude::*;
use vstd::string::*;

verus! {

/// The identity under which the service is registered with the hosting platform.
#[derive(Debug, Clone, PartialEq, Eq)]
pub struct OAuthClient {
    pub client_id: String,
    pub client_secret: String,
}

/// What an [`OAuthClient`] denotes.
pub struct OAuthClientView {
    pub client_id: Seq<char>,
    pub client_secret: Seq<char>,
}

impl View for OAuthClient {
    type V = OAuthClientView;

    open spec fn view(&self) -> OAuthClientView {
        OAuthClientView { client_id: self.client_id@, client_secret: self.client_secret@ }
    }
}

/// Address that an authorization code is posted to.
pub open spec fn exchange_url_of(client: OAuthClientView, code: Seq<char>) -> Seq<char> {
    "https://github.com/login/oauth/access_token?client_id="@ + client.client_id
        + "&client_secret="@ + client.client_secret + "&code="@ + code
}

impl OAuthClient {
    /// The client with this identifier and secret.
    pub fn new(client_id: String, client_secret: String) -> (client: Self)
        ensures
            client@ == (OAuthClientView { client_id: client_id@, client_secret: client_secret@ }),
    {
        OAuthClient { client_id, client_secret }
    }

    /// The address that `code` is posted to.
    pub fn exchange_url(&self, code: &str) -> (url: String)
        ensures
            url@ == exchange_url_of(self@, code@),
    {
        let mut url = String::from_str("https://github.com/login/oauth/access_token?client_id=");
        url.append(self.client_id.as_str());
        url.append("&client_secret=");
        url.append(self.client_secret.as_str());
        url.append("&code=");
        url.append(code);
        url
    }
}

/// The key and value of one piece of a form: what stands before the first `=`, and
/// what stands between it and the next `=` or the end. A piece without `=` has none.
pub open spec fn pair_of(piece: Seq<char>) -> Option<(Seq<char>, Seq<char>)> {
    let parts = split_on(piece, '=');
    if parts.len() >= 2 {
        Some((parts[0], parts[1]))
    } else {
        None
    }
}

/// Every piece holds a key and a value.
pub open spec fn all_pairs(pieces: Seq<Seq<char>>) -> bool {
    forall|i: int| 0 <= i < pieces.len() ==> pair_of(#[trigger] pieces[i]) is Some
}

/// The pairs of `pieces` as a mapping. Of two pairs with one key the later one stays.
pub open spec fn form_map(pieces: Seq<Seq<char>>) -> Map<Seq<char>, Seq<char>>
    decreases pieces.len(),
{
    if pieces.len() == 0 {
        Map::empty()
    } else {
        let before = form_map(pieces.drop_last());
        match pair_of(pieces.last()) {
            Some((key, value)) => before.insert(key, value),
            None => before,
        }
    }
}

/// What a form of pairs `key=value`, joined by `&`, holds. A form with a piece that
/// is no pair holds nothing at all.
pub open spec fn form_of(body: Seq<char>) -> Option<Map<Seq<char>, Seq<char>>> {
    let pieces = split_on(body, '&');
    if all_pairs(pieces) {
        Some(form_map(pieces))
    } else {
        None
    }
}

/// The views of a sequence of pairs.
pub open spec fn pair_views(pairs: Seq<(String, String)>) -> Seq<(Seq<char>, Seq<char>)> {
    Seq::new(pairs.len(), |i: int| (pairs[i].0@, pairs[i].1@))
}

/// The mapping that a sequence of pairs stands for: a later pair replaces an earlier
/// one with the same key.
pub open spec fn map_of(pairs: Seq<(Seq<char>, Seq<char>)>) -> Map<Seq<char>, Seq<char>>
    decreases pairs.len(),
{
    if pairs.len() == 0 {
        Map::empty()
    } else {
        map_of(pairs.drop_last()).insert(pairs.last().0, pairs.last().1)
    }
}

/// The keys and values that the hosting platform answered an exchange with.
#[derive(Debug, Clone, PartialEq, Eq)]
pub struct AccessTokenBundle {
    pairs: Vec<(String, String)>,
}

impl View for AccessTokenBundle {
    type V = Map<Seq<char>, Seq<char>>;

    closed spec fn view(&self) -> Map<Seq<char>, Seq<char>> {
        map_of(pair_views(self.pairs@))
    }
}

impl AccessTokenBundle {
    /// The bundle that holds nothing.
    pub fn new() -> (bundle: Self)
        ensures
            bundle@ == Map::<Seq<char>, Seq<char>>::empty(),
    {
        AccessTokenBundle { pairs: Vec::new() }
    }

    /// Sets `key` to `value`, in place of what it was set to before.
    pub fn insert(&mut self, key: String, value: String)
        ensures
            final(self)@ == old(self)@.insert(key@, value@),
    {
        assert(pair_views(self.pairs@.push((key, value))).drop_last() == pair_views(self.pairs@));
        self.pairs.push((key, value));
    }

    /// What `key` is set to.
    pub fn get(&self, key: &str) -> (value: Option<String>)
        ensures
            match value {
                Some(v) => self@.contains_key(key@) && self@[key@] == v@,
                None => !self@.contains_key(key@),
            },
    {
        let wanted = key.to_owned();
        let ghost all = pair_views(self.pairs@);
        let mut i: usize = self.pairs.len();
        assert(all.take(i as int) == all);
        while i > 0
            invariant
                i <= self.pairs.len(),
                wanted@ == key@,
                all == pair_views(self.pairs@),
                self@ == map_of(all),
                map_of(all).contains_key(key@) <==> map_of(all.take(i as int)).contains_key(key@),
                map_of(all).contains_key(key@) ==> map_of(all)[key@] == map_of(
                    all.take(i as int),
                )[key@],
            decreases i,
        {
            i = i - 1;
            assert(all.take(i + 1).drop_last() == all.take(i as int));
            if self.pairs[i].0 == wanted {
                return Some(self.pairs[i].1.clone());
            }
        }
        None
    }

    /// Pairs that make up the bundle: set one after the other, a later pair in place of
    /// an earlier one with the same key, they give the bundle again.
    pub fn pairs(&self) -> (pairs: Vec<(String, String)>)
        ensures
            map_of(pair_views(pairs@)) == self@,
    {
        let mut pairs: Vec<(String, String)> = Vec::new();
        let mut i: usize = 0;
        while i < self.pairs.len()
            invariant
                i <= self.pairs.len(),
                pair_views(pairs@) == pair_views(self.pairs@).take(i as int),
            decreases self.pairs.len() - i,
        {
            let key = self.pairs[i].0.clone();
            let value = self.pairs[i].1.clone();
            proof {
                let source = pair_views(self.pairs@);
                assert(source.take(i + 1) == source.take(i as int).push(source[i as int]));
            }
            pairs.push((key, value));
            i = i + 1;
        }
        assert(pair_views(self.pairs@).take(i as int) == pair_views(self.pairs@));
        pairs
    }
}

/// Reads a form of pairs `key=value`, joined by `&`. One piece without `=` makes the
/// whole form unreadable.
pub fn parse_form(body: &str) -> (parsed: Option<AccessTokenBundle>)
    ensures
        match parsed {
            Some(bundle) => form_of(body@) == Some(bundle@),
            None => form_of(body@) is None,
        },
{
    let pieces = split(body, '&');
    let ghost all = texts(pieces@);
    let mut bundle = AccessTokenBundle::new();
    let mut i: usize = 0;
    while i < pieces.len()
        invariant
            i <= pieces.len(),
            all == texts(pieces@),
            all == split_on(body@, '&'),
            all_pairs(all.take(i as int)),
            bundle@ == form_map(all.take(i as int)),
        decreases pieces.len() - i,
    {
        let mut parts = split(pieces[i].as_str(), '=');
        proof {
            let upto = all.take(i + 1);
            assert(upto.drop_last() == all.take(i as int));
            assert(upto.last() == pieces[i as int]@);
        }
        if parts.len() < 2 {
            return None;
        }
        let value = parts.swap_remove(1);
        let key = parts.swap_remove(0);
        bundle.insert(key, value);
        i = i + 1;
    }
    assert(all.take(i as int) == all);
    Some(bundle)
}

} // verus!
