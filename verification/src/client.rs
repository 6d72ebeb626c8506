//! The query builder: accumulates tag filters, a result limit and optional
//! credentials, and renders the two kinds of request the remote API accepts.

use vstd::prelude::*;
use vstd::string::StringExecFns;
use crate::model::{DanbooruRating, DanbooruSort};
use crate::text::{dec_str, join_spaced, join_tags, str_views, u32_to_dec};

verus! {

/// Mathematical model of the builder's state: the credential pair, the
/// ordered token list, and the result limit.
#[verifier::ext_equal]
pub struct BuilderModel {
    pub key: Option<Seq<char>>,
    pub user: Option<Seq<char>>,
    pub tags: Seq<Seq<char>>,
    pub limit: nat,
}

/// The view of an optional string.
pub open spec fn opt_view(o: Option<String>) -> Option<Seq<char>> {
    match o {
        Some(s) => Some(s@),
        None => None,
    }
}

/// The state of a fresh builder: no credentials, no tokens, limit 100.
pub open spec fn init_model() -> BuilderModel {
    BuilderModel { key: None, user: None, tags: Seq::empty(), limit: 100 }
}

/// Appending one token to the tag list; everything else is unchanged.
pub open spec fn with_tag(m: BuilderModel, t: Seq<char>) -> BuilderModel {
    BuilderModel { tags: m.tags.push(t), ..m }
}

/// Overwriting the limit; everything else is unchanged.
pub open spec fn with_limit(m: BuilderModel, n: nat) -> BuilderModel {
    BuilderModel { limit: n, ..m }
}

/// Storing the credential pair; everything else is unchanged.
pub open spec fn with_credentials(m: BuilderModel, key: Seq<char>, user: Seq<char>) -> BuilderModel {
    BuilderModel { key: Some(key), user: Some(user), ..m }
}

/// The token a rating filter renders to.
pub open spec fn rating_token(r: DanbooruRating) -> Seq<char> {
    "rating:"@ + r.name_seq()
}

/// The token a sort directive renders to.
pub open spec fn sort_token(s: DanbooruSort) -> Seq<char> {
    "order:"@ + s.name_seq()
}

/// The token a blacklisted tag renders to: the tag prefixed with `-`.
pub open spec fn blacklist_token(t: Seq<char>) -> Seq<char> {
    "-"@ + t
}

/// The token random ordering renders to.
pub open spec fn random_token() -> Seq<char> {
    "order:random"@
}

/// The per-post endpoint URL for the given identifier.
pub open spec fn post_url(id: nat) -> Seq<char> {
    "https://danbooru.donmai.us/posts/"@ + dec_str(id) + ".json"@
}

/// The listing endpoint URL.
pub open spec fn list_url() -> Seq<char> {
    "https://danbooru.donmai.us/posts.json"@
}

/// Client handle for the Danbooru API; queries are configured through
/// [`DanbooruClientBuilder`].
pub struct DanbooruClient {
    pub key: Option<String>,
}

impl DanbooruClient {
    /// A fresh builder: no tokens, no credentials, limit 100.
    pub fn builder() -> (r: DanbooruClientBuilder)
        ensures
            r@ == init_model(),
    {
        DanbooruClientBuilder::new()
    }
}

/// Fluent builder for one query against the remote API. Every configuration
/// call consumes the builder and returns the updated one; the model says
/// exactly which token each call appends.
pub struct DanbooruClientBuilder {
    key: Option<String>,
    user: Option<String>,
    tags: Vec<String>,
    limit: u32,
}

impl View for DanbooruClientBuilder {
    type V = BuilderModel;

    closed spec fn view(&self) -> BuilderModel {
        BuilderModel {
            key: opt_view(self.key),
            user: opt_view(self.user),
            tags: str_views(self.tags@),
            limit: self.limit as nat,
        }
    }
}

/// What a fetch-by-id call sends: the fully rendered per-post URL and the
/// optional credential pair. No tag, limit or sort state enters it.
pub struct PostRequest {
    pub url: String,
    pub login: Option<String>,
    pub api_key: Option<String>,
}

/// What a fetch-list call sends: the listing URL, the stringified limit,
/// the space-joined tag string, and the optional credential pair.
pub struct ListRequest {
    pub url: String,
    pub limit: String,
    pub tags: String,
    pub login: Option<String>,
    pub api_key: Option<String>,
}

/// Clones an optional string, preserving its view.
fn clone_opt(o: &Option<String>) -> (r: Option<String>)
    ensures
        opt_view(r) == opt_view(*o),
{
    match o {
        Some(s) => Some(s.clone()),
        None => None,
    }
}

impl DanbooruClientBuilder {
    /// A fresh builder: no tokens, no credentials, limit 100.
    pub fn new() -> (r: DanbooruClientBuilder)
        ensures
            r@ == init_model(),
    {
        let r = DanbooruClientBuilder { key: None, user: None, tags: Vec::new(), limit: 100 };
        proof {
            assert(r@ =~= init_model());
        }
        r
    }

    /// Set the API key and user attached to subsequent requests.
    pub fn set_credentials(self, key: String, user: String) -> (r: Self)
        ensures
            r@ == with_credentials(self@, key@, user@),
    {
        let ghost m = self@;
        let ghost kv = key@;
        let ghost uv = user@;
        let mut r = self;
        r.key = Some(key);
        r.user = Some(user);
        proof {
            assert(r@ =~= with_credentials(m, kv, uv));
        }
        r
    }

    /// Append one tag token verbatim to the query.
    pub fn tag(self, tag: String) -> (r: Self)
        ensures
            r@ == with_tag(self@, tag@),
    {
        let ghost m = self@;
        let ghost tv = tag@;
        let mut r = self;
        r.tags.push(tag);
        proof {
            assert(str_views(r.tags@) =~= m.tags.push(tv));
            assert(r@ =~= with_tag(m, tv));
        }
        r
    }

    /// Append a rating filter: the token `rating:<name>`.
    pub fn rating(self, rating: DanbooruRating) -> (r: Self)
        ensures
            r@ == with_tag(self@, rating_token(rating)),
    {
        let mut t = String::from_str("rating:");
        t.append(rating.name());
        self.tag(t)
    }

    /// Overwrite the result limit. The value is not validated against the
    /// server's maximum: it is sent exactly as given.
    pub fn limit(self, limit: u32) -> (r: Self)
        ensures
            r@ == with_limit(self@, limit as nat),
    {
        let ghost m = self@;
        let mut r = self;
        r.limit = limit;
        proof {
            assert(r@ =~= with_limit(m, limit as nat));
        }
        r
    }

    /// With `true`, append one `order:random` token (each call appends
    /// another); with `false`, change nothing.
    pub fn random(self, random: bool) -> (r: Self)
        ensures
            random ==> r@ == with_tag(self@, random_token()),
            !random ==> r@ == self@,
    {
        if random {
            self.tag(String::from_str("order:random"))
        } else {
            self
        }
    }

    /// Append a sort directive: the token `order:<name>`.
    pub fn sort(self, order: DanbooruSort) -> (r: Self)
        ensures
            r@ == with_tag(self@, sort_token(order)),
    {
        let mut t = String::from_str("order:");
        t.append(order.name());
        self.tag(t)
    }

    /// Blacklist a tag: append the token `-<tag>`.
    pub fn blacklist_tag(self, tag: String) -> (r: Self)
        ensures
            r@ == with_tag(self@, blacklist_token(tag@)),
    {
        let mut t = String::from_str("-");
        t.append(tag.as_str());
        self.tag(t)
    }

    /// The rendered query string: the accumulated tokens joined with single
    /// spaces, in the exact order they were added.
    pub fn tag_string(&self) -> (r: String)
        ensures
            r@ == join_spaced(self@.tags),
    {
        join_tags(&self.tags)
    }

    /// Render the request for fetching one post by its identifier. Only the
    /// credentials are taken from the builder: the URL is a function of the
    /// identifier alone, and no tag, limit or sort state enters the request.
    pub fn get_by_id_request(&self, id: u32) -> (r: PostRequest)
        ensures
            r.url@ == post_url(id as nat),
            opt_view(r.login) == self@.user,
            opt_view(r.api_key) == self@.key,
    {
        let mut url = String::from_str("https://danbooru.donmai.us/posts/");
        let num = u32_to_dec(id);
        url.append(num.as_str());
        url.append(".json");
        proof {
            assert(url@ =~= post_url(id as nat));
        }
        PostRequest { url, login: clone_opt(&self.user), api_key: clone_opt(&self.key) }
    }

    /// Render the listing request: the listing URL, the limit exactly as
    /// configured (stringified, with no local clamping), and the space-joined
    /// tag string.
    pub fn get_request(&self) -> (r: ListRequest)
        ensures
            r.url@ == list_url(),
            r.limit@ == dec_str(self@.limit),
            r.tags@ == join_spaced(self@.tags),
            opt_view(r.login) == self@.user,
            opt_view(r.api_key) == self@.key,
    {
        ListRequest {
            url: String::from_str("https://danbooru.donmai.us/posts.json"),
            limit: u32_to_dec(self.limit),
            tags: self.tag_string(),
            login: clone_opt(&self.user),
            api_key: clone_opt(&self.key),
        }
    }
}

impl core::default::Default for DanbooruClientBuilder {
    /// Same state as [`DanbooruClientBuilder::new`].
    fn default() -> (r: Self)
        ensures
            r@ == init_model(),
    {
        DanbooruClientBuilder::new()
    }
}

} // verus!
