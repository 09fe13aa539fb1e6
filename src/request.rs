//! What the library hands to the transport: the token request body, the
//! manifest location and the signed image addresses.

use vstd::prelude::*;
use vstd::string::*;
use crate::error::BiliMangaError;
use crate::structs::{EpisodeDetail, ImageToken};

verus! {

/// The JSON text that `serde_json::to_string` writes for one string.
pub uninterp spec fn json_of_string(s: Seq<char>) -> Seq<char>;

/// The characters of each string of a list.
pub open spec fn views_of(items: Seq<String>) -> Seq<Seq<char>> {
    items.map_values(|s: String| s@)
}

/// The encoded strings, joined by `,`.
pub open spec fn joined_json(items: Seq<Seq<char>>) -> Seq<char>
    decreases items.len(),
{
    if items.len() == 0 {
        Seq::empty()
    } else if items.len() == 1 {
        json_of_string(items[0])
    } else {
        json_of_string(items[0]) + seq![','] + joined_json(items.drop_first())
    }
}

/// The compact JSON array of a list of strings: `[`, each string encoded,
/// separated by `,`, then `]`.
pub open spec fn json_array(items: Seq<Seq<char>>) -> Seq<char> {
    seq!['['] + joined_json(items) + seq![']']
}

/// Relies on `serde_json::to_string` on a list of strings: a compact array
/// of the encoded strings. It fails only where a `Serialize` impl fails or
/// a map has non-string keys, neither of which a list of strings has.
#[verifier::external_body]
fn strings_to_json(items: &Vec<String>) -> (r: Result<String, serde_json::Error>)
    ensures
        r is Ok,
        r matches Ok(s) ==> s@ == json_array(views_of(items@)),
{
    serde_json::to_string(items)
}

/// Relies on `serde_json::to_string` on one string: the quoted, escaped
/// literal depends on the string alone, and a string always serializes.
#[verifier::external_body]
fn string_to_json(s: &str) -> (r: Result<String, serde_json::Error>)
    ensures
        r is Ok,
        r matches Ok(t) ==> t@ == json_of_string(s@),
{
    serde_json::to_string(s)
}

/// The token request body around an already encoded string literal: an
/// object whose one key `urls` holds it.
pub open spec fn urls_body(literal: Seq<char>) -> Seq<char> {
    seq!['{', '"', 'u', 'r', 'l', 's', '"', ':'] + literal + seq!['}']
}

/// Wraps an encoded JSON string literal as the value of `urls`.
pub fn token_request_body(literal: &str) -> (r: String)
    ensures
        r@ == urls_body(literal@),
{
    let mut body = String::from_str("{\"urls\":");
    body.append(literal);
    body.append("}");
    proof {
        reveal_strlit("{\"urls\":");
        reveal_strlit("}");
    }
    assert(body@ =~= urls_body(literal@));
    body
}

/// The body of a token request for these image paths: the paths as a JSON
/// array, that text encoded once more as a JSON string, under `urls`.
pub fn image_token_body(urls: &Vec<String>) -> (r: Result<String, BiliMangaError>)
    ensures
        r is Ok,
        r matches Ok(b) ==> b@ == urls_body(json_of_string(json_array(views_of(urls@)))),
{
    let inner = match strings_to_json(urls) {
        Ok(s) => s,
        Err(e) => return Err(BiliMangaError::ParseJsonError(e)),
    };
    let literal = match string_to_json(inner.as_str()) {
        Ok(s) => s,
        Err(e) => return Err(BiliMangaError::ParseJsonError(e)),
    };
    Ok(token_request_body(literal.as_str()))
}

/// The address of an episode's encrypted manifest: host, then path.
pub fn index_url(detail: &EpisodeDetail) -> (r: String)
    ensures
        r@ == detail.host@ + detail.path@,
{
    let mut url = detail.host.clone();
    url.append(detail.path.as_str());
    url
}

/// The address of an image with its token as the `token` query parameter.
pub open spec fn signed_url(t: ImageToken) -> Seq<char> {
    t.url@ + seq!['?', 't', 'o', 'k', 'e', 'n', '='] + t.token@
}

/// The address at which one image is fetched.
pub fn signed_image_url(t: &ImageToken) -> (r: String)
    ensures
        r@ == signed_url(*t),
{
    let mut url = t.url.clone();
    url.append("?token=");
    url.append(t.token.as_str());
    proof {
        reveal_strlit("?token=");
    }
    assert(url@ =~= signed_url(*t));
    url
}

/// One image to fetch: where from, and the page index that names its file.
#[derive(Debug, Clone)]
pub struct AssetJob {
    pub index: usize,
    pub url: String,
}

/// One job per token, in the tokens' order: job i fetches token i's
/// signed address into the file of page i.
pub open spec fn jobs_follow(tokens: Seq<ImageToken>, jobs: Seq<AssetJob>) -> bool {
    &&& jobs.len() == tokens.len()
    &&& forall|i: int|
        0 <= i < jobs.len() ==> (#[trigger] jobs[i]).index == i && jobs[i].url@ == signed_url(
            tokens[i],
        )
}

/// The downloads of an episode, one per token, in the tokens' order: the
/// i-th token is fetched into the file of page i.
pub fn asset_jobs(tokens: &Vec<ImageToken>) -> (r: Vec<AssetJob>)
    ensures
        jobs_follow(tokens@, r@),
{
    let mut jobs: Vec<AssetJob> = Vec::new();
    let mut i: usize = 0;
    while i < tokens.len()
        invariant
            i <= tokens@.len(),
            jobs@.len() == i,
            forall|j: int|
                0 <= j < i ==> (#[trigger] jobs@[j]).index == j && jobs@[j].url@ == signed_url(
                    tokens@[j],
                ),
        decreases tokens@.len() - i,
    {
        let url = signed_image_url(&tokens[i]);
        jobs.push(AssetJob { index: i, url });
        i = i + 1;
    }
    assert(jobs_follow(tokens@, jobs@));
    jobs
}

} // verus!
