//! Resolution of a comic's numeric id from its URL.

use vstd::prelude::*;
use vstd::string::*;
use crate::error::BiliMangaError;

verus! {

/// Whether `url::Url::parse` accepts the text.
pub uninterp spec fn url_parses(s: Seq<char>) -> bool;

/// Relies on `url::Url::parse`: whether the text is a well-formed absolute
/// URL depends on the text alone. The parsed value itself is not kept.
#[verifier::external_body]
fn check_url(s: &str) -> (r: Result<(), url::ParseError>)
    ensures
        r is Ok <==> url_parses(s@),
{
    url::Url::parse(s).map(|_| ())
}

/// Whether every character is an ASCII digit.
pub open spec fn all_digits(s: Seq<char>) -> bool {
    forall|i: int| 0 <= i < s.len() ==> '0' <= #[trigger] s[i] <= '9'
}

/// The value of a string of decimal digits.
pub open spec fn digits_value(s: Seq<char>) -> int
    decreases s.len(),
{
    if s.len() == 0 {
        0
    } else {
        digits_value(s.drop_last()) * 10 + (s.last() as int - '0' as int)
    }
}

/// The value of an optional `+` or `-` followed by at least one decimal
/// digit, when it fits in an `i64`; `None` for any other text.
pub open spec fn decimal_i64(s: Seq<char>) -> Option<int> {
    let signed = s.len() > 0 && (s[0] == '+' || s[0] == '-');
    let body = if signed { s.drop_first() } else { s };
    let v = if signed && s[0] == '-' { -digits_value(body) } else { digits_value(body) };
    if body.len() == 0 || !all_digits(body) || v < i64::MIN || v > i64::MAX {
        None
    } else {
        Some(v)
    }
}

/// Relies on `i64::from_str`: an optional sign followed by decimal digits,
/// within range, is accepted with its value; anything else is an error.
#[verifier::external_body]
fn parse_i64(s: &str) -> (r: Result<i64, core::num::ParseIntError>)
    ensures
        match r {
            Ok(v) => decimal_i64(s@) == Some(v as int),
            Err(_) => decimal_i64(s@) is None,
        },
{
    s.parse::<i64>()
}

/// The text after the last `/` (all of it when there is none).
pub open spec fn last_segment(s: Seq<char>) -> Seq<char>
    decreases s.len(),
{
    if s.len() == 0 {
        s
    } else if s.last() == '/' {
        Seq::empty()
    } else {
        last_segment(s.drop_last()).push(s.last())
    }
}

/// The text up to its query or fragment: everything before the first `?`
/// or `#`.
pub open spec fn before_query(s: Seq<char>) -> Seq<char>
    decreases s.len(),
{
    if s.len() == 0 {
        s
    } else if s[0] == '?' || s[0] == '#' {
        Seq::empty()
    } else {
        seq![s[0]] + before_query(s.drop_first())
    }
}

/// The text without its leading `mc`, when it has one.
pub open spec fn strip_mc_prefix(s: Seq<char>) -> Seq<char> {
    if s.len() >= 2 && s[0] == 'm' && s[1] == 'c' {
        s.subrange(2, s.len() as int)
    } else {
        s
    }
}

/// The comic id that a URL names: the last segment of its path, without a
/// leading `mc`, read as a decimal integer.
pub open spec fn manga_id_of(url: Seq<char>) -> Option<int> {
    decimal_i64(strip_mc_prefix(last_segment(before_query(url))))
}

proof fn lemma_before_query_prefix(s: Seq<char>, i: int)
    requires
        0 <= i <= s.len(),
        forall|j: int| 0 <= j < i ==> s[j] != '?' && s[j] != '#',
        i == s.len() || s[i] == '?' || s[i] == '#',
    ensures
        before_query(s) == s.subrange(0, i),
    decreases s.len(),
{
    if i == 0 {
        assert(s.subrange(0, 0) =~= Seq::<char>::empty());
    } else {
        lemma_before_query_prefix(s.drop_first(), i - 1);
        assert(s.subrange(0, i) =~= seq![s[0]] + s.drop_first().subrange(0, i - 1));
    }
}

proof fn lemma_last_segment_suffix(s: Seq<char>, i: int)
    requires
        0 <= i <= s.len(),
        forall|j: int| i <= j < s.len() ==> s[j] != '/',
        i == 0 || s[i - 1] == '/',
    ensures
        last_segment(s) == s.subrange(i, s.len() as int),
    decreases s.len(),
{
    if s.len() == i {
        assert(s.subrange(i, s.len() as int) =~= Seq::<char>::empty());
    } else {
        lemma_last_segment_suffix(s.drop_last(), i);
        assert(s.subrange(i, s.len() as int) =~= s.drop_last().subrange(i, s.len() - 1).push(
            s.last(),
        ));
    }
}

/// The last `/`-separated segment of the text.
pub fn last_path_segment(url: &str) -> (r: String)
    ensures
        r@ == last_segment(url@),
{
    let n = url.unicode_len();
    let mut i: usize = n;
    while i > 0 && url.get_char(i - 1) != '/'
        invariant
            n == url@.len(),
            i <= n,
            forall|j: int| i <= j < n ==> url@[j] != '/',
        decreases i,
    {
        i = i - 1;
    }
    proof {
        lemma_last_segment_suffix(url@, i as int);
    }
    String::from_str(url.substring_char(i, n))
}

/// The text of a URL before its query or fragment.
pub fn path_part(url: &str) -> (r: String)
    ensures
        r@ == before_query(url@),
{
    let n = url.unicode_len();
    let mut i: usize = 0;
    while i < n && url.get_char(i) != '?' && url.get_char(i) != '#'
        invariant
            n == url@.len(),
            i <= n,
            forall|j: int| 0 <= j < i ==> url@[j] != '?' && url@[j] != '#',
        decreases n - i,
    {
        i = i + 1;
    }
    proof {
        lemma_before_query_prefix(url@, i as int);
    }
    String::from_str(url.substring_char(0, i))
}

/// The text without its leading `mc`, when it has one.
pub fn remove_mc_prefix(s: &str) -> (r: String)
    ensures
        r@ == strip_mc_prefix(s@),
{
    let n = s.unicode_len();
    if n >= 2 && s.get_char(0) == 'm' && s.get_char(1) == 'c' {
        String::from_str(s.substring_char(2, n))
    } else {
        assert(s@.subrange(0, n as int) =~= s@);
        String::from_str(s.substring_char(0, n))
    }
}

/// Reads the comic id from the last segment of a URL's path, after removing
/// a leading `mc`.
pub fn parse_manga_id(url: &str) -> (r: Result<i64, core::num::ParseIntError>)
    ensures
        match r {
            Ok(v) => manga_id_of(url@) == Some(v as int),
            Err(_) => manga_id_of(url@) is None,
        },
{
    let path = path_part(url);
    let segment = last_path_segment(path.as_str());
    let digits = remove_mc_prefix(segment.as_str());
    parse_i64(digits.as_str())
}

/// The comic id that a comic URL names. The URL must be well formed; the
/// last segment of its path, without a leading `mc`, must be a decimal
/// integer.
pub fn get_manga_id(url: String) -> (r: Result<i64, BiliMangaError>)
    ensures
        match r {
            Ok(v) => url_parses(url@) && manga_id_of(url@) == Some(v as int),
            Err(BiliMangaError::ParseUrlError(_)) => !url_parses(url@),
            Err(BiliMangaError::ParseIntError(_)) => url_parses(url@) && manga_id_of(url@) is None,
            Err(_) => false,
        },
{
    match check_url(url.as_str()) {
        Err(e) => Err(BiliMangaError::ParseUrlError(e)),
        Ok(()) => match parse_manga_id(url.as_str()) {
            Ok(v) => Ok(v),
            Err(e) => Err(BiliMangaError::ParseIntError(e)),
        },
    }
}

} // verus!
