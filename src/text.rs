//! Decimal text of integers, and the small bodies and names built from it.

use vstd::prelude::*;
use vstd::string::*;

verus! {

/// The ten decimal digits in order.
pub open spec fn digit_chars() -> Seq<char> {
    seq!['0', '1', '2', '3', '4', '5', '6', '7', '8', '9']
}

/// The decimal digits of a natural number, most significant first, without
/// leading zeros.
pub open spec fn decimal_digits(n: nat) -> Seq<char>
    decreases n,
{
    if n < 10 {
        seq![digit_chars()[n as int]]
    } else {
        decimal_digits(n / 10) + seq![digit_chars()[(n % 10) as int]]
    }
}

/// The decimal text of an integer, with a leading `-` when it is negative.
pub open spec fn decimal_text(n: int) -> Seq<char> {
    if n < 0 {
        seq!['-'] + decimal_digits((-n) as nat)
    } else {
        decimal_digits(n as nat)
    }
}

fn digit_str(d: u64) -> (r: &'static str)
    requires
        d < 10,
    ensures
        r@ == seq![digit_chars()[d as int]],
{
    let all = "0123456789";
    proof {
        reveal_strlit("0123456789");
    }
    assert(all@ =~= digit_chars());
    let r = all.substring_char(d as usize, d as usize + 1);
    assert(r@ =~= seq![digit_chars()[d as int]]);
    r
}

fn append_digits(out: &mut String, n: u64)
    ensures
        final(out)@ == old(out)@ + decimal_digits(n as nat),
    decreases n,
{
    if n >= 10 {
        append_digits(out, n / 10);
    }
    out.append(digit_str(n % 10));
    assert(final(out)@ =~= old(out)@ + decimal_digits(n as nat));
}

fn append_decimal(out: &mut String, n: i64)
    ensures
        final(out)@ == old(out)@ + decimal_text(n as int),
{
    if n < 0 {
        out.append("-");
        proof {
            reveal_strlit("-");
        }
        let mag: u64 = (0i128 - n as i128) as u64;
        append_digits(out, mag);
        assert(final(out)@ =~= old(out)@ + decimal_text(n as int));
    } else {
        append_digits(out, n as u64);
    }
}

/// The decimal text of an integer.
pub fn decimal_string(n: i64) -> (r: String)
    ensures
        r@ == decimal_text(n as int),
{
    let mut s = String::new();
    append_decimal(&mut s, n);
    assert(s@ =~= decimal_text(n as int));
    s
}

/// The name of the file that holds the image of page `index`.
pub open spec fn image_file_name(index: nat) -> Seq<char> {
    decimal_digits(index) + seq!['.', 'j', 'p', 'g']
}

/// The file name of page `index`: its decimal text and `.jpg`.
pub fn asset_file_name(index: usize) -> (r: String)
    ensures
        r@ == image_file_name(index as nat),
{
    let mut s = String::new();
    append_digits(&mut s, index as u64);
    s.append(".jpg");
    proof {
        reveal_strlit(".jpg");
    }
    assert(s@ =~= image_file_name(index as nat));
    s
}

/// A JSON object with one integer member, as the service's requests take it.
pub open spec fn id_body(key: Seq<char>, id: int) -> Seq<char> {
    seq!['{', '"'] + key + seq!['"', ':'] + decimal_text(id) + seq!['}']
}

/// The body of a comic detail request: `{"comic_id":<id>}`.
pub fn detail_request_body(manga_id: i64) -> (r: String)
    ensures
        r@ == id_body(seq!['c', 'o', 'm', 'i', 'c', '_', 'i', 'd'], manga_id as int),
{
    let mut s = String::from_str("{\"comic_id\":");
    append_decimal(&mut s, manga_id);
    s.append("}");
    proof {
        reveal_strlit("{\"comic_id\":");
        reveal_strlit("}");
    }
    assert(s@ =~= id_body(seq!['c', 'o', 'm', 'i', 'c', '_', 'i', 'd'], manga_id as int));
    s
}

/// The body of an episode index request: `{"ep_id":<id>}`.
pub fn index_request_body(episode_id: i64) -> (r: String)
    ensures
        r@ == id_body(seq!['e', 'p', '_', 'i', 'd'], episode_id as int),
{
    let mut s = String::from_str("{\"ep_id\":");
    append_decimal(&mut s, episode_id);
    s.append("}");
    proof {
        reveal_strlit("{\"ep_id\":");
        reveal_strlit("}");
    }
    assert(s@ =~= id_body(seq!['e', 'p', '_', 'i', 'd'], episode_id as int));
    s
}

} // verus!
