//! The keyed XOR transform that protects an episode's image manifest.

use vstd::prelude::*;

verus! {

/// Length in bytes of the preamble that precedes the encrypted manifest.
pub const PREAMBLE_LEN: usize = 9;

/// Length in bytes of the repeating key.
pub const KEY_LEN: usize = 8;

/// The four little-endian bytes of a 32-bit value.
pub open spec fn le_bytes(v: u32) -> Seq<u8> {
    seq![
        (v % 256) as u8,
        (v / 256 % 256) as u8,
        (v / 65536 % 256) as u8,
        (v / 16777216) as u8,
    ]
}

/// The key for an episode: the low 32 bits of the episode id, then the low
/// 32 bits of the comic id, each little-endian.
pub open spec fn key_of(episode_id: i64, manga_id: i64) -> Seq<u8> {
    le_bytes(episode_id as u32) + le_bytes(manga_id as u32)
}

/// Each byte XORed with the key byte at its position modulo the key length.
pub open spec fn xor_with_key(data: Seq<u8>, key: Seq<u8>) -> Seq<u8>
    recommends
        key.len() > 0,
{
    Seq::new(data.len(), |i: int| data[i] ^ key[i % key.len() as int])
}

fn le_bytes_into(v: u32, out: &mut Vec<u8>)
    ensures
        final(out)@ == old(out)@ + le_bytes(v),
{
    out.push((v % 256) as u8);
    out.push((v / 256 % 256) as u8);
    out.push((v / 65536 % 256) as u8);
    out.push((v / 16777216) as u8);
    assert(final(out)@ =~= old(out)@ + le_bytes(v));
}

/// Derives the repeating key from an episode id and a comic id.
pub fn index_key(episode_id: i64, manga_id: i64) -> (key: Vec<u8>)
    ensures
        key@ == key_of(episode_id, manga_id),
        key@.len() == KEY_LEN,
{
    let mut key: Vec<u8> = Vec::new();
    #[verifier::truncate]
    let e: u32 = episode_id as u32;
    #[verifier::truncate]
    let m: u32 = manga_id as u32;
    le_bytes_into(e, &mut key);
    le_bytes_into(m, &mut key);
    assert(key@ =~= key_of(episode_id, manga_id));
    key
}

/// Decrypts (or, equally, encrypts) `encoded_data` in place with the key of
/// the given episode and comic.
pub fn decode_index(encoded_data: &mut Vec<u8>, episode_id: i64, manga_id: i64)
    ensures
        final(encoded_data)@ == xor_with_key(old(encoded_data)@, key_of(episode_id, manga_id)),
{
    let key = index_key(episode_id, manga_id);
    let n = encoded_data.len();
    let mut i: usize = 0;
    while i < n
        invariant
            key@ == key_of(episode_id, manga_id),
            key@.len() == KEY_LEN,
            n == old(encoded_data)@.len(),
            encoded_data@.len() == n,
            i <= n,
            forall|j: int| 0 <= j < i ==> encoded_data@[j] == old(encoded_data)@[j] ^ key@[j % 8],
            forall|j: int| i <= j < n ==> encoded_data@[j] == old(encoded_data)@[j],
        decreases n - i,
    {
        let b = encoded_data[i] ^ key[i % KEY_LEN];
        encoded_data.set(i, b);
        i = i + 1;
    }
    assert(encoded_data@ =~= xor_with_key(old(encoded_data)@, key_of(episode_id, manga_id)));
}

/// Applying the transform twice with one key gives the input back.
pub proof fn lemma_decode_involution(episode_id: i64, manga_id: i64, data: Seq<u8>)
    ensures
        xor_with_key(xor_with_key(data, key_of(episode_id, manga_id)), key_of(episode_id, manga_id))
            == data,
{
    let key = key_of(episode_id, manga_id);
    let once = xor_with_key(data, key);
    let twice = xor_with_key(once, key);
    assert forall|i: int| 0 <= i < data.len() implies twice[i] == data[i] by {
        let a = data[i];
        let k = key[i % 8];
        assert((a ^ k) ^ k == a) by (bit_vector);
    }
    assert(twice =~= data);
}

/// The payload after the preamble, decrypted with the episode's key. Returns
/// `None` when the input is shorter than the preamble.
pub fn decrypt_payload(raw: &Vec<u8>, episode_id: i64, manga_id: i64) -> (r: Option<Vec<u8>>)
    ensures
        raw@.len() < PREAMBLE_LEN <==> r is None,
        r matches Some(v) ==> v@ == xor_with_key(
            raw@.subrange(PREAMBLE_LEN as int, raw@.len() as int),
            key_of(episode_id, manga_id),
        ),
{
    if raw.len() < PREAMBLE_LEN {
        return None;
    }
    let mut body: Vec<u8> = Vec::new();
    let mut i: usize = PREAMBLE_LEN;
    while i < raw.len()
        invariant
            PREAMBLE_LEN <= i <= raw@.len(),
            body@ == raw@.subrange(PREAMBLE_LEN as int, i as int),
        decreases raw@.len() - i,
    {
        body.push(raw[i]);
        i = i + 1;
        assert(body@ =~= raw@.subrange(PREAMBLE_LEN as int, i as int));
    }
    decode_index(&mut body, episode_id, manga_id);
    Some(body)
}

} // verus!
