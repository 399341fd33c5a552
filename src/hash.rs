use vstd::prelude::*;

verus! {

/// The Keccak-256 digest of the UTF-8 bytes of a text, as lower-case hex.
pub uninterp spec fn keccak256_hex(text: Seq<char>) -> Seq<char>;

pub open spec fn is_lower_hex_digit(c: char) -> bool {
    ('0' <= c && c <= '9') || ('a' <= c && c <= 'f')
}

/// Relies on sha3::Keccak256::digest of the text's bytes, written out through
/// generic_array's LowerHex: 32 bytes give 64 lower-case hex digits.
#[verifier::external_body]
pub(crate) fn keccak256_hash_string(from: &str) -> (r: String)
    ensures
        r@ == keccak256_hex(from@),
        r@.len() == 64,
        forall|k: int| 0 <= k < 64 ==> is_lower_hex_digit(#[trigger] r@[k]),
{
    format!("{:x}", <sha3::Keccak256 as sha3::Digest>::digest(from.as_bytes()))
}

/// The content address of a token: the digest of its contract id followed by
/// its token id, with nothing between them.
pub open spec fn token_address(contract_id: Seq<char>, token_id: Seq<char>) -> Seq<char> {
    keccak256_hex(contract_id + token_id)
}

/// The content address of token `token_id` of contract `contract_id`.
pub fn token_hash(contract_id: &str, token_id: &str) -> (r: String)
    ensures
        r@ == token_address(contract_id@, token_id@),
        r@.len() == 64,
        forall|k: int| 0 <= k < 64 ==> is_lower_hex_digit(#[trigger] r@[k]),
{
    let mut joined = String::from_str(contract_id);
    joined.append(token_id);
    keccak256_hash_string(joined.as_str())
}

/// The content address is a function of the two ids: the same pair always
/// gives the same address.
pub proof fn lemma_token_address_stable(c1: Seq<char>, t1: Seq<char>, c2: Seq<char>, t2: Seq<char>)
    requires
        c1 == c2,
        t1 == t2,
    ensures
        token_address(c1, t1) == token_address(c2, t2),
{
}

/// Within one contract, distinct token ids are hashed from distinct texts, so
/// their addresses differ unless Keccak-256 itself collides.
pub proof fn lemma_digest_input_distinct_in_contract(c: Seq<char>, t1: Seq<char>, t2: Seq<char>)
    requires
        t1 != t2,
    ensures
        c + t1 != c + t2,
{
    if c + t1 == c + t2 {
        assert(t1 =~= (c + t1).subrange(c.len() as int, (c + t1).len() as int));
        assert(t2 =~= (c + t2).subrange(c.len() as int, (c + t2).len() as int));
    }
}

/// Across contracts the ids are joined with no separator, so two different
/// pairs can share an address: ("ab", "c") and ("a", "bc") do.
pub proof fn lemma_joined_pairs_can_share_address()
    ensures
        token_address(seq!['a', 'b'], seq!['c']) == token_address(seq!['a'], seq!['b', 'c']),
{
    assert(seq!['a', 'b'] + seq!['c'] =~= seq!['a'] + seq!['b', 'c']);
}

} // verus!
