use vstd::prelude::*;

verus! {

/// The sixteen lowercase hexadecimal digits, in order of value.
pub open spec fn hex_digits() -> Seq<char> {
    seq!['0', '1', '2', '3', '4', '5', '6', '7', '8', '9', 'a', 'b', 'c', 'd', 'e', 'f']
}

/// The two lowercase digits of one byte, high nibble first.
pub open spec fn byte_hex(b: u8) -> Seq<char> {
    seq![hex_digits()[(b / 16) as int], hex_digits()[(b % 16) as int]]
}

/// Lowercase hexadecimal of a byte sequence: two digits per byte, no
/// separators.
pub open spec fn lower_hex(b: Seq<u8>) -> Seq<char>
    decreases b.len(),
{
    if b.len() == 0 {
        Seq::empty()
    } else {
        lower_hex(b.drop_last()) + byte_hex(b.last())
    }
}

/// Relies on `hex::encode`: each byte becomes its high then its low nibble,
/// written with the digits `0123456789abcdef`.
#[verifier::external_body]
fn hex_encode(b: &[u8]) -> (r: String)
    ensures
        r@ == lower_hex(b@),
{
    hex::encode(b)
}

/// Renders recovered key bytes as lowercase hexadecimal.
pub fn encode_key(key: &[u8]) -> (r: String)
    ensures
        r@ == lower_hex(key@),
        r@.len() == 2 * key@.len(),
{
    let r = hex_encode(key);
    proof {
        lemma_hex_len(key@);
    }
    r
}

/// The encoding holds exactly two characters per byte.
pub proof fn lemma_hex_len(b: Seq<u8>)
    ensures
        lower_hex(b).len() == 2 * b.len(),
    decreases b.len(),
{
    if b.len() > 0 {
        lemma_hex_len(b.drop_last());
    }
}

/// Two bytes with the same two digits are the same byte.
proof fn lemma_byte_hex_injective(x: u8, y: u8)
    requires
        byte_hex(x) == byte_hex(y),
    ensures
        x == y,
{
    let dx = byte_hex(x);
    let dy = byte_hex(y);
    assert(dx[0] == dy[0] && dx[1] == dy[1]);
    assert((x / 16) as int == (y / 16) as int);
    assert((x % 16) as int == (y % 16) as int);
}

/// The encoding of a byte sequence is determined by the bytes and
/// determines them back: two keys encode alike exactly when they are equal,
/// and the text is twice as long as the key.
pub proof fn lemma_hex_encoding_law(a: Seq<u8>, b: Seq<u8>)
    ensures
        lower_hex(a).len() == 2 * a.len(),
        (lower_hex(a) == lower_hex(b)) <==> (a == b),
    decreases a.len(),
{
    lemma_hex_len(a);
    lemma_hex_len(b);
    if lower_hex(a) == lower_hex(b) && a.len() > 0 {
        let (ha, hb) = (lower_hex(a), lower_hex(b));
        let n = ha.len() as int;
        lemma_hex_len(a.drop_last());
        lemma_hex_len(b.drop_last());
        assert(ha.subrange(0, n - 2) == lower_hex(a.drop_last()));
        assert(hb.subrange(0, n - 2) == lower_hex(b.drop_last()));
        assert(ha.subrange(n - 2, n) == byte_hex(a.last()));
        assert(hb.subrange(n - 2, n) == byte_hex(b.last()));
        lemma_byte_hex_injective(a.last(), b.last());
        lemma_hex_encoding_law(a.drop_last(), b.drop_last());
        assert(a =~= a.drop_last().push(a.last()));
        assert(b =~= b.drop_last().push(b.last()));
    } else if lower_hex(a) == lower_hex(b) {
        assert(a =~= b);
    }
}

} // verus!
