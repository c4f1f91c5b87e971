//! SHA-256 content identities in their canonical text form.
use crate::text;
use sha2::Digest;
use vstd::prelude::*;
use vstd::string::*;

verus! {

/// The SHA-256 hash of `bytes`.
pub uninterp spec fn sha256(bytes: Seq<u8>) -> Seq<u8>;

/// `sha2::Sha256::digest` hashes the whole input at once; the hash has 32 bytes.
#[verifier::external_body]
fn sha256_of(bytes: &[u8]) -> (r: Vec<u8>)
    ensures
        r@ == sha256(bytes@),
        r@.len() == 32,
{
    sha2::Sha256::digest(bytes).to_vec()
}

/// The algorithm prefix of every digest.
pub open spec fn prefix() -> Seq<char> {
    seq!['s', 'h', 'a', '2', '5', '6', ':']
}

pub open spec fn lower_hex(c: char) -> bool {
    '0' <= c <= '9' || 'a' <= c <= 'f'
}

/// `sha256:` and 64 lowercase hexadecimal digits.
pub open spec fn canonical(s: Seq<char>) -> bool {
    &&& s.len() == 71
    &&& s.take(7) == prefix()
    &&& forall|i: int| 7 <= i < 71 ==> lower_hex(#[trigger] s[i])
}

pub open spec fn hex_digit(d: int) -> char {
    if d < 10 {
        ('0' as int + d) as char
    } else {
        ('a' as int + (d - 10)) as char
    }
}

/// Two lowercase hexadecimal digits for each byte.
pub open spec fn hex(bytes: Seq<u8>) -> Seq<char> {
    Seq::new(
        2 * bytes.len(),
        |i: int|
            if i % 2 == 0 {
                hex_digit(bytes[i / 2] as int / 16)
            } else {
                hex_digit(bytes[i / 2] as int % 16)
            },
    )
}

/// The canonical text of the digest of `bytes`.
pub open spec fn digest_text(bytes: Seq<u8>) -> Seq<char> {
    prefix() + hex(sha256(bytes))
}

pub open spec fn hex_value(c: char) -> int {
    if c <= '9' {
        c as int - '0' as int
    } else {
        c as int - 'a' as int + 10
    }
}

/// The 32 bytes that a canonical text spells.
pub open spec fn raw(s: Seq<char>) -> Seq<u8> {
    Seq::new(32, |i: int| (16 * hex_value(s[7 + 2 * i]) + hex_value(s[8 + 2 * i])) as u8)
}

fn digit_of(d: u8) -> (r: char)
    requires
        d < 16,
    ensures
        r == hex_digit(d as int),
        lower_hex(r),
{
    if d < 10 {
        (48u8 + d) as char
    } else {
        (97u8 + (d - 10u8)) as char
    }
}

fn value_of(c: char) -> (r: u8)
    requires
        lower_hex(c),
    ensures
        r == hex_value(c),
        r < 16,
{
    if c <= '9' {
        ((c as u32) - 48u32) as u8
    } else {
        ((c as u32) - 87u32) as u8
    }
}

fn is_lower_hex(c: char) -> (r: bool)
    ensures
        r == lower_hex(c),
{
    ('0' <= c && c <= '9') || ('a' <= c && c <= 'f')
}

/// A SHA-256 digest, held as its canonical text.
#[derive(Debug, PartialEq, Eq)]
pub struct Sha256Digest {
    text: String,
}

impl View for Sha256Digest {
    type V = Seq<char>;

    closed spec fn view(&self) -> Seq<char> {
        self.text@
    }
}

impl Clone for Sha256Digest {
    fn clone(&self) -> (r: Self)
        ensures
            r == *self,
    {
        proof {
            use_type_invariant(self);
        }
        Sha256Digest { text: self.text.clone() }
    }
}

impl Sha256Digest {
    #[verifier::type_invariant]
    spec fn is_canonical(self) -> bool {
        canonical(self.text@)
    }

    /// Reads a canonical digest.
    pub fn parse(s: &str) -> (r: Option<Self>)
        ensures
            r is Some <==> canonical(s@),
            r matches Some(d) ==> d@ == s@,
    {
        let chars = text::chars_of(s);
        if chars.len() != 71 {
            return None;
        }
        let head = s.substring_char(0, 7);
        proof {
            reveal_strlit("sha256:");
            assert("sha256:"@ =~= prefix());
            assert(s@.subrange(0, 7) =~= s@.take(7));
        }
        if !text::same(head, "sha256:") {
            return None;
        }
        let mut i: usize = 7;
        while i < 71
            invariant
                7 <= i <= 71,
                chars@ == s@,
                chars@.len() == 71,
                forall|k: int| 7 <= k < i ==> lower_hex(#[trigger] s@[k]),
            decreases 71 - i,
        {
            if !is_lower_hex(chars[i]) {
                assert(!lower_hex(s@[i as int]));
                return None;
            }
            i += 1;
        }
        Some(Sha256Digest { text: s.to_owned() })
    }

    /// The digest of `bytes`.
    pub fn digest_bytes(bytes: &[u8]) -> (r: Self)
        ensures
            r@ == digest_text(bytes@),
    {
        let hash = sha256_of(bytes);
        Self::of_hash(hash.as_slice())
    }

    /// The digest that a hash of 32 bytes spells.
    pub fn of_hash(hash: &[u8]) -> (r: Self)
        requires
            hash@.len() == 32,
        ensures
            r@ == prefix() + hex(hash@),
    {
        let mut out = "sha256:".to_owned();
        proof {
            reveal_strlit("sha256:");
            assert(out@ =~= prefix());
            assert(out@ =~= prefix() + hex(hash@).take(0));
        }
        let mut i: usize = 0;
        while i < hash.len()
            invariant
                hash@.len() == 32,
                i <= 32,
                out@ == prefix() + hex(hash@).take(2 * i),
                out@.len() == 7 + 2 * i,
                forall|k: int| 7 <= k < out@.len() ==> lower_hex(#[trigger] out@[k]),
            decreases 32 - i,
        {
            let high = digit_of(hash[i] / 16);
            let low = digit_of(hash[i] % 16);
            let ghost shorter = out@;
            out.push(high);
            out.push(low);
            proof {
                let h = hex(hash@);
                assert(h[2 * i] == high);
                assert(h[2 * i + 1] == low);
                assert(h.take(2 * (i + 1)) =~= h.take(2 * i).push(high).push(low));
                assert(out@ =~= prefix() + h.take(2 * (i + 1)));
            }
            i += 1;
        }
        proof {
            assert(hex(hash@).take(64) =~= hex(hash@));
            assert(out@.take(7) =~= prefix());
        }
        Sha256Digest { text: out }
    }

    /// The canonical text.
    pub fn as_str(&self) -> (r: &str)
        ensures
            r@ == self@,
            canonical(r@),
    {
        proof {
            use_type_invariant(self);
        }
        self.text.as_str()
    }

    /// The 64 hexadecimal digits behind the prefix.
    pub fn hexadecimal(&self) -> (r: &str)
        ensures
            r@ == self@.skip(7),
            r@.len() == 64,
    {
        proof {
            use_type_invariant(self);
        }
        let r = self.text.as_str().substring_char(7, 71);
        assert(r@ =~= self@.skip(7));
        r
    }

    /// The 32 bytes of the hash.
    pub fn bytes(&self) -> (r: Vec<u8>)
        ensures
            r@ == raw(self@),
    {
        proof {
            use_type_invariant(self);
        }
        let chars = text::chars_of(self.text.as_str());
        let mut out: Vec<u8> = Vec::new();
        for i in 0..32usize
            invariant
                chars@ == self@,
                canonical(chars@),
                out@ == raw(self@).take(i as int),
        {
            let high = value_of(chars[7 + 2 * i]);
            let low = value_of(chars[8 + 2 * i]);
            out.push(16 * high + low);
            assert(out@ =~= raw(self@).take(i + 1));
        }
        assert(raw(self@).take(32) =~= raw(self@));
        out
    }

    /// Whether both digests name the same content.
    pub fn same(&self, other: &Self) -> (r: bool)
        ensures
            r == (self@ == other@),
    {
        text::same(self.text.as_str(), other.text.as_str())
    }
}

/// The bytes behind a digest's text are the hash that it was made from.
pub proof fn digests_spell_their_hash(bytes: Seq<u8>)
    requires
        sha256(bytes).len() == 32,
    ensures
        raw(digest_text(bytes)) == sha256(bytes),
{
    let s = digest_text(bytes);
    let hash = sha256(bytes);
    assert forall|i: int| 0 <= i < 32 implies raw(s)[i] == hash[i] by {
        assert(s[7 + 2 * i] == hex(hash)[2 * i]);
        assert(s[8 + 2 * i] == hex(hash)[2 * i + 1]);
        let b = hash[i] as int;
        assert(0 <= b / 16 < 16 && 0 <= b % 16 < 16 && 16 * (b / 16) + b % 16 == b);
    }
    assert(raw(s) =~= hash);
}

/// A digest of bytes has the canonical form.
pub proof fn digest_text_is_canonical(bytes: Seq<u8>)
    requires
        sha256(bytes).len() == 32,
    ensures
        canonical(digest_text(bytes)),
{
    let s = digest_text(bytes);
    assert(s.take(7) =~= prefix());
    assert forall|i: int| 7 <= i < 71 implies lower_hex(#[trigger] s[i]) by {
        assert(s[i] == hex(sha256(bytes))[i - 7]);
        let b = sha256(bytes)[(i - 7) / 2] as int;
        assert(0 <= b / 16 < 16 && 0 <= b % 16 < 16);
    }
}

proof fn same_pairs(a: char, b: char, c: char, d: char)
    requires
        lower_hex(a) && lower_hex(b) && lower_hex(c) && lower_hex(d),
        (16 * hex_value(a) + hex_value(b)) as u8 == (16 * hex_value(c) + hex_value(d)) as u8,
    ensures
        a == c,
        b == d,
{
    let x = 16 * hex_value(a) + hex_value(b);
    let y = 16 * hex_value(c) + hex_value(d);
    assert(0 <= x < 256 && 0 <= y < 256);
    assert(x == y);
    assert(hex_value(a) == hex_value(c) && hex_value(b) == hex_value(d));
}

/// A digest is its bytes: two digests with the same bytes are the same text.
pub proof fn digests_are_their_bytes(a: Seq<char>, b: Seq<char>)
    requires
        canonical(a),
        canonical(b),
        raw(a) == raw(b),
    ensures
        a == b,
{
    assert forall|i: int| 0 <= i < 71 implies a[i] == b[i] by {
        if i < 7 {
            assert(a.take(7)[i] == b.take(7)[i]);
        } else {
            let k = (i - 7) / 2;
            assert(0 <= k < 32);
            assert(raw(a)[k] == (16 * hex_value(a[7 + 2 * k]) + hex_value(a[8 + 2 * k])) as u8);
            assert(raw(b)[k] == (16 * hex_value(b[7 + 2 * k]) + hex_value(b[8 + 2 * k])) as u8);
            assert(raw(a)[k] == raw(b)[k]);
            assert(lower_hex(a[7 + 2 * k]) && lower_hex(a[8 + 2 * k]));
            assert(lower_hex(b[7 + 2 * k]) && lower_hex(b[8 + 2 * k]));
            same_pairs(a[7 + 2 * k], a[8 + 2 * k], b[7 + 2 * k], b[8 + 2 * k]);
        }
    }
    assert(a =~= b);
}

/// The text of a digest begins with the name of its hash and is 64 lower-case hexadecimal digits
/// behind it; anything else is no digest.
pub proof fn digests_are_spelled_one_way(s: Seq<char>, i: int)
    ensures
        s.len() != 71 ==> !canonical(s),
        canonical(s) ==> s[0] == 's' && s[1] == 'h' && s[2] == 'a' && s[3] == '2' && s[4] == '5'
            && s[5] == '6' && s[6] == ':',
        7 <= i < s.len() && ('A' <= s[i] <= 'F' || s[i] == ' ' || s[i] >= 'g') ==> !canonical(s),
        s.len() == 71 && s.take(7) == seq!['s', 'h', 'a', '2', '5', '6', ':'] && (forall|j: int|
            7 <= j < 71 ==> '0' <= #[trigger] s[j] <= '9') ==> canonical(s),
        s.len() == 71 && s.take(7) == seq!['s', 'h', 'a', '2', '5', '6', ':'] && (forall|j: int|
            7 <= j < 71 ==> 'a' <= #[trigger] s[j] <= 'f') ==> canonical(s),
{
    if canonical(s) {
        assert(s.take(7)[0] == 's' && s.take(7)[1] == 'h' && s.take(7)[2] == 'a' && s.take(7)[3]
            == '2' && s.take(7)[4] == '5' && s.take(7)[5] == '6' && s.take(7)[6] == ':');
        assert(7 <= i < 71 ==> lower_hex(s[i]));
    }
}

} // verus!
