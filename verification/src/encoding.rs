//! Text encodings of bytes (hex, base58, UTF-8) and SHA-256, backed by the outside crates.
use sha2::Digest;
use vstd::prelude::*;
use vstd::string::*;
use vstd::utf8::*;

verus! {

/// SHA-256 of `data` (computed by the `sha2` crate).
pub uninterp spec fn sha256(data: Seq<u8>) -> Seq<u8>;

/// SHA-256 digest of `data` (32 bytes).
#[verifier::external_body]
pub fn sha256_digest(data: &[u8]) -> (r: Vec<u8>)
    ensures
        r@ == sha256(data@),
        r@.len() == 32,
{
    let mut hasher = sha2::Sha256::new();
    hasher.update(data);
    hasher.finalize().to_vec()
}

/// The lowercase hexadecimal digit of `n` (`n < 16`).
pub open spec fn hex_digit(n: nat) -> char {
    if n < 10 {
        ((n + 48) as u32) as char
    } else {
        ((n - 10 + 97) as u32) as char
    }
}

/// Lowercase hex text of `b`: two digits per byte, high nibble first.
pub open spec fn hex_text(b: Seq<u8>) -> Seq<char> {
    Seq::new(
        2 * b.len(),
        |i: int| if i % 2 == 0 {
            hex_digit((b[i / 2] / 16) as nat)
        } else {
            hex_digit((b[i / 2] % 16) as nat)
        },
    )
}

/// Lowercase hex encoding of `data` (`hex::encode`).
#[verifier::external_body]
pub(crate) fn hex_encode(data: &[u8]) -> (r: String)
    ensures
        r@ == hex_text(data@),
{
    hex::encode(data)
}

/// Value of a hex digit byte (`0-9`, `a-f`, `A-F`).
pub open spec fn hex_value(c: u8) -> Option<u8> {
    if 48 <= c <= 57 {
        Some((c - 48) as u8)
    } else if 97 <= c <= 102 {
        Some((c - 97 + 10) as u8)
    } else if 65 <= c <= 70 {
        Some((c - 65 + 10) as u8)
    } else {
        None
    }
}

/// Bytes denoted by hex text `s` (as bytes): even length and hex digits only.
pub open spec fn hex_bytes(s: Seq<u8>) -> Option<Seq<u8>> {
    if s.len() % 2 != 0 {
        None
    } else if exists|i: int| 0 <= i < s.len() && #[trigger] hex_value(s[i]) is None {
        None
    } else {
        Some(Seq::new(
            s.len() / 2,
            |i: int| (hex_value(s[2 * i]).unwrap() * 16 + hex_value(s[2 * i + 1]).unwrap()) as u8,
        ))
    }
}

/// Decode hex text (`hex::decode`); the error carries the crate's description.
#[verifier::external_body]
pub(crate) fn hex_decode(s: &str) -> (r: Result<Vec<u8>, String>)
    ensures
        r is Ok <==> hex_bytes(s.spec_bytes()) is Some,
        r matches Ok(v) ==> v@ == hex_bytes(s.spec_bytes()).unwrap(),
{
    hex::decode(s).map_err(|e| e.to_string())
}

/// Bytes denoted by base58 (Bitcoin alphabet) text `s`, as decoded by the `bs58` crate.
pub uninterp spec fn base58_bytes(s: Seq<char>) -> Option<Seq<u8>>;

/// Decode base58 text (`bs58::decode(..).into_vec()`); the error carries the crate's description.
#[verifier::external_body]
pub(crate) fn bs58_decode(s: &str) -> (r: Result<Vec<u8>, String>)
    ensures
        r is Ok <==> base58_bytes(s@) is Some,
        r matches Ok(v) ==> v@ == base58_bytes(s@).unwrap(),
{
    bs58::decode(s).into_vec().map_err(|e| e.to_string())
}

/// ASCII lowercase of one character; other characters unchanged.
pub open spec fn ascii_lower(c: char) -> char {
    if 'A' <= c <= 'Z' {
        ((c as u32) + 32) as char
    } else {
        c
    }
}

/// Unicode lowercase of `s`, as computed by `str::to_lowercase`.
pub uninterp spec fn lowercase(s: Seq<char>) -> Seq<char>;

/// `str::to_lowercase`; on ASCII text it lowers `A-Z` and keeps every other character.
#[verifier::external_body]
pub(crate) fn to_lowercase(s: &str) -> (r: String)
    ensures
        r@ == lowercase(s@),
        is_ascii_chars(s@) ==> r@ == s@.map_values(|c: char| ascii_lower(c)),
{
    s.to_lowercase()
}

/// Unicode `White_Space` characters.
pub open spec fn is_white_space(c: char) -> bool {
    ('\u{9}' <= c <= '\u{d}') || c == ' ' || c == '\u{85}' || c == '\u{a0}' || c == '\u{1680}' || (
    '\u{2000}' <= c <= '\u{200a}') || c == '\u{2028}' || c == '\u{2029}' || c == '\u{202f}' || c
        == '\u{205f}' || c == '\u{3000}'
}

/// `s` without its leading white space.
pub open spec fn trim_start_chars(s: Seq<char>) -> Seq<char>
    decreases s.len(),
{
    if s.len() > 0 && is_white_space(s[0]) {
        trim_start_chars(s.drop_first())
    } else {
        s
    }
}

/// `s` without its trailing white space.
pub open spec fn trim_end_chars(s: Seq<char>) -> Seq<char>
    decreases s.len(),
{
    if s.len() > 0 && is_white_space(s.last()) {
        trim_end_chars(s.drop_last())
    } else {
        s
    }
}

/// `s` without leading and trailing white space.
pub open spec fn trim_chars(s: Seq<char>) -> Seq<char> {
    trim_end_chars(trim_start_chars(s))
}

/// `str::trim`: removes leading and trailing Unicode white space.
#[verifier::external_body]
pub(crate) fn trim(s: &str) -> (r: &str)
    ensures
        r@ == trim_chars(s@),
{
    s.trim()
}

/// Whether `prefix` starts `s`, character by character.
pub fn starts_with_chars(s: &str, prefix: &str) -> (r: bool)
    ensures
        r == prefix@.is_prefix_of(s@),
{
    let n = prefix.unicode_len();
    let m = s.unicode_len();
    if n > m {
        return false;
    }
    let mut i: usize = 0;
    while i < n
        invariant
            n == prefix@.len(),
            m == s@.len(),
            n <= m,
            i <= n,
            forall|j: int| 0 <= j < i ==> prefix@[j] == s@[j],
        decreases n - i,
    {
        if prefix.get_char(i) != s.get_char(i) {
            proof {
                assert(s@.subrange(0, n as int)[i as int] == s@[i as int]);
            }
            return false;
        }
        i = i + 1;
    }
    proof {
        assert(prefix@ =~= s@.subrange(0, n as int));
    }
    true
}

/// The characters of `s` from position `from` on.
pub fn skip_chars(s: &str, from: usize) -> (r: &str)
    requires
        from <= s@.len(),
    ensures
        r@ == s@.skip(from as int),
{
    let n = s.unicode_len();
    s.substring_char(from, n)
}

/// A 32-byte array holding `v`.
pub fn to_array32(v: &Vec<u8>) -> (r: [u8; 32])
    requires
        v@.len() == 32,
    ensures
        r@ == v@,
{
    let r = [
        v[0], v[1], v[2], v[3], v[4], v[5], v[6], v[7], v[8], v[9], v[10], v[11], v[12], v[13],
        v[14], v[15], v[16], v[17], v[18], v[19], v[20], v[21], v[22], v[23], v[24], v[25],
        v[26], v[27], v[28], v[29], v[30], v[31],
    ];
    proof {
        assert(r@ =~= v@);
    }
    r
}

/// A 64-byte array holding `v`.
pub fn to_array64(v: &Vec<u8>) -> (r: [u8; 64])
    requires
        v@.len() == 64,
    ensures
        r@ == v@,
{
    let r = [
        v[0], v[1], v[2], v[3], v[4], v[5], v[6], v[7], v[8], v[9], v[10], v[11], v[12], v[13],
        v[14], v[15], v[16], v[17], v[18], v[19], v[20], v[21], v[22], v[23], v[24], v[25],
        v[26], v[27], v[28], v[29], v[30], v[31], v[32], v[33], v[34], v[35], v[36], v[37],
        v[38], v[39], v[40], v[41], v[42], v[43], v[44], v[45], v[46], v[47], v[48], v[49],
        v[50], v[51], v[52], v[53], v[54], v[55], v[56], v[57], v[58], v[59], v[60], v[61],
        v[62], v[63],
    ];
    proof {
        assert(r@ =~= v@);
    }
    r
}

/// Hex text is ASCII and already lowercase.
pub proof fn lemma_hex_text_lower(b: Seq<u8>)
    ensures
        is_ascii_chars(hex_text(b)),
        hex_text(b).map_values(|c: char| ascii_lower(c)) == hex_text(b),
{
    let h = hex_text(b);
    assert forall|i: int| 0 <= i < h.len() implies (h[i] as u32) < 128 && ascii_lower(h[i]) == h[i] by {
        let n: nat = if i % 2 == 0 { (b[i / 2] / 16) as nat } else { (b[i / 2] % 16) as nat };
        assert(h[i] == hex_digit(n));
        assert(n < 16);
    }
    assert(h.map_values(|c: char| ascii_lower(c)) =~= h);
}

/// Hex text decodes back to its bytes.
pub proof fn lemma_hex_roundtrip(b: Seq<u8>)
    ensures
        hex_bytes(encode_utf8(hex_text(b))) == Some(b),
{
    let h = hex_text(b);
    lemma_hex_text_lower(b);
    is_ascii_chars_encode_utf8(h);
    let e = encode_utf8(h);
    assert forall|i: int| 0 <= i < e.len() implies #[trigger] hex_value(e[i]) == Some(
        (if i % 2 == 0 { b[i / 2] / 16 } else { b[i / 2] % 16 }) as u8,
    ) by {
        let n: nat = if i % 2 == 0 { (b[i / 2] / 16) as nat } else { (b[i / 2] % 16) as nat };
        assert(h[i] == hex_digit(n));
        assert(e[i] == h[i] as u8);
    }
    assert(e.len() % 2 == 0);
    assert(!(exists|i: int| 0 <= i < e.len() && #[trigger] hex_value(e[i]) is None));
    let d = Seq::new(
        e.len() / 2,
        |i: int| (hex_value(e[2 * i]).unwrap() * 16 + hex_value(e[2 * i + 1]).unwrap()) as u8,
    );
    assert forall|i: int| 0 <= i < b.len() implies d[i] == b[i] by {
        assert(hex_value(e[2 * i]) == Some((b[i] / 16) as u8));
        assert(hex_value(e[2 * i + 1]) == Some((b[i] % 16) as u8));
    }
    assert(d =~= b);
}

} // verus!
