//! The canonical binary layout of the chain's records: fixed-width little-endian integers,
//! `u64` length prefixes for text and bytes, a one-byte tag for optional values and a `u32`
//! index for enum variants. Hashes and signatures are taken over this layout.
use vstd::prelude::*;
use vstd::utf8::*;

verus! {

broadcast use vstd::string::group_string_axioms;

/// Little-endian bytes of a `u16`.
pub open spec fn enc_u16(x: u16) -> Seq<u8> {
    seq![(x & 0xff) as u8, ((x >> 8) & 0xff) as u8]
}

/// Little-endian bytes of a `u32`.
pub open spec fn enc_u32(x: u32) -> Seq<u8> {
    seq![(x & 0xff) as u8, ((x >> 8) & 0xff) as u8, ((x >> 16) & 0xff) as u8, ((x >> 24) & 0xff) as u8]
}

/// Little-endian bytes of a `u64`.
pub open spec fn enc_u64(x: u64) -> Seq<u8> {
    seq![
        (x & 0xff) as u8,
        ((x >> 8) & 0xff) as u8,
        ((x >> 16) & 0xff) as u8,
        ((x >> 24) & 0xff) as u8,
        ((x >> 32) & 0xff) as u8,
        ((x >> 40) & 0xff) as u8,
        ((x >> 48) & 0xff) as u8,
        ((x >> 56) & 0xff) as u8,
    ]
}

/// The `u64` whose little-endian bytes start `b` (which holds at least 8 bytes).
#[verifier::opaque]
pub open spec fn dec_u64(b: Seq<u8>) -> u64 {
    (b[0] as u64) | ((b[1] as u64) << 8u64) | ((b[2] as u64) << 16u64) | ((b[3] as u64) << 24u64)
        | ((b[4] as u64) << 32u64) | ((b[5] as u64) << 40u64) | ((b[6] as u64) << 48u64) | ((
    b[7] as u64) << 56u64)
}

/// Length-prefixed bytes.
pub open spec fn enc_bytes(b: Seq<u8>) -> Seq<u8> {
    enc_u64(b.len() as u64) + b
}

/// Length-prefixed UTF-8 text.
pub open spec fn enc_str(s: Seq<char>) -> Seq<u8> {
    enc_bytes(encode_utf8(s))
}

/// Optional text: tag 0, or tag 1 and the text.
pub open spec fn enc_opt_str(o: Option<Seq<char>>) -> Seq<u8> {
    match o {
        None => seq![0u8],
        Some(s) => seq![1u8] + enc_str(s),
    }
}

/// Optional bytes: tag 0, or tag 1 and the bytes.
pub open spec fn enc_opt_bytes(o: Option<Seq<u8>>) -> Seq<u8> {
    match o {
        None => seq![0u8],
        Some(b) => seq![1u8] + enc_bytes(b),
    }
}

/// Optional `u64`: tag 0, or tag 1 and the number.
pub open spec fn enc_opt_u64(o: Option<u64>) -> Seq<u8> {
    match o {
        None => seq![0u8],
        Some(x) => seq![1u8] + enc_u64(x),
    }
}

/// Optional `u8`: tag 0, or tag 1 and the byte.
pub open spec fn enc_opt_u8(o: Option<u8>) -> Seq<u8> {
    match o {
        None => seq![0u8],
        Some(x) => seq![1u8, x],
    }
}

/// Append a `u16`.
pub fn put_u16(out: &mut Vec<u8>, x: u16)
    ensures
        final(out)@ == old(out)@ + enc_u16(x),
{
    out.push((x & 0xff) as u8);
    out.push(((x >> 8) & 0xff) as u8);
    proof {
        assert(final(out)@ =~= old(out)@ + enc_u16(x));
    }
}

/// Append a `u32`.
pub fn put_u32(out: &mut Vec<u8>, x: u32)
    ensures
        final(out)@ == old(out)@ + enc_u32(x),
{
    out.push((x & 0xff) as u8);
    out.push(((x >> 8) & 0xff) as u8);
    out.push(((x >> 16) & 0xff) as u8);
    out.push(((x >> 24) & 0xff) as u8);
    proof {
        assert(final(out)@ =~= old(out)@ + enc_u32(x));
    }
}

/// Append a `u64`.
pub fn put_u64(out: &mut Vec<u8>, x: u64)
    ensures
        final(out)@ == old(out)@ + enc_u64(x),
{
    out.push((x & 0xff) as u8);
    out.push(((x >> 8) & 0xff) as u8);
    out.push(((x >> 16) & 0xff) as u8);
    out.push(((x >> 24) & 0xff) as u8);
    out.push(((x >> 32) & 0xff) as u8);
    out.push(((x >> 40) & 0xff) as u8);
    out.push(((x >> 48) & 0xff) as u8);
    out.push(((x >> 56) & 0xff) as u8);
    proof {
        assert(final(out)@ =~= old(out)@ + enc_u64(x));
    }
}

/// Append raw bytes.
pub fn put_raw(out: &mut Vec<u8>, b: &[u8])
    ensures
        final(out)@ == old(out)@ + b@,
{
    let mut i: usize = 0;
    while i < b.len()
        invariant
            i <= b@.len(),
            out@ == old(out)@ + b@.take(i as int),
        decreases b@.len() - i,
    {
        out.push(b[i]);
        proof {
            assert(b@.take(i + 1) =~= b@.take(i as int).push(b@[i as int]));
        }
        i = i + 1;
    }
    proof {
        assert(b@.take(i as int) =~= b@);
    }
}

/// Append length-prefixed bytes.
pub fn put_bytes(out: &mut Vec<u8>, b: &[u8])
    ensures
        final(out)@ == old(out)@ + enc_bytes(b@),
{
    put_u64(out, b.len() as u64);
    put_raw(out, b);
    proof {
        assert(final(out)@ =~= old(out)@ + enc_bytes(b@));
    }
}

/// Append length-prefixed UTF-8 text.
pub fn put_str(out: &mut Vec<u8>, s: &str)
    ensures
        final(out)@ == old(out)@ + enc_str(s@),
{
    let b = s.as_bytes();
    put_bytes(out, b);
}

/// Append optional text.
pub fn put_opt_str(out: &mut Vec<u8>, o: &Option<String>)
    ensures
        final(out)@ == old(out)@ + enc_opt_str(match o {
            Some(s) => Some(s@),
            None => None,
        }),
{
    match o {
        None => {
            out.push(0u8);
            proof {
                assert(final(out)@ =~= old(out)@ + seq![0u8]);
            }
        },
        Some(s) => {
            out.push(1u8);
            put_str(out, s.as_str());
            proof {
                assert(final(out)@ =~= old(out)@ + (seq![1u8] + enc_str(s@)));
            }
        },
    }
}

/// Append optional bytes.
pub fn put_opt_bytes(out: &mut Vec<u8>, o: &Option<Vec<u8>>)
    ensures
        final(out)@ == old(out)@ + enc_opt_bytes(match o {
            Some(b) => Some(b@),
            None => None,
        }),
{
    match o {
        None => {
            out.push(0u8);
            proof {
                assert(final(out)@ =~= old(out)@ + seq![0u8]);
            }
        },
        Some(b) => {
            out.push(1u8);
            put_bytes(out, b.as_slice());
            proof {
                assert(final(out)@ =~= old(out)@ + (seq![1u8] + enc_bytes(b@)));
            }
        },
    }
}

/// Append an optional `u64`.
pub fn put_opt_u64(out: &mut Vec<u8>, o: Option<u64>)
    ensures
        final(out)@ == old(out)@ + enc_opt_u64(o),
{
    match o {
        None => {
            out.push(0u8);
            proof {
                assert(final(out)@ =~= old(out)@ + seq![0u8]);
            }
        },
        Some(x) => {
            out.push(1u8);
            put_u64(out, x);
            proof {
                assert(final(out)@ =~= old(out)@ + (seq![1u8] + enc_u64(x)));
            }
        },
    }
}

/// Append an optional `u8`.
pub fn put_opt_u8(out: &mut Vec<u8>, o: Option<u8>)
    ensures
        final(out)@ == old(out)@ + enc_opt_u8(o),
{
    match o {
        None => {
            out.push(0u8);
            proof {
                assert(final(out)@ =~= old(out)@ + seq![0u8]);
            }
        },
        Some(x) => {
            out.push(1u8);
            out.push(x);
            proof {
                assert(final(out)@ =~= old(out)@ + seq![1u8, x]);
            }
        },
    }
}

// ---------------------------------------------------------------------------------------
// Reading. Each reader takes the input and a position and yields the value and the
// position after it, or `None` where the input does not hold a well-formed value there.
// ---------------------------------------------------------------------------------------

/// A `u64` at `pos`.
pub open spec fn read_u64_spec(b: Seq<u8>, pos: int) -> Option<(u64, int)> {
    if 0 <= pos && pos + 8 <= b.len() {
        Some((dec_u64(b.subrange(pos, pos + 8)), pos + 8))
    } else {
        None
    }
}

/// Length-prefixed bytes at `pos`.
pub open spec fn read_bytes_spec(b: Seq<u8>, pos: int) -> Option<(Seq<u8>, int)> {
    match read_u64_spec(b, pos) {
        Some((n, p)) => if p + n <= b.len() {
            Some((b.subrange(p, p + n), p + n))
        } else {
            None
        },
        None => None,
    }
}

/// Length-prefixed UTF-8 text at `pos`.
pub open spec fn read_str_spec(b: Seq<u8>, pos: int) -> Option<(Seq<char>, int)> {
    match read_bytes_spec(b, pos) {
        Some((raw, p)) => if valid_utf8(raw) {
            Some((decode_utf8(raw), p))
        } else {
            None
        },
        None => None,
    }
}

/// Optional text at `pos` (tag 0 or 1).
pub open spec fn read_opt_str_spec(b: Seq<u8>, pos: int) -> Option<(Option<Seq<char>>, int)> {
    if 0 <= pos < b.len() {
        if b[pos] == 0 {
            Some((None, pos + 1))
        } else if b[pos] == 1 {
            match read_str_spec(b, pos + 1) {
                Some((s, p)) => Some((Some(s), p)),
                None => None,
            }
        } else {
            None
        }
    } else {
        None
    }
}

/// Optional `u64` at `pos` (tag 0 or 1).
pub open spec fn read_opt_u64_spec(b: Seq<u8>, pos: int) -> Option<(Option<u64>, int)> {
    if 0 <= pos < b.len() {
        if b[pos] == 0 {
            Some((None, pos + 1))
        } else if b[pos] == 1 {
            match read_u64_spec(b, pos + 1) {
                Some((x, p)) => Some((Some(x), p)),
                None => None,
            }
        } else {
            None
        }
    } else {
        None
    }
}

/// `std::str::from_utf8`: the text of `b` when it is valid UTF-8.
#[verifier::external_body]
fn utf8_to_string(b: &[u8]) -> (r: Option<String>)
    ensures
        r is Some <==> valid_utf8(b@),
        r matches Some(s) ==> s@ == decode_utf8(b@),
{
    match std::str::from_utf8(b) {
        Ok(s) => Some(s.to_string()),
        Err(_) => None,
    }
}

/// Read a `u64` at `pos`.
pub fn read_u64(b: &[u8], pos: usize) -> (r: Option<(u64, usize)>)
    ensures
        match r {
            Some((x, p)) => read_u64_spec(b@, pos as int) == Some((x, p as int)),
            None => read_u64_spec(b@, pos as int) is None,
        },
{
    if pos > b.len() || b.len() - pos < 8 {
        return None;
    }
    let x: u64 = (b[pos] as u64) | ((b[pos + 1] as u64) << 8u64) | ((b[pos + 2] as u64) << 16u64)
        | ((b[pos + 3] as u64) << 24u64) | ((b[pos + 4] as u64) << 32u64) | ((b[pos + 5] as u64)
        << 40u64) | ((b[pos + 6] as u64) << 48u64) | ((b[pos + 7] as u64) << 56u64);
    proof {
        reveal(dec_u64);
        let s = b@.subrange(pos as int, pos + 8);
        assert(s[0] == b@[pos as int] && s[1] == b@[pos + 1] && s[2] == b@[pos + 2] && s[3]
            == b@[pos + 3] && s[4] == b@[pos + 4] && s[5] == b@[pos + 5] && s[6] == b@[pos + 6]
            && s[7] == b@[pos + 7]);
    }
    Some((x, pos + 8))
}

/// Copy `b[from..to]`.
fn copy_range(b: &[u8], from: usize, to: usize) -> (r: Vec<u8>)
    requires
        from <= to <= b@.len(),
    ensures
        r@ == b@.subrange(from as int, to as int),
{
    let mut r: Vec<u8> = Vec::new();
    let mut i: usize = from;
    while i < to
        invariant
            from <= i <= to <= b@.len(),
            r@ == b@.subrange(from as int, i as int),
        decreases to - i,
    {
        r.push(b[i]);
        proof {
            assert(b@.subrange(from as int, i + 1) =~= b@.subrange(from as int, i as int).push(
                b@[i as int],
            ));
        }
        i = i + 1;
    }
    r
}

/// Read length-prefixed bytes at `pos`.
pub fn read_bytes(b: &[u8], pos: usize) -> (r: Option<(Vec<u8>, usize)>)
    ensures
        match r {
            Some((v, p)) => read_bytes_spec(b@, pos as int) == Some((v@, p as int)),
            None => read_bytes_spec(b@, pos as int) is None,
        },
{
    match read_u64(b, pos) {
        None => None,
        Some((n, p)) => {
            if (b.len() - p) as u64 >= n {
                let end: usize = p + (n as usize);
                let v = copy_range(b, p, end);
                Some((v, end))
            } else {
                None
            }
        },
    }
}

/// Read length-prefixed UTF-8 text at `pos`.
pub fn read_str(b: &[u8], pos: usize) -> (r: Option<(String, usize)>)
    ensures
        match r {
            Some((s, p)) => read_str_spec(b@, pos as int) == Some((s@, p as int)),
            None => read_str_spec(b@, pos as int) is None,
        },
{
    match read_bytes(b, pos) {
        None => None,
        Some((raw, p)) => match utf8_to_string(raw.as_slice()) {
            Some(s) => Some((s, p)),
            None => None,
        },
    }
}

/// Read optional text at `pos`.
pub fn read_opt_str(b: &[u8], pos: usize) -> (r: Option<(Option<String>, usize)>)
    ensures
        match r {
            Some((o, p)) => read_opt_str_spec(b@, pos as int) == Some((
                match o {
                    Some(s) => Some(s@),
                    None => None,
                },
                p as int,
            )),
            None => read_opt_str_spec(b@, pos as int) is None,
        },
{
    if pos >= b.len() {
        return None;
    }
    if b[pos] == 0 {
        Some((None, pos + 1))
    } else if b[pos] == 1 {
        match read_str(b, pos + 1) {
            Some((s, p)) => Some((Some(s), p)),
            None => None,
        }
    } else {
        None
    }
}

/// Read an optional `u64` at `pos`.
pub fn read_opt_u64(b: &[u8], pos: usize) -> (r: Option<(Option<u64>, usize)>)
    ensures
        match r {
            Some((o, p)) => read_opt_u64_spec(b@, pos as int) == Some((o, p as int)),
            None => read_opt_u64_spec(b@, pos as int) is None,
        },
{
    if pos >= b.len() {
        return None;
    }
    if b[pos] == 0 {
        Some((None, pos + 1))
    } else if b[pos] == 1 {
        match read_u64(b, pos + 1) {
            Some((x, p)) => Some((Some(x), p)),
            None => None,
        }
    } else {
        None
    }
}

// ---------------------------------------------------------------------------------------
// Reading back what was written.
// ---------------------------------------------------------------------------------------

/// The bytes of a `u64` read back as that `u64`.
pub proof fn lemma_u64_roundtrip(x: u64)
    ensures
        dec_u64(enc_u64(x)) == x,
{
    reveal(dec_u64);
    let e = enc_u64(x);
    let b0 = e[0];
    let b1 = e[1];
    let b2 = e[2];
    let b3 = e[3];
    let b4 = e[4];
    let b5 = e[5];
    let b6 = e[6];
    let b7 = e[7];
    assert((b0 as u64) | ((b1 as u64) << 8u64) | ((b2 as u64) << 16u64) | ((b3 as u64) << 24u64)
        | ((b4 as u64) << 32u64) | ((b5 as u64) << 40u64) | ((b6 as u64) << 48u64) | ((b7 as u64)
        << 56u64) == x) by (bit_vector)
        requires
            b0 == (x & 0xff) as u8,
            b1 == ((x >> 8) & 0xff) as u8,
            b2 == ((x >> 16) & 0xff) as u8,
            b3 == ((x >> 24) & 0xff) as u8,
            b4 == ((x >> 32) & 0xff) as u8,
            b5 == ((x >> 40) & 0xff) as u8,
            b6 == ((x >> 48) & 0xff) as u8,
            b7 == ((x >> 56) & 0xff) as u8,
    ;
}

/// A written `u64` is read back, whatever follows it.
pub proof fn lemma_read_u64(x: u64, pre: Seq<u8>, rest: Seq<u8>)
    ensures
        read_u64_spec(pre + enc_u64(x) + rest, pre.len() as int) == Some((x, pre.len() + 8int)),
{
    let b = pre + enc_u64(x) + rest;
    assert(b.subrange(pre.len() as int, pre.len() + 8int) =~= enc_u64(x));
    lemma_u64_roundtrip(x);
}

/// Written bytes are read back, whatever follows them.
pub proof fn lemma_read_bytes(v: Seq<u8>, pre: Seq<u8>, rest: Seq<u8>)
    requires
        v.len() <= u64::MAX,
    ensures
        read_bytes_spec(pre + enc_bytes(v) + rest, pre.len() as int) == Some((v, pre.len() + 8int + v.len())),
{
    let b = pre + enc_bytes(v) + rest;
    assert(b =~= pre + enc_u64(v.len() as u64) + (v + rest));
    lemma_read_u64(v.len() as u64, pre, v + rest);
    assert(b.subrange(pre.len() + 8int, pre.len() + 8int + v.len()) =~= v);
}

/// A `u64` written at `pos` is read back there.
pub proof fn lemma_read_u64_at(b: Seq<u8>, pos: int, x: u64)
    requires
        0 <= pos,
        pos + 8 <= b.len(),
        b.subrange(pos, pos + 8) == enc_u64(x),
    ensures
        read_u64_spec(b, pos) == Some((x, pos + 8)),
{
    lemma_u64_roundtrip(x);
}

/// Bytes written at `pos` are read back there.
pub proof fn lemma_read_bytes_at(b: Seq<u8>, pos: int, v: Seq<u8>)
    requires
        0 <= pos,
        v.len() <= u64::MAX,
        pos + 8 + v.len() <= b.len(),
        b.subrange(pos, pos + 8 + v.len()) == enc_bytes(v),
    ensures
        read_bytes_spec(b, pos) == Some((v, pos + 8 + v.len())),
{
    let w = b.subrange(pos, pos + 8 + v.len());
    assert(b.subrange(pos, pos + 8) =~= w.subrange(0, 8));
    assert(w.subrange(0, 8) =~= enc_u64(v.len() as u64));
    lemma_read_u64_at(b, pos, v.len() as u64);
    assert(b.subrange(pos + 8, pos + 8 + v.len()) =~= w.subrange(8, 8 + v.len() as int));
    assert(w.subrange(8, 8 + v.len() as int) =~= v);
}

/// Text written at `pos` is read back there.
pub proof fn lemma_read_str_at(b: Seq<u8>, pos: int, s: Seq<char>)
    requires
        0 <= pos,
        encode_utf8(s).len() <= u64::MAX,
        pos + enc_str(s).len() <= b.len(),
        b.subrange(pos, pos + enc_str(s).len()) == enc_str(s),
    ensures
        read_str_spec(b, pos) == Some((s, pos + enc_str(s).len())),
{
    lemma_read_bytes_at(b, pos, encode_utf8(s));
    encode_utf8_valid_utf8(s);
    encode_utf8_decode_utf8(s);
}

/// Optional text written at `pos` is read back there.
pub proof fn lemma_read_opt_str_at(b: Seq<u8>, pos: int, o: Option<Seq<char>>)
    requires
        0 <= pos,
        o matches Some(t) ==> encode_utf8(t).len() <= u64::MAX,
        pos + enc_opt_str(o).len() <= b.len(),
        b.subrange(pos, pos + enc_opt_str(o).len()) == enc_opt_str(o),
    ensures
        read_opt_str_spec(b, pos) == Some((o, pos + enc_opt_str(o).len())),
{
    let w = b.subrange(pos, pos + enc_opt_str(o).len());
    assert(b[pos] == w[0]);
    if let Some(t) = o {
        let e = enc_str(t);
        assert(b.subrange(pos + 1, (pos + 1 + e.len()) as int) =~= w.subrange(1, (1 + e.len()) as int));
        assert(w.subrange(1, (1 + e.len()) as int) =~= e);
        lemma_read_str_at(b, pos + 1, t);
    }
}

/// An optional `u64` written at `pos` is read back there.
pub proof fn lemma_read_opt_u64_at(b: Seq<u8>, pos: int, o: Option<u64>)
    requires
        0 <= pos,
        pos + enc_opt_u64(o).len() <= b.len(),
        b.subrange(pos, pos + enc_opt_u64(o).len()) == enc_opt_u64(o),
    ensures
        read_opt_u64_spec(b, pos) == Some((o, pos + enc_opt_u64(o).len())),
{
    let w = b.subrange(pos, pos + enc_opt_u64(o).len());
    assert(b[pos] == w[0]);
    if let Some(x) = o {
        assert(b.subrange(pos + 1, pos + 9) =~= w.subrange(1, 9));
        assert(w.subrange(1, 9) =~= enc_u64(x));
        lemma_read_u64_at(b, pos + 1, x);
    }
}

} // verus!
