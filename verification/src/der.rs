//! DER encoding of ECDSA signatures: Web Crypto verifies ES256 signatures
//! given as an ASN.1 `SEQUENCE { r INTEGER, s INTEGER }`, while JOSE carries
//! them as the 64-byte concatenation `r || s`.

use vstd::prelude::*;

use crate::auth::{AuthError, AuthFailure};

verus! {

/// `bytes` without its leading zero bytes.
pub open spec fn strip_leading_zeros(bytes: Seq<u8>) -> Seq<u8>
    decreases bytes.len(),
{
    if bytes.len() > 0 && bytes[0] == 0 {
        strip_leading_zeros(bytes.drop_first())
    } else {
        bytes
    }
}

/// Content octets of the DER INTEGER for the unsigned big-endian number `bytes`:
/// the minimal two's-complement form, with a zero byte in front when the top
/// bit would otherwise read as a sign.
pub open spec fn der_integer_content(bytes: Seq<u8>) -> Seq<u8> {
    let stripped = strip_leading_zeros(bytes);
    let nonempty = if stripped.len() == 0 {
        seq![0u8]
    } else {
        stripped
    };
    if nonempty[0] >= 0x80 {
        seq![0u8] + nonempty
    } else {
        nonempty
    }
}

/// Tag `0x02`, the length byte, then the content octets.
pub open spec fn der_integer_encoding(bytes: Seq<u8>) -> Seq<u8> {
    let content = der_integer_content(bytes);
    seq![0x02u8, (content.len() % 256) as u8] + content
}

/// The DER `SEQUENCE` of the two INTEGERs `r = signature[..32]` and
/// `s = signature[32..]`.
pub open spec fn es256_der_encoding(signature: Seq<u8>) -> Seq<u8> {
    let r = der_integer_encoding(signature.take(32));
    let s = der_integer_encoding(signature.skip(32));
    seq![0x30u8, ((r.len() + s.len()) % 256) as u8] + r + s
}

/// The unsigned number that the big-endian bytes `bytes` stand for.
pub open spec fn big_endian_value(bytes: Seq<u8>) -> nat
    decreases bytes.len(),
{
    if bytes.len() == 0 {
        0
    } else {
        big_endian_value(bytes.drop_last()) * 256 + bytes.last() as nat
    }
}

proof fn lemma_single_zero_value()
    ensures
        big_endian_value(seq![0u8]) == 0,
{
    let z = seq![0u8];
    assert(z.drop_last() == Seq::<u8>::empty());
    assert(big_endian_value(Seq::<u8>::empty()) == 0);
    assert(z.last() == 0);
}

proof fn lemma_leading_zero_keeps_value(bytes: Seq<u8>)
    ensures
        big_endian_value(seq![0u8] + bytes) == big_endian_value(bytes),
    decreases bytes.len(),
{
    let extended = seq![0u8] + bytes;
    if bytes.len() > 0 {
        assert(extended.drop_last() == seq![0u8] + bytes.drop_last());
        assert(extended.last() == bytes.last());
        lemma_leading_zero_keeps_value(bytes.drop_last());
    } else {
        lemma_single_zero_value();
        assert(extended == seq![0u8]);
    }
}

proof fn lemma_strip_keeps_value(bytes: Seq<u8>)
    ensures
        big_endian_value(strip_leading_zeros(bytes)) == big_endian_value(bytes),
        strip_leading_zeros(bytes).len() == 0 || strip_leading_zeros(bytes)[0] != 0,
        strip_leading_zeros(bytes).len() <= bytes.len(),
    decreases bytes.len(),
{
    if bytes.len() > 0 && bytes[0] == 0 {
        lemma_strip_keeps_value(bytes.drop_first());
        assert(bytes == seq![0u8] + bytes.drop_first());
        lemma_leading_zero_keeps_value(bytes.drop_first());
    }
}

/// The content octets of `der_integer_encoding` stand for the same number as
/// the input, read as a non-negative two's-complement integer in its shortest
/// form: the first octet has its top bit clear, and a leading zero octet is
/// there only when the next octet has its top bit set.
pub proof fn lemma_der_integer_content(bytes: Seq<u8>)
    ensures
        ({
            let content = der_integer_content(bytes);
            &&& big_endian_value(content) == big_endian_value(bytes)
            &&& content.len() >= 1
            &&& content[0] < 0x80
            &&& content.len() > 1 ==> !(content[0] == 0 && content[1] < 0x80)
            &&& content.len() <= bytes.len() + 1
        }),
{
    lemma_strip_keeps_value(bytes);
    let stripped = strip_leading_zeros(bytes);
    if stripped.len() == 0 {
        lemma_single_zero_value();
    } else if stripped[0] >= 0x80 {
        lemma_leading_zero_keeps_value(stripped);
    }
}

/// Reading the ES256 DER encoding back: a `SEQUENCE` whose length byte counts
/// the rest, holding two INTEGERs whose values are `r` and `s` of the JOSE
/// signature.
pub proof fn lemma_es256_der_reads_back(signature: Seq<u8>)
    requires
        signature.len() == 64,
    ensures
        ({
            let der = es256_der_encoding(signature);
            let r_len = der[3] as int;
            let s_len = der[5 + r_len] as int;
            &&& der[0] == 0x30
            &&& der[1] as int == der.len() - 2
            &&& der[2] == 0x02
            &&& der[4 + r_len] == 0x02
            &&& der.len() == 6 + r_len + s_len
            &&& big_endian_value(der.subrange(4, 4 + r_len)) == big_endian_value(signature.take(32))
            &&& big_endian_value(der.subrange(6 + r_len, 6 + r_len + s_len)) == big_endian_value(
                signature.skip(32),
            )
        }),
{
    let r = signature.take(32);
    let s = signature.skip(32);
    lemma_der_integer_content(r);
    lemma_der_integer_content(s);
    let rc = der_integer_content(r);
    let sc = der_integer_content(s);
    let re = der_integer_encoding(r);
    let se = der_integer_encoding(s);
    let der = es256_der_encoding(signature);
    assert(der == seq![0x30u8, ((re.len() + se.len()) % 256) as u8] + re + se);
    assert(der.subrange(4, 4 + rc.len() as int) == rc);
    assert(der.subrange(6 + rc.len() as int, 6 + rc.len() + sc.len() as int) == sc);
}

/// DER INTEGER for the unsigned big-endian number `bytes`.
pub fn der_integer(bytes: &[u8]) -> (encoded: Vec<u8>)
    ensures
        encoded@ == der_integer_encoding(bytes@),
{
    let n = bytes.len();
    let mut start: usize = 0;
    assert(bytes@.subrange(0, n as int) == bytes@);
    while start < n && bytes[start] == 0
        invariant
            start <= n == bytes@.len(),
            strip_leading_zeros(bytes@) == strip_leading_zeros(bytes@.subrange(start as int, n as int)),
        decreases n - start,
    {
        assert(bytes@.subrange(start as int, n as int).drop_first() == bytes@.subrange(
            start + 1,
            n as int,
        ));
        start = start + 1;
    }
    let mut trimmed: Vec<u8> = Vec::new();
    for i in start..n
        invariant
            start <= n == bytes@.len(),
            trimmed@ == bytes@.subrange(start as int, i as int),
    {
        trimmed.push(bytes[i]);
        assert(bytes@.subrange(start as int, i + 1) == bytes@.subrange(start as int, i as int).push(
            bytes@[i as int],
        ));
    }
    assert(trimmed@ == strip_leading_zeros(bytes@));
    if trimmed.len() == 0 {
        trimmed.push(0);
    }
    let first = trimmed[0];
    assert((first & 0x80 != 0) == (first >= 0x80)) by (bit_vector);
    if first & 0x80 != 0 {
        trimmed.insert(0, 0);
        assert(trimmed@ == seq![0u8] + (seq![first] + trimmed@.skip(2))) by {
            assert(trimmed@ =~= seq![0u8] + (seq![first] + trimmed@.skip(2)));
        }
    }
    assert(trimmed@ == der_integer_content(bytes@));
    let len_byte = (trimmed.len() % 256) as u8;
    let mut encoded: Vec<u8> = Vec::new();
    encoded.push(0x02);
    encoded.push(len_byte);
    let m = trimmed.len();
    for i in 0..m
        invariant
            m == trimmed@.len(),
            encoded@ == seq![0x02u8, len_byte] + trimmed@.take(i as int),
    {
        encoded.push(trimmed[i]);
        assert(trimmed@.take(i + 1) == trimmed@.take(i as int).push(trimmed@[i as int]));
    }
    assert(trimmed@.take(m as int) == trimmed@);
    encoded
}


/// The bytes of `s` from `start` up to `end`.
pub fn bytes_between(s: &[u8], start: usize, end: usize) -> (res: Vec<u8>)
    requires
        start <= end <= s@.len(),
    ensures
        res@ == s@.subrange(start as int, end as int),
{
    let mut res: Vec<u8> = Vec::new();
    for i in start..end
        invariant
            start <= end <= s@.len(),
            res@ == s@.subrange(start as int, i as int),
    {
        res.push(s[i]);
        assert(s@.subrange(start as int, i + 1) == s@.subrange(start as int, i as int).push(
            s@[i as int],
        ));
    }
    res
}

/// Converts a JOSE ES256 signature (`r || s`, 32 bytes each) to DER.
pub fn jose_es256_signature_to_der(signature: &[u8]) -> (res: Result<Vec<u8>, AuthError>)
    ensures
        match res {
            Ok(der) => signature@.len() == 64 && der@ == es256_der_encoding(signature@),
            Err(e) => signature@.len() != 64 && e@ == AuthFailure::InvalidToken(
                "invalid ES256 signature length"@,
            ),
        },
{
    if signature.len() != 64 {
        return Err(AuthError::invalid_token("invalid ES256 signature length"));
    }
    let r = bytes_between(signature, 0, 32);
    let s = bytes_between(signature, 32, 64);
    assert(r@ == signature@.take(32));
    assert(s@ == signature@.skip(32));
    let der_r = der_integer(r.as_slice());
    let der_s = der_integer(s.as_slice());
    proof {
        lemma_der_integer_content(r@);
        lemma_der_integer_content(s@);
    }
    let content_len = der_r.len() + der_s.len();
    let mut der: Vec<u8> = Vec::new();
    der.push(0x30);
    der.push(content_len as u8);
    let mut tail_r = der_r;
    let mut tail_s = der_s;
    let ghost er = tail_r@;
    let ghost es = tail_s@;
    der.append(&mut tail_r);
    der.append(&mut tail_s);
    assert(der@ == seq![0x30u8, ((er.len() + es.len()) % 256) as u8] + er + es);
    Ok(der)
}

} // verus!
