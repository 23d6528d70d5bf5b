//! The ciphertext: a KEM commitment `U = g · r`, an authenticator
//! `W = H₂(U ‖ C ‖ aad) · r`, and the sealed payload `C`.
//!
//! The key encapsulated under the joint key `Y` is `e(Y · r, h)`; its
//! encoding is hashed into the symmetric key that seals the payload.
//! Anyone can check well-formedness without shares through the pairing
//! equation `e(U, H₂(U ‖ C ‖ aad)) = e(g, W)`.

use vstd::prelude::*;

use crate::curve::g1_from_bytes;
use crate::curve::g1_decodes;
use crate::curve::g1_mul;
use crate::curve::g1_mul_generator;
use crate::curve::g1_mul_of;
use crate::curve::g1_neg;
use crate::curve::g1_neg_of;
use crate::curve::g1_base_pow_of;
use crate::curve::g2_from_bytes;
use crate::curve::g2_decodes;
use crate::curve::g2_generator;
use crate::curve::g2_gen_bytes;
use crate::curve::g2_mul;
use crate::curve::g2_mul_of;
use crate::curve::hash_to_g2;
use crate::curve::hash_to_g2_of;
use crate::curve::pairing;
use crate::curve::pairing_of;
use crate::curve::Fr;
use crate::curve::fr_random;
use crate::curve::G1;
use crate::curve::G2;
use crate::curve::Gt;
use crate::dem::dem_open;
use crate::dem::dem_open_of;
use crate::dem::dem_seal;
use crate::dem::dem_seal_of;
use crate::dem::kdf;
use crate::dem::kdf_of;
use crate::error::ThresholdEncryptionError;

verus! {

/// A ciphertext under the joint public key.
#[derive(Clone, PartialEq, Eq, Debug)]
pub struct Ciphertext {
    /// The KEM commitment `U = g · r`.
    pub commitment: G1,
    /// The authenticator `W = H₂(U ‖ C ‖ aad) · r`.
    pub auth_tag: G2,
    /// The sealed payload.
    pub ciphertext: Vec<u8>,
}

/// The input of the tag hash: commitment, payload, then the
/// additional authenticated data.
pub open spec fn tag_input(u: Seq<u8>, c: Seq<u8>, aad: Seq<u8>) -> Seq<u8> {
    u + c + aad
}

/// The encapsulated shared secret: the pairing of `Y · r` with the G2
/// generator.
pub open spec fn shared_secret_of(pubkey: Seq<u8>, rnd: Seq<u8>) -> Seq<u8> {
    pairing_of(g1_mul_of(pubkey, rnd), g2_gen_bytes())
}

/// Whether a ciphertext passes the public pairing check against the
/// negated generator `g_inv`.
pub open spec fn ciphertext_valid_wrt(
    u: Seq<u8>,
    w: Seq<u8>,
    c: Seq<u8>,
    aad: Seq<u8>,
    g_inv: Seq<u8>,
) -> bool {
    pairing_of(u, hash_to_g2_of(tag_input(u, c, aad))) == pairing_of(g1_neg_of(g_inv), w)
}

/// Append a byte slice to a vector.
pub fn extend_bytes(out: &mut Vec<u8>, src: &[u8])
    ensures
        final(out)@ == old(out)@ + src@,
{
    let mut i: usize = 0;
    while i < src.len()
        invariant
            i <= src@.len(),
            out@ == old(out)@ + src@.subrange(0, i as int),
        decreases src@.len() - i,
    {
        out.push(src[i]);
        proof {
            assert(old(out)@ + src@.subrange(0, (i + 1) as int) =~= (old(out)@ + src@.subrange(
                0,
                i as int,
            )).push(src@[i as int]));
        }
        i = i + 1;
    }
    proof {
        assert(src@.subrange(0, src@.len() as int) =~= src@);
    }
}

/// The bytes hashed into the authenticator's base point.
pub fn construct_tag_hash(u: &G1, stream_ciphertext: &[u8], aad: &[u8]) -> (r: G2)
    ensures
        r@ == hash_to_g2_of(tag_input(u@, stream_ciphertext@, aad@)),
{
    let mut hash_input: Vec<u8> = Vec::new();
    let u_bytes = u.to_bytes();
    extend_bytes(&mut hash_input, u_bytes.as_slice());
    extend_bytes(&mut hash_input, stream_ciphertext);
    extend_bytes(&mut hash_input, aad);
    proof {
        assert(hash_input@ =~= tag_input(u@, stream_ciphertext@, aad@));
    }
    hash_to_g2(hash_input.as_slice())
}

/// Encrypt deterministically with the given encapsulation scalar: the
/// commitment is `g · r`, the payload is sealed under the key derived
/// from `e(Y · r, h)`, and the authenticator binds commitment, payload
/// and authenticated data.
pub fn encrypt_with_randomness(message: &[u8], aad: &[u8], pubkey: &G1, rnd: &Fr) -> (r: Ciphertext)
    requires
        message@.len() <= crate::dem::MAX_SEALED_LEN,
    ensures
        r.commitment@ == g1_base_pow_of(rnd@),
        r.ciphertext@ == dem_seal_of(
            kdf_of(shared_secret_of(pubkey@, rnd@)),
            message@,
            aad@,
        ),
        r.auth_tag@ == g2_mul_of(
            hash_to_g2_of(tag_input(r.commitment@, r.ciphertext@, aad@)),
            rnd@,
        ),
        dem_open_of(kdf_of(shared_secret_of(pubkey@, rnd@)), r.ciphertext@, aad@) == Some(
            message@,
        ),
        g1_decodes(r.commitment@),
        g2_decodes(r.auth_tag@),
{
    let commitment = g1_mul_generator(rnd);
    let shared_secret = pairing(&g1_mul(pubkey, rnd), &g2_generator());
    let key = kdf(&shared_secret.to_bytes());
    let sealed = dem_seal(&key, message, aad);
    let tag_base = construct_tag_hash(&commitment, sealed.as_slice(), aad);
    let auth_tag = g2_mul(&tag_base, rnd);
    Ciphertext { commitment, auth_tag, ciphertext: sealed }
}

/// Encrypt under the joint public key with a fresh encapsulation
/// scalar drawn from the given generator.
pub fn encrypt(message: &[u8], aad: &[u8], pubkey: &G1, rng: &mut rand::rngs::StdRng) -> (r:
    Ciphertext)
    requires
        message@.len() <= crate::dem::MAX_SEALED_LEN,
    ensures
        exists|rnd: Seq<u8>|
            {
                &&& r.commitment@ == g1_base_pow_of(rnd)
                &&& r.ciphertext@ == dem_seal_of(
                    kdf_of(shared_secret_of(pubkey@, rnd)),
                    message@,
                    aad@,
                )
                &&& r.auth_tag@ == g2_mul_of(
                    hash_to_g2_of(tag_input(r.commitment@, r.ciphertext@, aad@)),
                    rnd,
                )
                &&& dem_open_of(kdf_of(shared_secret_of(pubkey@, rnd)), r.ciphertext@, aad@)
                    == Some(message@)
            },
        g1_decodes(r.commitment@),
        g2_decodes(r.auth_tag@),
{
    let rnd = fr_random(rng);
    let r = encrypt_with_randomness(message, aad, pubkey, &rnd);
    proof {
        let w = rnd@;
        assert(r.commitment@ == g1_base_pow_of(w));
    }
    r
}

/// Check the public pairing equation of a ciphertext; fails with
/// `CiphertextVerificationFailed` exactly when it does not hold.
pub fn check_ciphertext_validity(c: &Ciphertext, aad: &[u8], g_inv: &G1) -> (r: Result<
    (),
    ThresholdEncryptionError,
>)
    ensures
        (r is Ok) == ciphertext_valid_wrt(c.commitment@, c.auth_tag@, c.ciphertext@, aad@, g_inv@),
        r matches Err(e) ==> e is CiphertextVerificationFailed,
{
    let tag_base = construct_tag_hash(&c.commitment, c.ciphertext.as_slice(), aad);
    let lhs = pairing(&c.commitment, &tag_base);
    let rhs = pairing(&g1_neg(g_inv), &c.auth_tag);
    if lhs.equals(&rhs) {
        Ok(())
    } else {
        Err(ThresholdEncryptionError::CiphertextVerificationFailed)
    }
}

/// Unseal a ciphertext with an already combined shared secret.  The
/// pairing check is made first; then the payload must authenticate
/// under the derived key and the given data.
pub fn checked_decrypt_with_shared_secret(
    ciphertext: &Ciphertext,
    aad: &[u8],
    g_inv: &G1,
    shared_secret: &Gt,
) -> (r: Result<Vec<u8>, ThresholdEncryptionError>)
    ensures
        !ciphertext_valid_wrt(
            ciphertext.commitment@,
            ciphertext.auth_tag@,
            ciphertext.ciphertext@,
            aad@,
            g_inv@,
        ) <==> r == Err::<Vec<u8>, ThresholdEncryptionError>(
            ThresholdEncryptionError::CiphertextVerificationFailed,
        ),
        (ciphertext_valid_wrt(
            ciphertext.commitment@,
            ciphertext.auth_tag@,
            ciphertext.ciphertext@,
            aad@,
            g_inv@,
        ) && dem_open_of(kdf_of(shared_secret@), ciphertext.ciphertext@, aad@) is None) <==> r
            == Err::<Vec<u8>, ThresholdEncryptionError>(
            ThresholdEncryptionError::PlaintextVerificationFailed,
        ),
        r matches Ok(p) ==> Some(p@) == dem_open_of(
            kdf_of(shared_secret@),
            ciphertext.ciphertext@,
            aad@,
        ),
        r matches Err(e) ==> e is CiphertextVerificationFailed || e
            is PlaintextVerificationFailed,
{
    match check_ciphertext_validity(ciphertext, aad, g_inv) {
        Ok(_) => {},
        Err(_) => {
            return Err(ThresholdEncryptionError::CiphertextVerificationFailed);
        },
    }
    let key = kdf(&shared_secret.to_bytes());
    match dem_open(&key, ciphertext.ciphertext.as_slice(), aad) {
        Some(p) => Ok(p),
        None => Err(ThresholdEncryptionError::PlaintextVerificationFailed),
    }
}

/// Decrypt directly with the joint private key `h · x`: the shared
/// secret is re-derived as `e(U, privkey)` and the payload unsealed.
pub fn checked_decrypt(ciphertext: &Ciphertext, aad: &[u8], g_inv: &G1, privkey: &G2) -> (r: Result<
    Vec<u8>,
    ThresholdEncryptionError,
>)
    ensures
        !ciphertext_valid_wrt(
            ciphertext.commitment@,
            ciphertext.auth_tag@,
            ciphertext.ciphertext@,
            aad@,
            g_inv@,
        ) <==> r == Err::<Vec<u8>, ThresholdEncryptionError>(
            ThresholdEncryptionError::CiphertextVerificationFailed,
        ),
        r matches Ok(p) ==> Some(p@) == dem_open_of(
            kdf_of(pairing_of(ciphertext.commitment@, privkey@)),
            ciphertext.ciphertext@,
            aad@,
        ),
        r matches Err(e) ==> e is CiphertextVerificationFailed || e
            is PlaintextVerificationFailed,
{
    let shared_secret = pairing(&ciphertext.commitment, privkey);
    checked_decrypt_with_shared_secret(ciphertext, aad, g_inv, &shared_secret)
}

// ----------------------------------------------------------------------
// Wire form: each part preceded by its little-endian 32-bit length.
// ----------------------------------------------------------------------

/// The four little-endian bytes of a 32-bit length.
pub open spec fn u32_le(n: u32) -> Seq<u8> {
    seq![
        (n & 0xff) as u8,
        ((n >> 8) & 0xff) as u8,
        ((n >> 16) & 0xff) as u8,
        ((n >> 24) & 0xff) as u8,
    ]
}

/// The 32-bit value of four little-endian bytes at `o`.
pub open spec fn u32_from_le(b: Seq<u8>, o: int) -> int {
    b[o] + 256 * (b[o + 1] + 256 * (b[o + 2] + 256 * b[o + 3]))
}

/// The wire form of a ciphertext.
pub open spec fn ct_wire(u: Seq<u8>, w: Seq<u8>, c: Seq<u8>) -> Seq<u8> {
    u32_le(u.len() as u32) + u + u32_le(w.len() as u32) + w + u32_le(c.len() as u32) + c
}

/// One length-prefixed segment read at `o`: the segment and the offset
/// after it, or nothing if the bytes run out.
pub open spec fn seg_parse(b: Seq<u8>, o: int) -> Option<(Seq<u8>, int)> {
    if b.len() - o < 4 {
        None
    } else {
        let n = u32_from_le(b, o);
        if n > b.len() - o - 4 {
            None
        } else {
            Some((b.subrange(o + 4, o + 4 + n), o + 4 + n))
        }
    }
}

/// The parse of a whole wire-form ciphertext: the three segments, which
/// must exactly exhaust the bytes.
pub open spec fn ct_parse(b: Seq<u8>) -> Option<(Seq<u8>, Seq<u8>, Seq<u8>)> {
    match seg_parse(b, 0) {
        None => None,
        Some((u, o1)) => match seg_parse(b, o1) {
            None => None,
            Some((w, o2)) => match seg_parse(b, o2) {
                None => None,
                Some((c, o3)) => if o3 == b.len() {
                    Some((u, w, c))
                } else {
                    None
                },
            },
        },
    }
}

/// Append one length-prefixed segment.
fn push_segment(out: &mut Vec<u8>, src: &[u8])
    requires
        src@.len() <= u32::MAX,
    ensures
        final(out)@ == old(out)@ + u32_le(src@.len() as u32) + src@,
{
    let n = src.len() as u32;
    out.push((n & 0xff) as u8);
    out.push(((n >> 8) & 0xff) as u8);
    out.push(((n >> 16) & 0xff) as u8);
    out.push(((n >> 24) & 0xff) as u8);
    proof {
        assert(out@ =~= old(out)@ + u32_le(src@.len() as u32));
    }
    extend_bytes(out, src);
    proof {
        assert(final(out)@ =~= old(out)@ + u32_le(src@.len() as u32) + src@);
    }
}

/// Read one length-prefixed segment.
fn read_segment(b: &[u8], o: usize) -> (r: Option<(Vec<u8>, usize)>)
    requires
        o <= b@.len(),
        b@.len() <= u32::MAX,
    ensures
        (r is Some) == (seg_parse(b@, o as int) is Some),
        r matches Some(p) ==> (seg_parse(b@, o as int) matches Some(q) && p.0@ == q.0 && p.1
            == q.1 && p.1 <= b@.len()),
{
    if b.len() - o < 4 {
        return None;
    }
    let n: u32 = (b[o] as u32) + 256 * (b[o + 1] as u32) + 65536 * (b[o + 2] as u32) + 16777216 * (
    b[o + 3] as u32);
    if n as usize > b.len() - o - 4 {
        return None;
    }
    let start = o + 4;
    let len = n as usize;
    let mut seg: Vec<u8> = Vec::new();
    let mut i: usize = 0;
    while i < len
        invariant
            i <= len,
            b@.len() <= u32::MAX,
            start + len <= b@.len(),
            seg@ == b@.subrange(start as int, start as int + i as int),
        decreases len - i,
    {
        seg.push(b[start + i]);
        proof {
            assert(b@.subrange(start as int, start as int + (i + 1) as int) =~= b@.subrange(
                start as int,
                start as int + i as int,
            ).push(b@[start as int + i as int]));
        }
        i = i + 1;
    }
    Some((seg, start + len))
}


/// The four little-endian bytes of a length decode back to it.
proof fn lemma_u32_le_value(n: u32)
    ensures
        (n & 0xff) + 256 * (((n >> 8) & 0xff) + 256 * (((n >> 16) & 0xff) + 256 * ((n >> 24)
            & 0xff))) == n,
{
    assert((n & 0xff) + 256 * (((n >> 8) & 0xff) + 256 * (((n >> 16) & 0xff) + 256 * ((n >> 24)
        & 0xff))) == n) by (bit_vector);
}

/// Parsing one segment at `o` of a byte string whose tail from `o` is a
/// length-prefixed segment followed by anything yields that segment.
proof fn lemma_seg_parse_at(b: Seq<u8>, o: int, s: Seq<u8>, rest: Seq<u8>)
    requires
        0 <= o <= b.len(),
        s.len() <= u32::MAX,
        b.subrange(o, b.len() as int) == u32_le(s.len() as u32) + s + rest,
    ensures
        seg_parse(b, o) == Some((s, o + 4 + s.len())),
        o + 4 + s.len() + rest.len() == b.len(),
{
    let tail = u32_le(s.len() as u32) + s + rest;
    assert(b.len() - o == tail.len());
    let n32 = s.len() as u32;
    assert forall|j: int| 0 <= j < tail.len() implies b[o + j] == tail[j] by {
        assert(b.subrange(o, b.len() as int)[j] == b[o + j]);
    }
    assert(u32_le(n32).len() == 4);
    assert(b[o + 0] == tail[0] && b[o + 1] == tail[1] && b[o + 2] == tail[2] && b[o + 3]
        == tail[3]);
    assert(tail[0] == u32_le(n32)[0] && tail[1] == u32_le(n32)[1] && tail[2] == u32_le(n32)[2]
        && tail[3] == u32_le(n32)[3]);
    assert(n32 & 0xff < 256 && (n32 >> 8) & 0xff < 256 && (n32 >> 16) & 0xff < 256 && (n32 >> 24)
        & 0xff < 256) by (bit_vector);
    assert(u32_le(n32)[0] == (n32 & 0xff) as u8 && u32_le(n32)[1] == ((n32 >> 8) & 0xff) as u8
        && u32_le(n32)[2] == ((n32 >> 16) & 0xff) as u8 && u32_le(n32)[3] == ((n32 >> 24)
        & 0xff) as u8);
    lemma_u32_le_value(n32);
    assert(u32_from_le(b, o) == b[o + 0] + 256 * (b[o + 1] + 256 * (b[o + 2] + 256 * b[o + 3])));
    assert(u32_from_le(b, o) == s.len());
    assert(seg_parse(b, o) matches Some(p) && p.1 == o + 4 + s.len());
    assert(b.subrange(o + 4, o + 4 + s.len()) =~= s) by {
        assert forall|j: int| 0 <= j < s.len() implies b.subrange(o + 4, o + 4 + s.len())[j]
            == s[j] by {
            assert(b[o + 4 + j] == tail[4 + j]);
            assert(tail[4 + j] == s[j]);
        }
    }
}

/// The wire form parses back to exactly its three parts: serialization
/// and parsing are mutually inverse.
pub proof fn lemma_ct_wire_roundtrip(u: Seq<u8>, w: Seq<u8>, c: Seq<u8>)
    requires
        u.len() <= u32::MAX,
        w.len() <= u32::MAX,
        c.len() <= u32::MAX,
    ensures
        ct_parse(ct_wire(u, w, c)) == Some((u, w, c)),
{
    let b = ct_wire(u, w, c);
    let rest1 = u32_le(w.len() as u32) + w + (u32_le(c.len() as u32) + c);
    assert(b.subrange(0, b.len() as int) =~= u32_le(u.len() as u32) + u + rest1);
    lemma_seg_parse_at(b, 0, u, rest1);
    let o1 = 4 + u.len() as int;
    let rest2 = u32_le(c.len() as u32) + c;
    assert(b.subrange(o1, b.len() as int) =~= u32_le(w.len() as u32) + w + rest2) by {
        assert forall|j: int| 0 <= j < b.len() - o1 implies b.subrange(o1, b.len() as int)[j]
            == (u32_le(w.len() as u32) + w + rest2)[j] by {
            assert(b[o1 + j] == (u32_le(u.len() as u32) + u + rest1)[o1 + j]);
            assert((u32_le(u.len() as u32) + u + rest1)[o1 + j] == rest1[j]);
            assert(rest1[j] == (u32_le(w.len() as u32) + w + rest2)[j]);
        }
    }
    lemma_seg_parse_at(b, o1, w, rest2);
    let o2 = o1 + 4 + w.len() as int;
    let rest3 = Seq::<u8>::empty();
    assert(b.subrange(o2, b.len() as int) =~= u32_le(c.len() as u32) + c + rest3) by {
        assert forall|j: int| 0 <= j < b.len() - o2 implies b.subrange(o2, b.len() as int)[j]
            == (u32_le(c.len() as u32) + c + rest3)[j] by {
            assert(b[o2 + j] == (u32_le(u.len() as u32) + u + rest1)[o2 + j]);
            assert((u32_le(u.len() as u32) + u + rest1)[o2 + j] == rest1[o2 + j - o1]);
            assert(rest1[o2 + j - o1] == rest2[j]);
            assert(rest2[j] == (u32_le(c.len() as u32) + c + rest3)[j]);
        }
    }
    lemma_seg_parse_at(b, o2, c, rest3);
    assert(o2 + 4 + c.len() == b.len());
}

impl Ciphertext {
    /// The wire form of this ciphertext.
    pub fn to_bytes(&self) -> (r: Vec<u8>)
        requires
            self.commitment@.len() <= u32::MAX,
            self.auth_tag@.len() <= u32::MAX,
            self.ciphertext@.len() <= u32::MAX,
        ensures
            r@ == ct_wire(self.commitment@, self.auth_tag@, self.ciphertext@),
    {
        let mut out: Vec<u8> = Vec::new();
        let u_bytes = self.commitment.to_bytes();
        let w_bytes = self.auth_tag.to_bytes();
        push_segment(&mut out, u_bytes.as_slice());
        push_segment(&mut out, w_bytes.as_slice());
        push_segment(&mut out, self.ciphertext.as_slice());
        proof {
            assert(out@ =~= ct_wire(self.commitment@, self.auth_tag@, self.ciphertext@));
        }
        out
    }

    /// Parse a wire-form ciphertext; the group points must decode
    /// canonically and the bytes must exhaust exactly.
    pub fn from_bytes(b: &[u8]) -> (r: Option<Ciphertext>)
        requires
            b@.len() <= u32::MAX,
        ensures
            (r is Some) == (ct_parse(b@) matches Some(p) && g1_decodes(p.0) && g2_decodes(p.1)),
            r matches Some(ct) ==> (ct_parse(b@) matches Some(p) && ct.commitment@ == p.0
                && ct.auth_tag@ == p.1 && ct.ciphertext@ == p.2),
    {
        let (u_bytes, o1) = match read_segment(b, 0) {
            Some(p) => p,
            None => {
                return None;
            },
        };
        let (w_bytes, o2) = match read_segment(b, o1) {
            Some(p) => p,
            None => {
                return None;
            },
        };
        let (c_bytes, o3) = match read_segment(b, o2) {
            Some(p) => p,
            None => {
                return None;
            },
        };
        if o3 != b.len() {
            return None;
        }
        let commitment = match g1_from_bytes(u_bytes.as_slice()) {
            Some(p) => p,
            None => {
                return None;
            },
        };
        let auth_tag = match g2_from_bytes(w_bytes.as_slice()) {
            Some(p) => p,
            None => {
                return None;
            },
        };
        Some(Ciphertext { commitment, auth_tag, ciphertext: c_bytes })
    }
}

} // verus!
