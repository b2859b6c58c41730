//! The composite fingerprint of a profile: the MD5 digest of its domain, the
//! SHA-224 digest of its software and the SHA-256 digest of its techniques,
//! each written in hexadecimal and joined in that order.

use crate::digest::{
    md5_bytes, md5_digest, sha224_bytes, sha224_digest, sha256_bytes, sha256_digest,
    SHA2_INPUT_LIMIT,
};
use crate::error::Error;
use crate::hexcode::{
    encode_hex, hex_text, hex_text_injective, hex_text_shape, is_hex_digit, is_hex_text,
};
use vstd::prelude::*;
use vstd::utf8::encode_utf8;

verus! {

/// Characters in the domain segment.
pub const DOMAIN_SEGMENT_LEN: usize = 32;

/// Characters in the software segment.
pub const SOFTWARE_SEGMENT_LEN: usize = 56;

/// Characters in the technique segment.
pub const TECHNIQUE_SEGMENT_LEN: usize = 64;

/// Characters in a fingerprint.
pub const FINGERPRINT_LEN: usize = 152;

/// A threat-actor record. `softwares` and `techniques` each hold the text of
/// one JSON value, whatever its kind and layout.
#[derive(Clone, Debug, PartialEq, Eq)]
pub struct Profile {
    pub domain: String,
    pub name: String,
    pub softwares: String,
    pub techniques: String,
}

/// A profile as its four texts.
pub struct ProfileView {
    pub domain: Seq<char>,
    pub name: Seq<char>,
    pub softwares: Seq<char>,
    pub techniques: Seq<char>,
}

impl View for Profile {
    type V = ProfileView;

    open spec fn view(&self) -> ProfileView {
        ProfileView {
            domain: self.domain@,
            name: self.name@,
            softwares: self.softwares@,
            techniques: self.techniques@,
        }
    }
}

/// The compact text of the JSON value that `text` holds: members in the order
/// in which `text` gives them, no white space between tokens. `None` where
/// `text` is not the text of one JSON value.
pub uninterp spec fn compact_json(text: Seq<char>) -> Option<Seq<char>>;

/// Reads `text` with `serde_json::from_str` as a `serde_json::Value` and writes
/// the value back with its `to_string`. Trusted: whether the text is accepted,
/// and the text written back, depend on `text` alone; `compact_json` names both.
#[verifier::external_body]
pub(crate) fn compact_json_text(text: &str) -> (compact: Option<String>)
    ensures
        compact is Some <==> compact_json(text@) is Some,
        compact matches Some(c) ==> c@ == compact_json(text@)->0,
{
    match serde_json::from_str::<serde_json::Value>(text) {
        Ok(value) => Some(value.to_string()),
        Err(_) => None,
    }
}

/// A text short enough for the SHA-2 hashers.
pub open spec fn hashable(text: Seq<char>) -> bool {
    encode_utf8(text).len() < SHA2_INPUT_LIMIT
}

/// The first thirty-two characters: the MD5 digest of the domain.
pub open spec fn domain_segment(domain: Seq<char>) -> Seq<char> {
    hex_text(md5_digest(encode_utf8(domain))@)
}

/// The next fifty-six characters: the SHA-224 digest of the software text.
pub open spec fn software_segment(softwares: Seq<char>) -> Seq<char> {
    hex_text(sha224_digest(encode_utf8(softwares))@)
}

/// The last sixty-four characters: the SHA-256 digest of the technique text.
pub open spec fn technique_segment(techniques: Seq<char>) -> Seq<char> {
    hex_text(sha256_digest(encode_utf8(techniques))@)
}

/// The fingerprint made of a domain and of two texts that are hashed as they
/// stand.
pub open spec fn fingerprint_text(
    domain: Seq<char>,
    softwares: Seq<char>,
    techniques: Seq<char>,
) -> Seq<char> {
    domain_segment(domain) + software_segment(softwares) + technique_segment(techniques)
}

/// What `build_fingerprint` returns for a profile.
pub open spec fn profile_fingerprint(profile: ProfileView) -> Result<Seq<char>, Error> {
    match (compact_json(profile.softwares), compact_json(profile.techniques)) {
        (Some(softwares), Some(techniques)) => {
            if hashable(softwares) && hashable(techniques) {
                Ok(fingerprint_text(profile.domain, softwares, techniques))
            } else {
                Err(Error::Oversized)
            }
        },
        _ => Err(Error::Parse),
    }
}

/// A string of exactly 152 lower-case hexadecimal digits.
pub open spec fn is_fingerprint(text: Seq<char>) -> bool {
    text.len() == FINGERPRINT_LEN && is_hex_text(text)
}

/// A fingerprint is 152 hexadecimal digits: the domain segment in its first
/// 32 characters, the software segment in the next 56 and the technique
/// segment in the last 64.
pub proof fn fingerprint_shape(domain: Seq<char>, softwares: Seq<char>, techniques: Seq<char>)
    ensures
        is_fingerprint(fingerprint_text(domain, softwares, techniques)),
        domain_segment(domain).len() == DOMAIN_SEGMENT_LEN,
        software_segment(softwares).len() == SOFTWARE_SEGMENT_LEN,
        technique_segment(techniques).len() == TECHNIQUE_SEGMENT_LEN,
        fingerprint_text(domain, softwares, techniques).subrange(0, 32) == domain_segment(domain),
        fingerprint_text(domain, softwares, techniques).subrange(32, 88) == software_segment(
            softwares,
        ),
        fingerprint_text(domain, softwares, techniques).subrange(88, 152) == technique_segment(
            techniques,
        ),
{
    let a = domain_segment(domain);
    let b = software_segment(softwares);
    let c = technique_segment(techniques);
    let text = fingerprint_text(domain, softwares, techniques);
    hex_text_shape(md5_digest(encode_utf8(domain))@);
    hex_text_shape(sha224_digest(encode_utf8(softwares))@);
    hex_text_shape(sha256_digest(encode_utf8(techniques))@);
    assert(text.len() == 152);
    assert forall|i: int| 0 <= i < text.len() implies is_hex_digit(
        #[trigger] text[i],
    ) by {
        if i < 32 {
            assert(text[i] == a[i]);
        } else if i < 88 {
            assert(text[i] == b[i - 32]);
        } else {
            assert(text[i] == c[i - 88]);
        }
    }
    assert(text.subrange(0, 32) =~= a);
    assert(text.subrange(32, 88) =~= b);
    assert(text.subrange(88, 152) =~= c);
}

/// The fingerprint of a profile depends on its domain, software and
/// techniques alone: profiles that agree on the three have the same
/// fingerprint, or fail alike, and a fingerprint is always 152 hexadecimal
/// digits.
pub proof fn fingerprint_determined(p: ProfileView, q: ProfileView)
    requires
        p.domain == q.domain,
        p.softwares == q.softwares,
        p.techniques == q.techniques,
    ensures
        profile_fingerprint(p) == profile_fingerprint(q),
        profile_fingerprint(p) matches Ok(text) ==> is_fingerprint(text),
{
    if let (Some(softwares), Some(techniques)) = (
        compact_json(p.softwares),
        compact_json(p.techniques),
    ) {
        fingerprint_shape(p.domain, softwares, techniques);
    }
}

/// Each segment of a fingerprint depends on one field alone. Two profiles
/// with the same domain agree on the first 32 characters of their
/// fingerprints, two with the same software on the next 56, two with the same
/// techniques on the last 64. A segment differs between two fingerprints
/// exactly when the digests written in it differ.
pub proof fn segments_independent(p: ProfileView, q: ProfileView)
    requires
        profile_fingerprint(p) is Ok,
        profile_fingerprint(q) is Ok,
    ensures
        p.domain == q.domain ==> profile_fingerprint(p)->Ok_0.subrange(0, 32)
            == profile_fingerprint(q)->Ok_0.subrange(0, 32),
        p.softwares == q.softwares ==> profile_fingerprint(p)->Ok_0.subrange(32, 88)
            == profile_fingerprint(q)->Ok_0.subrange(32, 88),
        p.techniques == q.techniques ==> profile_fingerprint(p)->Ok_0.subrange(88, 152)
            == profile_fingerprint(q)->Ok_0.subrange(88, 152),
        profile_fingerprint(p)->Ok_0.subrange(0, 32) == profile_fingerprint(q)->Ok_0.subrange(0, 32)
            <==> md5_digest(encode_utf8(p.domain))@ == md5_digest(encode_utf8(q.domain))@,
        profile_fingerprint(p)->Ok_0.subrange(32, 88) == profile_fingerprint(q)->Ok_0.subrange(
            32,
            88,
        ) <==> sha224_digest(encode_utf8(compact_json(p.softwares)->0))@ == sha224_digest(
            encode_utf8(compact_json(q.softwares)->0),
        )@,
        profile_fingerprint(p)->Ok_0.subrange(88, 152) == profile_fingerprint(q)->Ok_0.subrange(
            88,
            152,
        ) <==> sha256_digest(encode_utf8(compact_json(p.techniques)->0))@ == sha256_digest(
            encode_utf8(compact_json(q.techniques)->0),
        )@,
{
    let ps = compact_json(p.softwares)->0;
    let pt = compact_json(p.techniques)->0;
    let qs = compact_json(q.softwares)->0;
    let qt = compact_json(q.techniques)->0;
    fingerprint_shape(p.domain, ps, pt);
    fingerprint_shape(q.domain, qs, qt);
    if domain_segment(p.domain) == domain_segment(q.domain) {
        hex_text_injective(
            md5_digest(encode_utf8(p.domain))@,
            md5_digest(encode_utf8(q.domain))@,
        );
    }
    if software_segment(ps) == software_segment(qs) {
        hex_text_injective(sha224_digest(encode_utf8(ps))@, sha224_digest(encode_utf8(qs))@);
    }
    if technique_segment(pt) == technique_segment(qt) {
        hex_text_injective(sha256_digest(encode_utf8(pt))@, sha256_digest(encode_utf8(qt))@);
    }
}

/// Joins the three digests of a domain and of two texts that are hashed as
/// they stand.
pub fn compose_fingerprint(domain: &str, softwares: &str, techniques: &str) -> (fingerprint: String)
    requires
        hashable(softwares@),
        hashable(techniques@),
    ensures
        fingerprint@ == fingerprint_text(domain@, softwares@, techniques@),
        is_fingerprint(fingerprint@),
{
    proof {
        fingerprint_shape(domain@, softwares@, techniques@);
    }
    let domain_digest = md5_bytes(domain.as_bytes());
    let software_digest = sha224_bytes(softwares.as_bytes());
    let technique_digest = sha256_bytes(techniques.as_bytes());
    let mut fingerprint = encode_hex(domain_digest.as_slice());
    let software_hex = encode_hex(software_digest.as_slice());
    let technique_hex = encode_hex(technique_digest.as_slice());
    fingerprint.append(software_hex.as_str());
    fingerprint.append(technique_hex.as_str());
    fingerprint
}

/// Whether `text` is short enough for the SHA-2 hashers.
pub fn is_hashable(text: &str) -> (short: bool)
    ensures
        short == hashable(text@),
{
    (text.as_bytes().len() as u64) < SHA2_INPUT_LIMIT
}

/// The fingerprint of a profile. The software and technique values are
/// written compactly before they are hashed, so that two texts of one value
/// give one fingerprint.
pub fn build_fingerprint(profile: &Profile) -> (fingerprint: Result<String, Error>)
    ensures
        fingerprint is Ok <==> profile_fingerprint(profile@) is Ok,
        fingerprint matches Ok(text) ==> Ok::<Seq<char>, Error>(text@) == profile_fingerprint(
            profile@,
        ),
        fingerprint matches Err(e) ==> Err::<Seq<char>, Error>(e) == profile_fingerprint(
            profile@,
        ),
        fingerprint matches Ok(text) ==> is_fingerprint(text@),
{
    let softwares = match compact_json_text(profile.softwares.as_str()) {
        Some(text) => text,
        None => { return Err(Error::Parse); },
    };
    let techniques = match compact_json_text(profile.techniques.as_str()) {
        Some(text) => text,
        None => { return Err(Error::Parse); },
    };
    if !is_hashable(softwares.as_str()) || !is_hashable(techniques.as_str()) {
        return Err(Error::Oversized);
    }
    Ok(compose_fingerprint(profile.domain.as_str(), softwares.as_str(), techniques.as_str()))
}

} // verus!
