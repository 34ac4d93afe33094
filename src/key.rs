//! Classifying a name: the hostname portion and the public-key identifier parse.

use vstd::prelude::*;

verus! {

/// What `base32::decode` with the z-base-32 alphabet returns for a text.
pub uninterp spec fn zbase32_decoded(s: Seq<char>) -> Option<Seq<u8>>;

/// Whether `ed25519_dalek::VerifyingKey::try_from` accepts a byte string.
pub uninterp spec fn accepts_verifying_key(b: Seq<u8>) -> bool;

pub open spec fn is_port_digit(c: char) -> bool {
    '0' <= c && c <= '9'
}

/// The number of decimal digits at the end of a text.
pub open spec fn trailing_digits(s: Seq<char>) -> nat
    decreases s.len(),
{
    if s.len() > 0 && is_port_digit(s.last()) {
        1 + trailing_digits(s.drop_last())
    } else {
        0
    }
}

/// Whether a text ends in `:` followed by one or more decimal digits.
pub open spec fn has_port_suffix(s: Seq<char>) -> bool {
    let k = s.len() - trailing_digits(s);
    trailing_digits(s) > 0 && k > 0 && s[k - 1] == ':'
}

/// The hostname portion of a name: the name without a trailing `:port`.
pub open spec fn host_part(s: Seq<char>) -> Seq<char> {
    if has_port_suffix(s) {
        s.subrange(0, s.len() - trailing_digits(s) - 1)
    } else {
        s
    }
}

/// Whether a text is a public-key identifier: it decodes as z-base-32 to bytes
/// that form a valid ed25519 verifying key.
pub open spec fn is_key_text(s: Seq<char>) -> bool {
    match zbase32_decoded(s) {
        Some(b) => accepts_verifying_key(b),
        None => false,
    }
}

/// Whether the hostname portion of a name is a public-key identifier.
pub open spec fn parses_as_key(name: Seq<char>) -> bool {
    is_key_text(host_part(name))
}

pub open spec fn opt_bytes(r: Option<Vec<u8>>) -> Option<Seq<u8>> {
    match r {
        Some(v) => Some(v@),
        None => None,
    }
}

/// Relies on `base32::decode` with `Alphabet::Z`: the bytes that a z-base-32
/// text encodes, or `None` where the text holds a character outside the alphabet.
#[verifier::external_body]
fn decode_zbase32(s: &str) -> (r: Option<Vec<u8>>)
    ensures
        opt_bytes(r) == zbase32_decoded(s@),
{
    base32::decode(base32::Alphabet::Z, s)
}

/// Relies on `ed25519_dalek::VerifyingKey::try_from(&[u8])`: whether the bytes
/// are 32 long and decompress to a point of the curve.
#[verifier::external_body]
fn verifying_key_accepts(b: &[u8]) -> (r: bool)
    ensures
        r == accepts_verifying_key(b@),
        b@.len() != 32 ==> !r,
{
    ed25519_dalek::VerifyingKey::try_from(b).is_ok()
}

/// The hostname portion of `name`: `name` without a trailing `:port`.
pub fn host_of(name: &str) -> (r: &str)
    ensures
        r@ == host_part(name@),
{
    let n = name.unicode_len();
    let mut i: usize = n;
    assert(name@.subrange(0, n as int) =~= name@);
    while i > 0 && is_port_digit_exec(name.get_char(i - 1))
        invariant
            i <= n,
            n == name@.len(),
            trailing_digits(name@) == (n - i) + trailing_digits(name@.subrange(0, i as int)),
        decreases i,
    {
        assert(name@.subrange(0, i as int).drop_last() =~= name@.subrange(0, i - 1));
        i = i - 1;
    }
    if i > 0 {
        assert(!is_port_digit(name@.subrange(0, i as int).last()));
    }
    if i < n && i > 0 && name.get_char(i - 1) == ':' {
        name.substring_char(0, i - 1)
    } else {
        name
    }
}

fn is_port_digit_exec(c: char) -> (r: bool)
    ensures
        r == is_port_digit(c),
{
    '0' <= c && c <= '9'
}

/// A public-key identifier: a text that decodes to a valid ed25519 verifying
/// key. Values are made only by [`PublicKey::try_parse`].
pub struct PublicKey {
    text: String,
    bytes: Vec<u8>,
}

impl PublicKey {
    /// The identifier's text.
    pub closed spec fn text_view(&self) -> Seq<char> {
        self.text@
    }

    /// The key's bytes.
    pub closed spec fn bytes_view(&self) -> Seq<u8> {
        self.bytes@
    }

    pub closed spec fn wf(&self) -> bool {
        &&& zbase32_decoded(self.text@) == Some(self.bytes@)
        &&& accepts_verifying_key(self.bytes@)
        &&& self.bytes@.len() == 32
    }

    /// Parses `s` as a public-key identifier; `None` exactly where it is not one.
    pub fn try_parse(s: &str) -> (r: Option<PublicKey>)
        ensures
            r is Some <==> is_key_text(s@),
            r matches Some(k) ==> k.wf() && k.text_view() == s@ && Some(k.bytes_view())
                == zbase32_decoded(s@),
    {
        match decode_zbase32(s) {
            Some(bytes) => {
                if verifying_key_accepts(bytes.as_slice()) {
                    Some(PublicKey { text: s.to_owned(), bytes })
                } else {
                    None
                }
            },
            None => None,
        }
    }

    /// The identifier's text.
    pub fn as_str(&self) -> (r: &str)
        ensures
            r@ == self.text_view(),
    {
        self.text.as_str()
    }

    /// The key's 32 bytes.
    pub fn to_bytes(&self) -> (r: Vec<u8>)
        requires
            self.wf(),
        ensures
            r@ == self.bytes_view(),
            r@.len() == 32,
    {
        self.bytes.clone()
    }
}

/// Whether the hostname portion of `name` is a public-key identifier.
pub fn is_public_key_name(name: &str) -> (r: bool)
    ensures
        r == parses_as_key(name@),
{
    let host = host_of(name);
    PublicKey::try_parse(host).is_some()
}

} // verus!
