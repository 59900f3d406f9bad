//! Proof Key for Code Exchange (RFC 7636).
//!
//! A code verifier is a secret string of unreserved characters. The
//! authorization request carries a challenge derived from it, and the
//! token request carries the verifier itself, which binds the two
//! requests together.

use crate::digest::{base64url, base64url_encode, is_base64url_char, sha256, sha256_digest};
use crate::random::random_below;
use crate::secret::SecretBytes;
use crate::text::{ascii_text, is_ascii_bytes, lemma_ascii_bytes_decode, text_from_utf8_lossy};
use crate::v2_0::error::OAuthError;
use vstd::prelude::*;
use vstd::string::StringSliceAdditionalSpecFns;

verus! {

/// The shortest code verifier that RFC 7636 allows.
pub const MIN_VERIFIER_LEN: u8 = 43;

/// The longest code verifier that RFC 7636 allows.
pub const MAX_VERIFIER_LEN: u8 = 128;

/// The number of unreserved characters.
pub const ALPHABET_LEN: usize = 66;

/// The number of characters of a challenge of the SHA-256 method: the
/// unpadded base64 text of 32 bytes.
pub const S256_CHALLENGE_LEN: usize = 43;

/// `unreserved = ALPHA / DIGIT / "-" / "." / "_" / "~"`
pub open spec fn is_unreserved(byte: u8) -> bool {
    (0x41 <= byte <= 0x5A) || (0x61 <= byte <= 0x7A) || (0x30 <= byte <= 0x39) || byte == 0x2D
        || byte == 0x2E || byte == 0x5F || byte == 0x7E
}

/// True when every byte of the sequence is unreserved.
pub open spec fn all_unreserved(bytes: Seq<u8>) -> bool {
    forall|i: int| 0 <= i < bytes.len() ==> is_unreserved(#[trigger] bytes[i])
}

/// The unreserved characters in the order upper-case letters,
/// lower-case letters, digits, `-`, `.`, `_`, `~`.
pub open spec fn alphabet(index: int) -> u8 {
    if index < 26 {
        (0x41 + index) as u8
    } else if index < 52 {
        (0x61 + index - 26) as u8
    } else if index < 62 {
        (0x30 + index - 52) as u8
    } else if index == 62 {
        0x2Du8
    } else if index == 63 {
        0x2Eu8
    } else if index == 64 {
        0x5Fu8
    } else {
        0x7Eu8
    }
}

/// The length that a verifier gets when `size` characters are asked
/// for: `size` brought into the range from 43 to 128.
pub open spec fn clamped_len(size: u8) -> int {
    if size < MIN_VERIFIER_LEN {
        MIN_VERIFIER_LEN as int
    } else if size > MAX_VERIFIER_LEN {
        MAX_VERIFIER_LEN as int
    } else {
        size as int
    }
}

/// The position of the first byte that is not unreserved, or the
/// length of the sequence when there is none.
pub open spec fn first_reserved(bytes: Seq<u8>) -> int
    decreases bytes.len(),
{
    if bytes.len() == 0 {
        0
    } else if !is_unreserved(bytes[0]) {
        0
    } else {
        1 + first_reserved(bytes.drop_first())
    }
}

/// `first_reserved` is a position at or before the end, everything
/// before it is unreserved, and the byte at it, if any, is not.
pub proof fn lemma_first_reserved(bytes: Seq<u8>)
    ensures
        0 <= first_reserved(bytes) <= bytes.len(),
        all_unreserved(bytes.take(first_reserved(bytes))),
        first_reserved(bytes) < bytes.len() ==> !is_unreserved(bytes[first_reserved(bytes)]),
        first_reserved(bytes) == bytes.len() <==> all_unreserved(bytes),
    decreases bytes.len(),
{
    if bytes.len() > 0 && is_unreserved(bytes[0]) {
        let rest = bytes.drop_first();
        lemma_first_reserved(rest);
        let k = first_reserved(rest);
        assert forall|i: int| 0 <= i < k + 1 implies is_unreserved(
            #[trigger] bytes.take(k + 1)[i],
        ) by {
            if i > 0 {
                assert(bytes.take(k + 1)[i] == rest.take(k)[i - 1]);
            }
        }
        if k == rest.len() {
            assert forall|i: int| 0 <= i < bytes.len() implies is_unreserved(
                #[trigger] bytes[i],
            ) by {
                if i > 0 {
                    assert(bytes[i] == rest[i - 1]);
                }
            }
        }
    }
}

/// Tells whether a byte is an unreserved character.
pub fn is_unreserved_byte(byte: u8) -> (unreserved: bool)
    ensures
        unreserved == is_unreserved(byte),
{
    (0x41 <= byte && byte <= 0x5A) || (0x61 <= byte && byte <= 0x7A) || (0x30 <= byte && byte
        <= 0x39) || byte == 0x2D || byte == 0x2E || byte == 0x5F || byte == 0x7E
}

/// Returns the unreserved character at `index` of the alphabet.
pub fn unreserved_at(index: usize) -> (byte: u8)
    requires
        index < ALPHABET_LEN,
    ensures
        byte == alphabet(index as int),
        is_unreserved(byte),
{
    if index < 26 {
        0x41u8 + index as u8
    } else if index < 52 {
        0x61u8 + (index - 26) as u8
    } else if index < 62 {
        0x30u8 + (index - 52) as u8
    } else if index == 62 {
        0x2D
    } else if index == 63 {
        0x2E
    } else if index == 64 {
        0x5F
    } else {
        0x7E
    }
}

/// How a code challenge is derived from its verifier.
#[derive(Clone, Copy, Debug, PartialEq, Eq, Structural)]
pub enum PkceCodeChallengeMethod {
    /// The challenge is the verifier itself. Kept for servers that
    /// cannot do better; prefer [`PkceCodeChallengeMethod::Sha256`].
    Plain,
    /// The challenge is the unpadded base64url text of the SHA-256
    /// digest of the verifier.
    Sha256,
}

impl PkceCodeChallengeMethod {
    /// The wire name of the method.
    pub open spec fn name(self) -> Seq<char> {
        match self {
            PkceCodeChallengeMethod::Plain => "plain"@,
            PkceCodeChallengeMethod::Sha256 => "S256"@,
        }
    }

    /// Returns the value of the `code_challenge_method` parameter.
    pub fn as_str(&self) -> (name: &'static str)
        ensures
            name@ == self.name(),
    {
        match self {
            PkceCodeChallengeMethod::Plain => "plain",
            PkceCodeChallengeMethod::Sha256 => "S256",
        }
    }
}

impl Default for PkceCodeChallengeMethod {
    fn default() -> (method: Self)
        ensures
            method == PkceCodeChallengeMethod::Sha256,
    {
        PkceCodeChallengeMethod::Sha256
    }
}

/// The secret of a PKCE exchange: a string of unreserved characters.
#[derive(Debug)]
pub struct PkceCodeVerifier {
    secret: SecretBytes,
}

impl View for PkceCodeVerifier {
    type V = Seq<u8>;

    closed spec fn view(&self) -> Seq<u8> {
        self.secret@
    }
}

impl PkceCodeVerifier {
    /// Every byte of a verifier is an unreserved character.
    #[verifier::type_invariant]
    pub closed spec fn wf(&self) -> bool {
        all_unreserved(self.secret@)
    }

    /// What [`PkceCodeVerifier::wf`] says of the bytes.
    pub proof fn lemma_wf(&self)
        ensures
            self.wf() <==> all_unreserved(self@),
    {
    }

    /// Draws a new verifier of `size` characters, each taken uniformly
    /// from the unreserved characters. A `size` outside the range from
    /// 43 to 128 is brought into it.
    pub fn new(size: u8) -> (verifier: Self)
        ensures
            verifier.wf(),
            verifier@.len() == clamped_len(size),
            MIN_VERIFIER_LEN <= verifier@.len() <= MAX_VERIFIER_LEN,
            all_unreserved(verifier@),
    {
        let len: u8 = if size < MIN_VERIFIER_LEN {
            MIN_VERIFIER_LEN
        } else if size > MAX_VERIFIER_LEN {
            MAX_VERIFIER_LEN
        } else {
            size
        };
        let mut bytes: Vec<u8> = Vec::new();
        let mut drawn: u8 = 0;
        while drawn < len
            invariant
                drawn <= len,
                bytes@.len() == drawn,
                all_unreserved(bytes@),
            decreases len - drawn,
        {
            let index: usize = random_below(ALPHABET_LEN);
            bytes.push(unreserved_at(index));
            drawn = drawn + 1;
        }
        PkceCodeVerifier { secret: SecretBytes::new(bytes) }
    }

    /// Reads a verifier from text. Every byte of the text has to be an
    /// unreserved character; the first one that is not is reported.
    pub fn parse(text: &str) -> (parsed: Result<Self, OAuthError>)
        ensures
            match parsed {
                Ok(verifier) => {
                    &&& all_unreserved(text.spec_bytes())
                    &&& verifier.wf()
                    &&& verifier@ == text.spec_bytes()
                },
                Err(error) => {
                    &&& !all_unreserved(text.spec_bytes())
                    &&& error == OAuthError::InvalidPkceCharacter(
                        text.spec_bytes()[first_reserved(text.spec_bytes())],
                    )
                },
            },
    {
        let bytes = text.as_bytes();
        let mut copy: Vec<u8> = Vec::new();
        let mut i: usize = 0;
        proof {
            lemma_first_reserved(bytes@);
        }
        while i < bytes.len()
            invariant
                i <= bytes.len(),
                bytes@ == text.spec_bytes(),
                copy@ == bytes@.take(i as int),
                all_unreserved(copy@),
                i <= first_reserved(bytes@) <= bytes@.len(),
                all_unreserved(bytes@.take(first_reserved(bytes@))),
                first_reserved(bytes@) < bytes@.len() ==> !is_unreserved(
                    bytes@[first_reserved(bytes@)],
                ),
                first_reserved(bytes@) == bytes@.len() <==> all_unreserved(bytes@),
            decreases bytes.len() - i,
        {
            let byte: u8 = bytes[i];
            if !is_unreserved_byte(byte) {
                proof {
                    let first = first_reserved(bytes@);
                    if (i as int) < first {
                        assert(is_unreserved(bytes@.take(first)[i as int]));
                    }
                }
                return Err(OAuthError::InvalidPkceCharacter(byte));
            }
            copy.push(byte);
            i = i + 1;
        }
        Ok(PkceCodeVerifier { secret: SecretBytes::new(copy) })
    }

    /// Exposes the code verifier.
    pub fn expose(&self) -> (bytes: &[u8])
        ensures
            bytes@ == self@,
            all_unreserved(bytes@),
    {
        proof {
            use_type_invariant(self);
        }
        self.secret.expose()
    }
}

impl std::str::FromStr for PkceCodeVerifier {
    type Err = OAuthError;

    /// Reads a verifier from text, as [`PkceCodeVerifier::parse`]
    /// does.
    fn from_str(text: &str) -> (parsed: Result<Self, OAuthError>)
        ensures
            match parsed {
                Ok(verifier) => {
                    &&& all_unreserved(text.spec_bytes())
                    &&& verifier.wf()
                    &&& verifier@ == text.spec_bytes()
                },
                Err(error) => {
                    &&& !all_unreserved(text.spec_bytes())
                    &&& error == OAuthError::InvalidPkceCharacter(
                        text.spec_bytes()[first_reserved(text.spec_bytes())],
                    )
                },
            },
    {
        PkceCodeVerifier::parse(text)
    }
}

impl Default for PkceCodeVerifier {
    /// Draws a verifier of the minimum length.
    fn default() -> (verifier: Self)
        ensures
            verifier.wf(),
            verifier@.len() == MIN_VERIFIER_LEN,
    {
        PkceCodeVerifier::new(MIN_VERIFIER_LEN)
    }
}

impl Clone for PkceCodeVerifier {
    fn clone(&self) -> (copy: Self)
        ensures
            copy@ == self@,
    {
        proof {
            use_type_invariant(self);
        }
        PkceCodeVerifier { secret: self.secret.clone() }
    }
}

/// The text of the challenge that `method` derives from the verifier
/// bytes.
pub open spec fn challenge_text(method: PkceCodeChallengeMethod, verifier: Seq<u8>) -> Seq<char> {
    match method {
        PkceCodeChallengeMethod::Plain => ascii_text(verifier),
        PkceCodeChallengeMethod::Sha256 => base64url(sha256(verifier)),
    }
}

/// A code verifier together with the method that turns it into the
/// challenge of the authorization request.
#[derive(Debug)]
pub struct PkceCodeChallenge {
    pub method: PkceCodeChallengeMethod,
    pub verifier: PkceCodeVerifier,
}

impl PkceCodeChallenge {
    /// The text that [`PkceCodeChallenge::encode`] returns.
    pub open spec fn encoded(&self) -> Seq<char> {
        challenge_text(self.method, self.verifier@)
    }

    /// Returns the value of the `code_challenge` parameter: the
    /// verifier itself for the plain method, and the unpadded
    /// base64url text of its SHA-256 digest otherwise, which has 43
    /// characters of the URL-safe alphabet.
    pub fn encode(&self) -> (text: String)
        ensures
            text@ == self.encoded(),
            self.method == PkceCodeChallengeMethod::Sha256 ==> {
                &&& text@.len() == S256_CHALLENGE_LEN
                &&& forall|i: int|
                    0 <= i < text@.len() ==> is_base64url_char(#[trigger] text@[i])
            },
    {
        match self.method {
            PkceCodeChallengeMethod::Plain => {
                let verifier = self.verifier.expose();
                proof {
                    assert(is_ascii_bytes(verifier@));
                    lemma_ascii_bytes_decode(verifier@);
                }
                text_from_utf8_lossy(verifier)
            },
            PkceCodeChallengeMethod::Sha256 => {
                let digest = sha256_digest(self.verifier.expose());
                base64url_encode(digest.as_slice())
            },
        }
    }
}

impl Clone for PkceCodeChallenge {
    fn clone(&self) -> (copy: Self)
        ensures
            copy.method == self.method,
            copy.verifier@ == self.verifier@,
    {
        PkceCodeChallenge { method: self.method, verifier: self.verifier.clone() }
    }
}

impl Default for PkceCodeChallenge {
    /// A fresh verifier of the minimum length with the SHA-256 method.
    fn default() -> (challenge: Self)
        ensures
            challenge.method == PkceCodeChallengeMethod::Sha256,
            challenge.verifier@.len() == MIN_VERIFIER_LEN,
    {
        PkceCodeChallenge {
            method: PkceCodeChallengeMethod::Sha256,
            verifier: PkceCodeVerifier::new(MIN_VERIFIER_LEN),
        }
    }
}

/// The challenge depends on nothing but the method and the bytes of
/// the verifier: two challenges that agree in both encode to the same
/// text.
pub proof fn lemma_challenge_deterministic(first: PkceCodeChallenge, second: PkceCodeChallenge)
    requires
        first.method == second.method,
        first.verifier@ == second.verifier@,
    ensures
        first.encoded() == second.encoded(),
{
}

/// With the plain method, distinct verifiers have distinct challenges.
pub proof fn lemma_plain_challenge_injective(first: Seq<u8>, second: Seq<u8>)
    requires
        all_unreserved(first),
        all_unreserved(second),
        challenge_text(PkceCodeChallengeMethod::Plain, first) == challenge_text(
            PkceCodeChallengeMethod::Plain,
            second,
        ),
    ensures
        first == second,
{
    let a = ascii_text(first);
    let b = ascii_text(second);
    assert(a.len() == b.len());
    assert forall|i: int| 0 <= i < first.len() implies first[i] == second[i] by {
        assert(a[i] == b[i]);
    }
}

} // verus!
