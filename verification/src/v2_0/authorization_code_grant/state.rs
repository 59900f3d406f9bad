//! The anti-CSRF state of the authorization request.
//!
//! The client sends an unguessable value with the authorization
//! request and expects it back, unchanged, in the callback. A callback
//! with another value, or with none, was not caused by this request.

use crate::random::random_below;
use crate::secret::SecretBytes;
use crate::text::{is_ascii_bytes, lemma_ascii_bytes_decode};
use crate::v2_0::authorization_code_grant::pkce::{all_unreserved, unreserved_at, ALPHABET_LEN};
use crate::v2_0::error::OAuthError;
use vstd::prelude::*;
use vstd::slice::slice_to_vec;
use vstd::string::StringSliceAdditionalSpecFns;
use vstd::utf8::*;

verus! {

/// The number of characters of a freshly drawn state. Each is one of
/// 66 unreserved characters, so a state carries more than 190 bits.
pub const STATE_LEN: usize = 32;

/// True when the two optional states allow the flow to go on: both
/// are absent, or both are present and hold the same bytes.
pub open spec fn states_match(issued: Option<Seq<u8>>, returned: Option<Seq<u8>>) -> bool {
    issued == returned
}

/// An opaque value bound to one authorization request.
#[derive(Debug)]
pub struct State {
    secret: SecretBytes,
}

impl View for State {
    type V = Seq<u8>;

    closed spec fn view(&self) -> Seq<u8> {
        self.secret@
    }
}

impl State {
    /// The bytes of a state are the UTF-8 encoding of a text, so that
    /// the state survives being sent as a query parameter.
    #[verifier::type_invariant]
    pub closed spec fn wf(&self) -> bool {
        valid_utf8(self.secret@)
    }

    /// What [`State::wf`] says of the bytes.
    pub proof fn lemma_wf(&self)
        ensures
            self.wf() <==> valid_utf8(self@),
    {
    }

    /// Draws a fresh state of [`STATE_LEN`] unreserved characters from
    /// the cryptographically secure generator.
    pub fn new() -> (state: Self)
        ensures
            state.wf(),
            state@.len() == STATE_LEN,
            all_unreserved(state@),
    {
        let mut bytes: Vec<u8> = Vec::new();
        let mut drawn: usize = 0;
        while drawn < STATE_LEN
            invariant
                drawn <= STATE_LEN,
                bytes@.len() == drawn,
                all_unreserved(bytes@),
            decreases STATE_LEN - drawn,
        {
            let index: usize = random_below(ALPHABET_LEN);
            bytes.push(unreserved_at(index));
            drawn = drawn + 1;
        }
        proof {
            assert(is_ascii_bytes(bytes@));
            lemma_ascii_bytes_decode(bytes@);
        }
        State { secret: SecretBytes::new(bytes) }
    }

    /// Takes the state that a callback returned, or one that was
    /// stored as text.
    pub fn from_text(text: &str) -> (state: Self)
        ensures
            state.wf(),
            state@ == text.spec_bytes(),
    {
        let bytes = slice_to_vec(text.as_bytes());
        proof {
            encode_utf8_valid_utf8(text@);
        }
        State { secret: SecretBytes::new(bytes) }
    }

    /// Exposes the raw bytes of the state.
    pub fn expose(&self) -> (bytes: &[u8])
        ensures
            bytes@ == self@,
            valid_utf8(bytes@),
    {
        proof {
            use_type_invariant(self);
        }
        self.secret.expose()
    }

    /// Compares two states byte for byte. States of the same length
    /// are compared in full, whatever the position of the first
    /// difference.
    pub fn equals(&self, other: &State) -> (equal: bool)
        ensures
            equal == (self@ == other@),
    {
        let mine = self.secret.expose();
        let theirs = other.secret.expose();
        if mine.len() != theirs.len() {
            return false;
        }
        let mut difference: u8 = 0;
        let mut i: usize = 0;
        proof {
            assert(mine@.take(0) =~= theirs@.take(0));
        }
        while i < mine.len()
            invariant
                i <= mine.len(),
                mine.len() == theirs.len(),
                difference == 0 <==> mine@.take(i as int) == theirs@.take(i as int),
            decreases mine.len() - i,
        {
            let a: u8 = mine[i];
            let b: u8 = theirs[i];
            let before: u8 = difference;
            difference = difference | (a ^ b);
            proof {
                assert((before | (a ^ b)) == 0 <==> (before == 0 && a == b)) by (bit_vector);
                let m = mine@.take(i as int);
                let t = theirs@.take(i as int);
                let m1 = mine@.take(i + 1);
                let t1 = theirs@.take(i + 1);
                assert(m1 =~= m.push(a));
                assert(t1 =~= t.push(b));
                if m1 == t1 {
                    assert(m1.drop_last() =~= m);
                    assert(t1.drop_last() =~= t);
                    assert(m1.last() == a && t1.last() == b);
                }
            }
            i = i + 1;
        }
        proof {
            assert(mine@.take(mine@.len() as int) =~= mine@);
            assert(theirs@.take(theirs@.len() as int) =~= theirs@);
        }
        difference == 0
    }

    /// Checks the state of a callback against the one that was sent
    /// with the request. The flow may go on only if both are absent or
    /// both are present and equal.
    pub fn check(issued: Option<&State>, returned: Option<&State>) -> (checked: Result<
        (),
        OAuthError,
    >)
        ensures
            checked is Ok <==> states_match(
                match issued {
                    Some(state) => Some(state@),
                    None => None,
                },
                match returned {
                    Some(state) => Some(state@),
                    None => None,
                },
            ),
            checked is Err ==> checked == Err::<(), OAuthError>(OAuthError::CsrfStateMismatch),
    {
        match (issued, returned) {
            (None, None) => Ok(()),
            (Some(sent), Some(received)) => {
                if sent.equals(received) {
                    Ok(())
                } else {
                    Err(OAuthError::CsrfStateMismatch)
                }
            },
            _ => Err(OAuthError::CsrfStateMismatch),
        }
    }
}

impl PartialEq for State {
    /// Compares two states as [`State::equals`] does.
    fn eq(&self, other: &State) -> (equal: bool) {
        self.equals(other)
    }
}

impl vstd::std_specs::cmp::PartialEqSpecImpl for State {
    open spec fn obeys_eq_spec() -> bool {
        true
    }

    open spec fn eq_spec(&self, other: &State) -> bool {
        self@ == other@
    }
}

impl Clone for State {
    fn clone(&self) -> (copy: Self)
        ensures
            copy@ == self@,
    {
        proof {
            use_type_invariant(self);
        }
        State { secret: self.secret.clone() }
    }
}

} // verus!
