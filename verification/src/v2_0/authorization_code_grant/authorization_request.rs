//! The authorization request of the authorization code grant
//! (RFC 6749, section 4.1.1).

use crate::form::{
    encode_pairs, encode_pairs_text, lemma_encode_pairs_push, lemma_encoded_text, FormSerializer,
    Pair,
};
use crate::text::text_from_utf8_lossy;
use crate::v2_0::authorization_code_grant::pkce::PkceCodeChallenge;
use crate::v2_0::authorization_code_grant::state::State;
use crate::v2_0::scope::Scope;
use vstd::prelude::*;
use vstd::utf8::*;

verus! {

/// The pair that carries an optional text parameter, if it is set.
pub open spec fn optional_pair(name: Seq<char>, value: Option<Seq<char>>) -> Seq<Pair> {
    match value {
        Some(text) => seq![(name, text)],
        None => Seq::empty(),
    }
}

/// The `scope` pair, which is left out when the scope is empty.
pub open spec fn scope_pairs(scope: Scope) -> Seq<Pair> {
    if scope@.len() > 0 {
        seq![("scope"@, scope.text())]
    } else {
        Seq::empty()
    }
}

/// The two pairs of a PKCE challenge, if there is one.
pub open spec fn challenge_pairs(challenge: Option<PkceCodeChallenge>) -> Seq<Pair> {
    match challenge {
        Some(challenge) => seq![
            ("code_challenge"@, challenge.encoded()),
            ("code_challenge_method"@, challenge.method.name()),
        ],
        None => Seq::empty(),
    }
}

/// The parameters that the client adds to the query component of the
/// authorization endpoint URI.
pub struct AuthorizationRequestParams {
    /// The client identifier, as registered with the authorization
    /// server. It is no secret.
    pub client_id: String,
    /// The redirection endpoint to which the authorization server
    /// sends the user-agent back. It has to be an absolute URI
    /// without a fragment.
    pub redirect_uri: Option<String>,
    /// The scope of the access request.
    pub scope: Scope,
    /// An opaque value that the authorization server returns with the
    /// callback, used against cross-site request forgery.
    pub state: Option<State>,
    /// The PKCE challenge. Without one, no PKCE parameter is sent.
    pub pkce_code_challenge: Option<PkceCodeChallenge>,
}

impl AuthorizationRequestParams {
    /// The text of the `state` parameter, if a state is set.
    pub open spec fn state_text(&self) -> Option<Seq<char>> {
        match self.state {
            Some(state) => Some(decode_utf8(state@)),
            None => None,
        }
    }

    /// The bytes of the state, if a state is set.
    pub open spec fn state_bytes(&self) -> Option<Seq<u8>> {
        match self.state {
            Some(state) => Some(state@),
            None => None,
        }
    }

    /// The state, if there is one, and the scope are well formed.
    pub open spec fn wf(&self) -> bool {
        &&& self.state matches Some(state) ==> state.wf()
        &&& self.scope.wf()
    }

    /// The redirection URI, if one is set.
    pub open spec fn redirect_uri_text(&self) -> Option<Seq<char>> {
        match self.redirect_uri {
            Some(uri) => Some(uri@),
            None => None,
        }
    }

    /// The pairs of the query, in the order in which they are written:
    /// `response_type`, `client_id`, then `state`, `redirect_uri`,
    /// `scope` and the PKCE pair, each only if it is set.
    pub open spec fn pairs(&self) -> Seq<Pair> {
        seq![("response_type"@, "code"@), ("client_id"@, self.client_id@)] + optional_pair(
            "state"@,
            self.state_text(),
        ) + optional_pair("redirect_uri"@, self.redirect_uri_text()) + scope_pairs(self.scope)
            + challenge_pairs(self.pkce_code_challenge)
    }

    /// The query string of the request.
    pub open spec fn encoded(&self) -> Seq<char> {
        encode_pairs_text(self.pairs())
    }

    /// Writes the parameters into a new serializer, to which further
    /// pairs can be appended. This exposes the state and the PKCE
    /// code verifier.
    pub fn to_form_url_encoded_serializer(&self) -> (serializer: FormSerializer)
        ensures
            serializer.bytes() == encode_pairs(self.pairs()),
    {
        let mut serializer = FormSerializer::new();
        let ghost mut written: Seq<Pair> = Seq::empty();

        serializer.append_pair("response_type", "code");
        proof {
            lemma_encode_pairs_push(written, ("response_type"@, "code"@));
            written = written.push(("response_type"@, "code"@));
        }
        serializer.append_pair("client_id", self.client_id.as_str());
        proof {
            lemma_encode_pairs_push(written, ("client_id"@, self.client_id@));
            written = written.push(("client_id"@, self.client_id@));
        }

        if let Some(state) = &self.state {
            let text = text_from_utf8_lossy(state.expose());
            serializer.append_pair("state", text.as_str());
            proof {
                lemma_encode_pairs_push(written, ("state"@, text@));
                written = written.push(("state"@, text@));
            }
        }

        if let Some(uri) = &self.redirect_uri {
            serializer.append_pair("redirect_uri", uri.as_str());
            proof {
                lemma_encode_pairs_push(written, ("redirect_uri"@, uri@));
                written = written.push(("redirect_uri"@, uri@));
            }
        }

        if !self.scope.is_empty() {
            let scope = self.scope.join();
            serializer.append_pair("scope", scope.as_str());
            proof {
                lemma_encode_pairs_push(written, ("scope"@, scope@));
                written = written.push(("scope"@, scope@));
            }
        }

        if let Some(challenge) = &self.pkce_code_challenge {
            let encoded = challenge.encode();
            serializer.append_pair("code_challenge", encoded.as_str());
            proof {
                lemma_encode_pairs_push(written, ("code_challenge"@, encoded@));
                written = written.push(("code_challenge"@, encoded@));
            }
            serializer.append_pair("code_challenge_method", challenge.method.as_str());
            proof {
                let method = ("code_challenge_method"@, challenge.method.name());
                lemma_encode_pairs_push(written, method);
                written = written.push(method);
            }
        }
        proof {
            assert(written == self.pairs());
        }

        serializer
    }

    /// Returns the query string of the request. This exposes the
    /// state and the PKCE code verifier.
    pub fn to_form_url_encoded_string(&self) -> (query: String)
        ensures
            query@ == self.encoded(),
    {
        let text = self.to_form_url_encoded_serializer().finish();
        proof {
            lemma_encoded_text(text@, self.pairs());
        }
        text
    }
}

} // verus!
