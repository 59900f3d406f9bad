//! What is sent can be read back: the parameters of an authorization
//! request are those that the parser reads from its query string.

use crate::form::{decode_pairs, Pair};
use crate::form_laws::lemma_decode_encoded_text;
use crate::v2_0::authorization_code_grant::authorization_request::{
    challenge_pairs, optional_pair, scope_pairs, AuthorizationRequestParams,
};
use crate::v2_0::authorization_code_grant::authorization_response::{first_value, optional_bytes};
use crate::v2_0::scope::{lemma_tokens_of_joined, tokens_of};
use vstd::prelude::*;
use vstd::utf8::*;

verus! {

/// The first value of a name in two sequences of pairs, one after the
/// other, is its first value in the first, and else in the second.
pub proof fn lemma_first_value_concat(front: Seq<Pair>, back: Seq<Pair>, name: Seq<char>)
    ensures
        first_value(front + back, name) == match first_value(front, name) {
            Some(value) => Some(value),
            None => first_value(back, name),
        },
    decreases front.len(),
{
    if front.len() > 0 {
        assert((front + back).skip(1) =~= front.skip(1) + back);
        lemma_first_value_concat(front.skip(1), back, name);
    }
}

/// The names of the parameters of an authorization request differ
/// from one another.
pub proof fn lemma_parameter_names()
    ensures
        "response_type"@ != "client_id"@,
        "response_type"@ != "state"@,
        "response_type"@ != "scope"@,
        "client_id"@ != "state"@,
        "client_id"@ != "scope"@,
        "redirect_uri"@ != "client_id"@,
        "redirect_uri"@ != "state"@,
        "redirect_uri"@ != "scope"@,
        "state"@ != "scope"@,
        "code_challenge"@ != "client_id"@,
        "code_challenge"@ != "state"@,
        "code_challenge"@ != "scope"@,
        "code_challenge_method"@ != "client_id"@,
        "code_challenge_method"@ != "state"@,
        "code_challenge_method"@ != "scope"@,
{
    reveal_strlit("response_type");
    reveal_strlit("client_id");
    reveal_strlit("state");
    reveal_strlit("redirect_uri");
    reveal_strlit("scope");
    reveal_strlit("code_challenge");
    reveal_strlit("code_challenge_method");
    assert("client_id"@.len() == 9);
    assert("state"@[1] != "scope"@[1]);
}

/// A sequence of pairs none of which has the given name gives no
/// value for it.
pub proof fn lemma_first_value_none(pairs: Seq<Pair>, name: Seq<char>)
    requires
        forall|i: int| 0 <= i < pairs.len() ==> (#[trigger] pairs[i]).0 != name,
    ensures
        first_value(pairs, name) is None,
    decreases pairs.len(),
{
    if pairs.len() > 0 {
        lemma_first_value_none(pairs.skip(1), name);
    }
}

/// Reading back the query string of an authorization request gives
/// the pairs that were written, and with them the same client
/// identifier, the same state and the same scope.
pub proof fn lemma_authorization_request_round_trip(params: AuthorizationRequestParams)
    requires
        params.wf(),
    ensures
        ({
            let pairs = decode_pairs(encode_utf8(params.encoded()));
            &&& pairs == params.pairs()
            &&& first_value(pairs, "client_id"@) == Some(params.client_id@)
            &&& optional_bytes(first_value(pairs, "state"@)) == params.state_bytes()
            &&& params.scope@ == match first_value(pairs, "scope"@) {
                Some(text) => tokens_of(text),
                None => Seq::empty(),
            }
        }),
{
    lemma_decode_encoded_text(params.pairs());
    lemma_parameter_names();
    let head = seq![("response_type"@, "code"@), ("client_id"@, params.client_id@)];
    let state = optional_pair("state"@, params.state_text());
    let redirect = optional_pair("redirect_uri"@, params.redirect_uri_text());
    let scope = scope_pairs(params.scope);
    let challenge = challenge_pairs(params.pkce_code_challenge);

    assert(first_value(head, "client_id"@) == Some(params.client_id@)) by {
        let rest = head.skip(1);
        assert(first_value(rest, "client_id"@) == Some(params.client_id@));
    }
    lemma_first_value_none(head, "state"@);
    lemma_first_value_none(head, "scope"@);
    lemma_first_value_none(redirect, "state"@);
    lemma_first_value_none(redirect, "scope"@);
    lemma_first_value_none(state, "scope"@);
    lemma_first_value_none(challenge, "state"@);
    lemma_first_value_none(challenge, "scope"@);
    lemma_first_value_none(scope, "state"@);

    lemma_first_value_concat(head, state, "client_id"@);
    lemma_first_value_concat(head + state, redirect, "client_id"@);
    lemma_first_value_concat(head + state + redirect, scope, "client_id"@);
    lemma_first_value_concat(head + state + redirect + scope, challenge, "client_id"@);

    lemma_first_value_concat(head, state, "state"@);
    lemma_first_value_concat(head + state, redirect, "state"@);
    lemma_first_value_concat(head + state + redirect, scope, "state"@);
    lemma_first_value_concat(head + state + redirect + scope, challenge, "state"@);

    lemma_first_value_concat(head, state, "scope"@);
    lemma_first_value_concat(head + state, redirect, "scope"@);
    lemma_first_value_concat(head + state + redirect, scope, "scope"@);
    lemma_first_value_concat(head + state + redirect + scope, challenge, "scope"@);

    if let Some(issued) = params.state {
        issued.lemma_wf();
        decode_utf8_encode_utf8(issued@);
    }
    params.scope.lemma_wf();
    if params.scope@.len() > 0 {
        lemma_tokens_of_joined(params.scope@);
    }
}

} // verus!
