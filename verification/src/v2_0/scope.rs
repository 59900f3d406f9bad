//! The scope of an access request: a set of tokens.
//!
//! On the wire a scope is the list of its tokens, separated by single
//! spaces. The set keeps its tokens in the order in which they were
//! inserted, so the same set always has the same text.

use crate::text::{free_of, lemma_split_append, lemma_split_whole, split};
use vstd::prelude::*;
use vstd::string::StrSliceExecFns;
use vstd::string::StringExecFns;

verus! {

/// The characters with the Unicode property `White_Space`.
pub open spec fn is_whitespace(c: char) -> bool {
    let code = c as u32;
    (0x09 <= code <= 0x0D) || code == 0x20 || code == 0x85 || code == 0xA0 || code == 0x1680 || (
    0x2000 <= code <= 0x200A) || code == 0x2028 || code == 0x2029 || code == 0x202F || code
        == 0x205F || code == 0x3000
}

/// A scope token is not empty and holds no whitespace.
pub open spec fn is_token(text: Seq<char>) -> bool {
    text.len() > 0 && forall|i: int| 0 <= i < text.len() ==> !is_whitespace(#[trigger] text[i])
}

/// True when no two positions of the sequence hold the same token.
pub open spec fn distinct(tokens: Seq<Seq<char>>) -> bool {
    forall|i: int, j: int| 0 <= i < j < tokens.len() ==> tokens[i] != tokens[j]
}

/// The tokens, separated by single spaces.
pub open spec fn join_tokens(tokens: Seq<Seq<char>>) -> Seq<char>
    decreases tokens.len(),
{
    if tokens.len() == 0 {
        Seq::empty()
    } else if tokens.len() == 1 {
        tokens[0]
    } else {
        join_tokens(tokens.drop_last()) + seq![' '] + tokens.last()
    }
}

/// The tokens among the given pieces, in their order, each once.
pub open spec fn collect_tokens(pieces: Seq<Seq<char>>) -> Seq<Seq<char>>
    decreases pieces.len(),
{
    if pieces.len() == 0 {
        Seq::empty()
    } else {
        let before = collect_tokens(pieces.drop_last());
        let piece = pieces.last();
        if is_token(piece) && !before.contains(piece) {
            before.push(piece)
        } else {
            before
        }
    }
}

/// The tokens of a scope text: the text is cut at every space, and
/// each piece that is a token counts, the first time that it occurs.
pub open spec fn tokens_of(text: Seq<char>) -> Seq<Seq<char>> {
    collect_tokens(split(text, ' '))
}

/// Distinct tokens are all collected.
pub proof fn lemma_collect_tokens(tokens: Seq<Seq<char>>)
    requires
        forall|i: int| 0 <= i < tokens.len() ==> is_token(#[trigger] tokens[i]),
        distinct(tokens),
    ensures
        collect_tokens(tokens) == tokens,
    decreases tokens.len(),
{
    if tokens.len() > 0 {
        let front = tokens.drop_last();
        lemma_collect_tokens(front);
    }
}

/// Cutting the joined text of tokens at its spaces gives the tokens.
pub proof fn lemma_split_joined(tokens: Seq<Seq<char>>)
    requires
        tokens.len() > 0,
        forall|i: int| 0 <= i < tokens.len() ==> is_token(#[trigger] tokens[i]),
    ensures
        split(join_tokens(tokens), ' ') == tokens,
    decreases tokens.len(),
{
    let last = tokens.last();
    assert(free_of(last, ' '));
    if tokens.len() == 1 {
        lemma_split_whole(last, ' ');
    } else {
        let front = tokens.drop_last();
        lemma_split_joined(front);
        lemma_split_append(join_tokens(front), last, ' ');
    }
}

/// The tokens of the text of a scope are the tokens of the scope.
pub proof fn lemma_tokens_of_joined(tokens: Seq<Seq<char>>)
    requires
        forall|i: int| 0 <= i < tokens.len() ==> is_token(#[trigger] tokens[i]),
        distinct(tokens),
    ensures
        tokens_of(join_tokens(tokens)) == tokens,
{
    if tokens.len() > 0 {
        lemma_split_joined(tokens);
        lemma_collect_tokens(tokens);
    } else {
        let pieces = split(Seq::<char>::empty(), ' ');
        assert(collect_tokens(pieces.drop_last()) =~= Seq::<Seq<char>>::empty());
    }
}

/// Tells whether a character is whitespace.
pub fn is_whitespace_char(c: char) -> (whitespace: bool)
    ensures
        whitespace == is_whitespace(c),
{
    let code = c as u32;
    (0x09 <= code && code <= 0x0D) || code == 0x20 || code == 0x85 || code == 0xA0 || code
        == 0x1680 || (0x2000 <= code && code <= 0x200A) || code == 0x2028 || code == 0x2029 || code
        == 0x202F || code == 0x205F || code == 0x3000
}

/// Tells whether a text can be a scope token.
pub fn is_token_text(text: &str) -> (valid: bool)
    ensures
        valid == is_token(text@),
{
    let mut empty = true;
    let mut clean = true;
    for c in it: text.chars()
        invariant
            it.seq() == text@,
            empty <==> it.index() == 0,
            clean <==> forall|i: int| 0 <= i < it.index() ==> !is_whitespace(#[trigger] text@[i]),
    {
        empty = false;
        if is_whitespace_char(c) {
            clean = false;
        }
    }
    !empty && clean
}

/// The texts of a sequence of strings.
pub open spec fn texts(strings: Seq<String>) -> Seq<Seq<char>> {
    Seq::new(strings.len(), |i: int| strings[i]@)
}

/// A set of scope tokens in insertion order.
#[derive(Debug)]
pub struct Scope {
    tokens: Vec<String>,
}

impl View for Scope {
    type V = Seq<Seq<char>>;

    closed spec fn view(&self) -> Seq<Seq<char>> {
        texts(self.tokens@)
    }
}

impl Scope {
    /// Every element is a token, and none occurs twice.
    #[verifier::type_invariant]
    pub closed spec fn wf(&self) -> bool {
        &&& forall|i: int| 0 <= i < self@.len() ==> is_token(#[trigger] self@[i])
        &&& distinct(self@)
    }

    /// What [`Scope::wf`] says of the tokens.
    pub proof fn lemma_wf(&self)
        ensures
            self.wf() <==> {
                &&& forall|i: int| 0 <= i < self@.len() ==> is_token(#[trigger] self@[i])
                &&& distinct(self@)
            },
    {
    }

    /// The text of the `scope` parameter.
    pub open spec fn text(&self) -> Seq<char> {
        join_tokens(self@)
    }

    /// The empty scope.
    pub fn new() -> (scope: Self)
        ensures
            scope.wf(),
            scope@ == Seq::<Seq<char>>::empty(),
    {
        let scope = Scope { tokens: Vec::new() };
        scope
    }

    /// The number of tokens.
    pub fn len(&self) -> (count: usize)
        ensures
            count == self@.len(),
    {
        self.tokens.len()
    }

    /// Tells whether the scope has no token.
    pub fn is_empty(&self) -> (empty: bool)
        ensures
            empty == (self@.len() == 0),
    {
        self.tokens.len() == 0
    }

    /// Tells whether the scope holds `token`.
    pub fn contains(&self, token: &str) -> (found: bool)
        ensures
            found == self@.contains(token@),
    {
        let wanted = token.to_owned();
        let mut i: usize = 0;
        while i < self.tokens.len()
            invariant
                i <= self.tokens.len(),
                wanted@ == token@,
                forall|j: int| 0 <= j < i ==> self@[j] != token@,
            decreases self.tokens.len() - i,
        {
            if self.tokens[i] == wanted {
                assert(self@[i as int] == token@);
                return true;
            }
            i = i + 1;
        }
        false
    }

    /// Adds `token` to the scope. Nothing is added when the text is no
    /// token, or when the scope holds it already. Returns whether the
    /// token was added.
    pub fn insert(&mut self, token: &str) -> (added: bool)
        ensures
            final(self).wf(),
            added == (is_token(token@) && !old(self)@.contains(token@)),
            added ==> final(self)@ == old(self)@.push(token@),
            !added ==> final(self)@ == old(self)@,
    {
        proof {
            use_type_invariant(&*self);
        }
        if !is_token_text(token) || self.contains(token) {
            return false;
        }
        let ghost before = self@;
        // The tokens are moved out, grown, and moved back in, so that the
        // scope is well formed at every moment.
        let mut taken = Scope { tokens: Vec::new() };
        std::mem::swap(self, &mut taken);
        let mut tokens = taken.tokens;
        tokens.push(token.to_owned());
        proof {
            let grown = texts(tokens@);
            assert forall|i: int, j: int| 0 <= i < j < grown.len() implies grown[i] != grown[j] by {
                if j == before.len() {
                    assert(before.contains(before[i]));
                } else {
                    assert(before[i] != before[j]);
                }
            }
            assert forall|i: int| 0 <= i < grown.len() implies is_token(#[trigger] grown[i]) by {
                if i < before.len() {
                    assert(before[i] == grown[i]);
                }
            }
        }
        let grown = Scope { tokens };
        *self = grown;
        true
    }

    /// Reads a scope from its text: the text is cut at every space,
    /// and each piece that is a token is inserted, in order.
    pub fn parse(text: &str) -> (scope: Self)
        ensures
            scope.wf(),
            scope@ == tokens_of(text@),
    {
        let len: usize = text.unicode_len();
        let mut scope = Scope::new();
        let ghost mut done: Seq<Seq<char>> = Seq::empty();
        let mut start: usize = 0;
        let mut i: usize = 0;
        proof {
            assert(text@.subrange(0, 0) =~= Seq::<char>::empty());
        }
        for c in it: text.chars()
            invariant
                it.seq() == text@,
                len == text@.len(),
                i == it.index(),
                start <= i,
                split(text@.take(i as int), ' ') == done.push(
                    text@.subrange(start as int, i as int),
                ),
                scope@ == collect_tokens(done),
                scope.wf(),
        {
            proof {
                let shorter = text@.take(i as int);
                let longer = text@.take(i + 1);
                assert(longer.drop_last() =~= shorter);
                assert(text@.subrange(start as int, i as int).push(c) =~= text@.subrange(
                    start as int,
                    i + 1,
                ));
                assert(text@.subrange(i + 1, i + 1) =~= Seq::<char>::empty());
            }
            if c == ' ' {
                let piece = text.substring_char(start, i);
                proof {
                    assert(done.push(piece@).drop_last() =~= done);
                    done = done.push(piece@);
                }
                scope.insert(piece);
                start = i + 1;
            }
            i = i + 1;
        }
        let piece = text.substring_char(start, i);
        proof {
            assert(text@.take(i as int) =~= text@);
            assert(done.push(piece@).drop_last() =~= done);
        }
        scope.insert(piece);
        scope
    }

    /// Returns the token at `index`, in insertion order.
    pub fn get(&self, index: usize) -> (token: Option<&str>)
        ensures
            index < self@.len() ==> token is Some && token->Some_0@ == self@[index as int],
            index >= self@.len() ==> token is None,
    {
        if index < self.tokens.len() {
            Some(self.tokens[index].as_str())
        } else {
            None
        }
    }

    /// Returns the tokens, separated by single spaces.
    pub fn join(&self) -> (text: String)
        ensures
            text@ == self.text(),
    {
        let mut text = String::new();
        let mut glue = "";
        let mut i: usize = 0;
        proof {
            reveal_strlit("");
        }
        while i < self.tokens.len()
            invariant
                i <= self.tokens.len(),
                text@ == join_tokens(self@.take(i as int)),
                i == 0 ==> glue@ == Seq::<char>::empty(),
                i > 0 ==> glue@ == seq![' '],
            decreases self.tokens.len() - i,
        {
            proof {
                reveal_strlit(" ");
                let next = self@.take(i + 1);
                assert(next.drop_last() =~= self@.take(i as int));
            }
            text.append(glue);
            text.append(self.tokens[i].as_str());
            glue = " ";
            i = i + 1;
        }
        proof {
            assert(self@.take(self@.len() as int) =~= self@);
        }
        text
    }
}

impl Clone for Scope {
    fn clone(&self) -> (copy: Self)
        ensures
            copy@ == self@,
    {
        proof {
            use_type_invariant(self);
        }
        let mut tokens: Vec<String> = Vec::new();
        let mut i: usize = 0;
        while i < self.tokens.len()
            invariant
                i <= self.tokens.len(),
                tokens@.len() == i,
                forall|j: int| 0 <= j < i ==> tokens@[j]@ == self.tokens@[j]@,
            decreases self.tokens.len() - i,
        {
            tokens.push(self.tokens[i].clone());
            i = i + 1;
        }
        proof {
            assert(texts(tokens@) =~= self@);
        }
        Scope { tokens }
    }
}

} // verus!
