//! The text of a relation's name: its lower-case form and its last token.
//!
//! A name may carry a prefix that ends in an underscore, as in
//! `range_intersects`; only what follows the last underscore selects the
//! relation.

use vstd::prelude::*;

verus! {

/// The lower-case form of a text, as Unicode defines it.
pub uninterp spec fn lowercase_of(text: Seq<char>) -> Seq<char>;

/// `str::to_lowercase` returns the lower-case form of the text it is given.
/// The result depends on the text alone; what it is for a given text is not
/// stated here.
pub assume_specification[ str::to_lowercase ](text: &str) -> (lowered: String)
    ensures
        lowered@ == lowercase_of(text@),
;

/// Where the last token of `name` begins: just behind its last underscore,
/// or at the front if it has none.
pub open spec fn token_start(name: Seq<char>) -> int
    decreases name.len(),
{
    if name.len() == 0 {
        0
    } else if name.last() == '_' {
        name.len() as int
    } else {
        token_start(name.drop_last())
    }
}

/// What follows the last underscore of `name`; all of `name` if it has none.
pub open spec fn last_token(name: Seq<char>) -> Seq<char> {
    name.subrange(token_start(name), name.len() as int)
}

/// The last token begins inside the name, holds no underscore, and is
/// preceded by one unless it begins at the front.
pub proof fn lemma_token_start(name: Seq<char>)
    ensures
        0 <= token_start(name) <= name.len(),
        forall|i: int| token_start(name) <= i < name.len() ==> name[i] != '_',
        token_start(name) == 0 || name[token_start(name) - 1] == '_',
    decreases name.len(),
{
    if name.len() > 0 && name.last() != '_' {
        let front = name.drop_last();
        lemma_token_start(front);
        assert forall|i: int| token_start(name) <= i < name.len() implies name[i] != '_' by {
            if i < front.len() {
                assert(name[i] == front[i]);
            }
        }
    }
}

/// What becomes of the last token when one more character follows the name.
pub proof fn lemma_last_token_push(name: Seq<char>, c: char)
    ensures
        last_token(name.push(c)) == if c == '_' {
            Seq::<char>::empty()
        } else {
            last_token(name).push(c)
        },
{
    let longer = name.push(c);
    assert(longer.drop_last() == name);
    lemma_token_start(name);
}

/// A token without underscore is the last token of itself, and of itself
/// behind any prefix and an underscore.
pub proof fn lemma_last_token_after_prefix(prefix: Seq<char>, token: Seq<char>)
    requires
        !token.contains('_'),
    ensures
        last_token(prefix + seq!['_'] + token) == token,
        last_token(token) == token,
    decreases token.len(),
{
    if token.len() == 0 {
        assert(prefix + seq!['_'] + token == prefix.push('_'));
        lemma_last_token_push(prefix, '_');
    } else {
        let front = token.drop_last();
        let c = token.last();
        assert(token == front.push(c));
        lemma_last_token_after_prefix(prefix, front);
        assert(prefix + seq!['_'] + token == (prefix + seq!['_'] + front).push(c));
        lemma_last_token_push(prefix + seq!['_'] + front, c);
        lemma_last_token_push(front, c);
    }
}

/// The last token of a name: what follows its last underscore.
pub fn last_token_of(name: &str) -> (token: Vec<char>)
    ensures
        token@ == last_token(name@),
{
    let mut token: Vec<char> = Vec::new();
    for c in it: name.chars()
        invariant
            it.seq() == name@,
            token@ == last_token(it.seq().take(it.index())),
    {
        proof {
            let seen = it.seq().take(it.index());
            assert(it.seq().take(it.index() + 1) == seen.push(c));
            lemma_last_token_push(seen, c);
        }
        if c == '_' {
            token.clear();
        } else {
            token.push(c);
        }
    }
    assert(name@.take(name@.len() as int) == name@);
    token
}

/// Whether `token` spells `keyword`.
pub fn spells(token: &Vec<char>, keyword: &str) -> (r: bool)
    ensures
        r == (token@ == keyword@),
{
    let n: usize = keyword.unicode_len();
    if token.len() != n {
        return false;
    }
    let mut i: usize = 0;
    while i < n
        invariant
            i <= n,
            n == keyword@.len(),
            n == token.len(),
            forall|j: int| 0 <= j < i ==> token@[j] == keyword@[j],
        decreases n - i,
    {
        if token[i] != keyword.get_char(i) {
            return false;
        }
        i += 1;
    }
    assert(token@ =~= keyword@);
    true
}

} // verus!
