//! Filling a prompt's input marker with text read from standard input.

use vstd::prelude::*;

use crate::text::{
    contains, contains_text, occurs_at, replace_all, replace_text, trim_text, trimmed,
};

verus! {

/// The marker that stands for standard input inside a prompt.
pub const INPUT_MARKER: &'static str = "{input}";

/// The marker's characters.
pub open spec fn marker() -> Seq<char> {
    "{input}"@
}

/// The prompt that is sent for `prompt`, given that standard input holds
/// `input`: each marker replaced by the trimmed input, or the prompt itself
/// when it holds no marker.
pub open spec fn filled_prompt(prompt: Seq<char>, input: Seq<char>) -> Seq<char> {
    if contains(prompt, marker()) {
        replace_all(prompt, marker(), trimmed(input))
    } else {
        prompt
    }
}

/// Whether the prompt asks for standard input. Standard input is read only
/// when it does.
pub fn has_input_marker(prompt: &str) -> (r: bool)
    ensures
        r == contains(prompt@, marker()),
{
    contains_text(prompt, INPUT_MARKER)
}

/// The prompt with each marker replaced by `input` without its leading and
/// trailing white space.
pub fn fill_prompt(prompt: &str, input: &str) -> (r: String)
    ensures
        r@ == filled_prompt(prompt@, input@),
{
    if has_input_marker(prompt) {
        proof {
            reveal_strlit("{input}");
        }
        replace_text(prompt, INPUT_MARKER, trim_text(input))
    } else {
        String::from_str(prompt)
    }
}

/// Pieces joined with `sep` between each two neighbours.
pub open spec fn joined(pieces: Seq<Seq<char>>, sep: Seq<char>) -> Seq<char>
    decreases pieces.len(),
{
    if pieces.len() == 0 {
        Seq::empty()
    } else if pieces.len() == 1 {
        pieces[0]
    } else {
        pieces[0] + sep + joined(pieces.drop_first(), sep)
    }
}

/// Replacing leaves a text without the pattern as it is.
pub proof fn lemma_replace_absent(s: Seq<char>, pat: Seq<char>, rep: Seq<char>)
    requires
        pat.len() > 0,
        !contains(s, pat),
    ensures
        replace_all(s, pat, rep) == s,
    decreases s.len(),
{
    if s.len() > 0 {
        assert(!occurs_at(s, pat, 0));
        assert forall|i: int| !occurs_at(s.drop_first(), pat, i) by {
            if occurs_at(s.drop_first(), pat, i) {
                assert(s.drop_first().subrange(i, i + pat.len()) =~= s.subrange(
                    i + 1,
                    i + 1 + pat.len(),
                ));
                assert(occurs_at(s, pat, i + 1));
            }
        }
        lemma_replace_absent(s.drop_first(), pat, rep);
        assert(seq![s[0]] + s.drop_first() =~= s);
    }
}

/// The first marker after a marker-free prefix is replaced, and the rest is
/// handled on its own.
pub proof fn lemma_replace_first_marker(a: Seq<char>, b: Seq<char>, rep: Seq<char>)
    requires
        !contains(a, marker()),
    ensures
        replace_all(a + marker() + b, marker(), rep) == a + rep + replace_all(b, marker(), rep),
    decreases a.len(),
{
    reveal_strlit("{input}");
    let m = marker();
    let s = a + m + b;
    if a.len() == 0 {
        assert(s =~= m + b);
        assert(s.subrange(0, m.len() as int) =~= m);
        assert(s.subrange(m.len() as int, s.len() as int) =~= b);
        assert(a + rep =~= rep);
    } else {
        assert(!occurs_at(s, m, 0)) by {
            if a.len() >= m.len() {
                assert(s.subrange(0, m.len() as int) =~= a.subrange(0, m.len() as int));
                if occurs_at(s, m, 0) {
                    assert(occurs_at(a, m, 0));
                }
            } else {
                assert(s[6] == m[6 - a.len()]);
                assert(s.subrange(0, 7)[6] == s[6]);
            }
        }
        let a1 = a.drop_first();
        assert forall|i: int| !occurs_at(a1, m, i) by {
            if occurs_at(a1, m, i) {
                assert(a1.subrange(i, i + m.len()) =~= a.subrange(i + 1, i + 1 + m.len()));
                assert(occurs_at(a, m, i + 1));
            }
        }
        lemma_replace_first_marker(a1, b, rep);
        assert(s.drop_first() =~= a1 + m + b);
        assert(seq![a[0]] + (a1 + rep + replace_all(b, m, rep)) =~= a + rep + replace_all(
            b,
            m,
            rep,
        ));
    }
}

/// Filling leaves a prompt without the marker unchanged.
pub proof fn lemma_fill_without_marker(prompt: Seq<char>, input: Seq<char>)
    requires
        !contains(prompt, marker()),
    ensures
        filled_prompt(prompt, input) == prompt,
{
}

/// Filling replaces every marker with the same text: a prompt made of
/// marker-free pieces joined by markers becomes the same pieces joined by the
/// trimmed input.
pub proof fn lemma_fill_replaces_every_marker(pieces: Seq<Seq<char>>, input: Seq<char>)
    requires
        forall|i: int| 0 <= i < pieces.len() ==> !contains(#[trigger] pieces[i], marker()),
    ensures
        filled_prompt(joined(pieces, marker()), input) == joined(pieces, trimmed(input)),
{
    reveal_strlit("{input}");
    lemma_replace_joined(pieces, trimmed(input));
    let prompt = joined(pieces, marker());
    if !contains(prompt, marker()) {
        lemma_replace_absent(prompt, marker(), trimmed(input));
    }
}

/// Replacing the marker in marker-free pieces joined by markers joins them by
/// the replacement instead.
pub proof fn lemma_replace_joined(pieces: Seq<Seq<char>>, rep: Seq<char>)
    requires
        forall|i: int| 0 <= i < pieces.len() ==> !contains(#[trigger] pieces[i], marker()),
    ensures
        replace_all(joined(pieces, marker()), marker(), rep) == joined(pieces, rep),
    decreases pieces.len(),
{
    reveal_strlit("{input}");
    if pieces.len() == 0 {
    } else if pieces.len() == 1 {
        lemma_replace_absent(pieces[0], marker(), rep);
    } else {
        let rest = pieces.drop_first();
        assert forall|i: int| 0 <= i < rest.len() implies !contains(#[trigger] rest[i], marker()) by {
            assert(rest[i] == pieces[i + 1]);
        }
        lemma_replace_joined(rest, rep);
        lemma_replace_first_marker(pieces[0], joined(rest, marker()), rep);
    }
}

} // verus!
