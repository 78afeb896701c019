//! Space-joined command strings and their tokenization.
//!
//! Step commands are produced as single space-joined strings and are consumed
//! as token lists; splitting on single spaces must recover exactly the tokens
//! that were joined, provided no token itself contains a space (a documented
//! limitation of the command format, not handled defensively).

use vstd::prelude::*;

verus! {

/// The views of a sequence of owned strings.
pub open spec fn views_of(tokens: Seq<String>) -> Seq<Seq<char>> {
    tokens.map_values(|t: String| t@)
}

/// Whether `s` contains a space character.
pub open spec fn has_space(s: Seq<char>) -> bool {
    exists|i: int| 0 <= i < s.len() && s[i] == ' '
}

/// The tokens of `tokens` joined with a single space between consecutive
/// tokens. Joining the empty token list gives the empty string; joining a
/// list of empty tokens gives a string of spaces only.
pub open spec fn spec_join(tokens: Seq<Seq<char>>) -> Seq<char>
    decreases tokens.len(),
{
    if tokens.len() == 0 {
        Seq::empty()
    } else if tokens.len() == 1 {
        tokens[0]
    } else {
        spec_join(tokens.drop_last()) + seq![' '] + tokens.last()
    }
}

/// The tokens of `s`, splitting on every single space. Consecutive spaces
/// yield empty tokens, and the empty string is one empty token: splitting
/// never drops an argument position.
pub open spec fn spec_split(s: Seq<char>) -> Seq<Seq<char>>
    decreases s.len(),
{
    if s.len() == 0 {
        seq![Seq::<char>::empty()]
    } else if s[0] == ' ' {
        seq![Seq::<char>::empty()] + spec_split(s.drop_first())
    } else {
        let rest = spec_split(s.drop_first());
        seq![seq![s[0]] + rest[0]] + rest.drop_first()
    }
}

/// A concatenation contains a space exactly when one of its parts does.
pub proof fn lemma_has_space_concat(a: Seq<char>, b: Seq<char>)
    ensures
        has_space(a + b) == (has_space(a) || has_space(b)),
{
    if has_space(a) {
        let i = choose|i: int| 0 <= i < a.len() && a[i] == ' ';
        assert((a + b)[i] == ' ');
    }
    if has_space(b) {
        let i = choose|i: int| 0 <= i < b.len() && b[i] == ' ';
        assert((a + b)[a.len() + i] == ' ');
    }
    if has_space(a + b) {
        let i = choose|i: int| 0 <= i < (a + b).len() && (a + b)[i] == ' ';
        if i < a.len() {
            assert(a[i] == ' ');
        } else {
            assert(b[i - a.len()] == ' ');
        }
    }
}

/// Splitting always yields at least one token.
pub proof fn lemma_split_len(s: Seq<char>)
    ensures
        spec_split(s).len() >= 1,
    decreases s.len(),
{
    if s.len() == 0 {
    } else {
        lemma_split_len(s.drop_first());
    }
}

/// A string without spaces splits into itself as the single token.
pub proof fn lemma_split_no_space(t: Seq<char>)
    requires
        !has_space(t),
    ensures
        spec_split(t) == seq![t],
    decreases t.len(),
{
    if t.len() == 0 {
        assert(t =~= Seq::<char>::empty());
    } else {
        assert(t[0] != ' ');
        assert(!has_space(t.drop_first())) by {
            assert(forall|j: int|
                0 <= j < t.drop_first().len() ==> t.drop_first()[j] == t[j + 1]);
        }
        lemma_split_no_space(t.drop_first());
        let rest = spec_split(t.drop_first());
        assert(rest[0] == t.drop_first());
        assert(seq![t[0]] + t.drop_first() =~= t);
        assert(rest.drop_first() =~= Seq::<Seq<char>>::empty());
        assert(spec_split(t) =~~= seq![t]);
    }
}

/// Splitting `t + " " + r`, where `t` holds no space, yields `t` followed by
/// the tokens of `r`: the split consumes the first space as a separator.
pub proof fn lemma_split_append(t: Seq<char>, r: Seq<char>)
    requires
        !has_space(t),
    ensures
        spec_split(t + seq![' '] + r) == seq![t] + spec_split(r),
    decreases t.len(),
{
    let s = t + seq![' '] + r;
    if t.len() == 0 {
        assert(s[0] == ' ');
        assert(s.drop_first() =~= r);
        assert(t =~= Seq::<char>::empty());
        assert(spec_split(s) =~~= seq![t] + spec_split(r));
    } else {
        assert(s[0] == t[0]);
        assert(s[0] != ' ');
        assert(!has_space(t.drop_first())) by {
            assert(forall|j: int|
                0 <= j < t.drop_first().len() ==> t.drop_first()[j] == t[j + 1]);
        }
        assert(s.drop_first() =~= t.drop_first() + seq![' '] + r);
        lemma_split_append(t.drop_first(), r);
        let rest = spec_split(s.drop_first());
        assert(rest == seq![t.drop_first()] + spec_split(r));
        lemma_split_len(r);
        assert(rest[0] == t.drop_first());
        assert(rest.drop_first() =~= spec_split(r));
        assert(seq![s[0]] + rest[0] =~= t);
        assert(spec_split(s) =~~= seq![t] + spec_split(r));
    }
}

/// Unfolding a join from the front: with two or more tokens, the joined
/// string is the first token, a space, then the join of the remaining tokens.
pub proof fn lemma_join_first(tokens: Seq<Seq<char>>)
    requires
        tokens.len() >= 2,
    ensures
        spec_join(tokens) == tokens[0] + seq![' '] + spec_join(tokens.drop_first()),
    decreases tokens.len(),
{
    if tokens.len() == 2 {
        assert(tokens.drop_last() =~= seq![tokens[0]]);
        assert(tokens.drop_first() =~= seq![tokens[1]]);
        assert(spec_join(tokens.drop_last()) == tokens[0]);
        assert(spec_join(tokens.drop_first()) == tokens[1]);
        assert(tokens.last() == tokens[1]);
    } else {
        let front = tokens.drop_last();
        lemma_join_first(front);
        assert(front.drop_first() =~= tokens.drop_first().drop_last());
        assert(tokens.drop_first().len() >= 2);
        assert(tokens.drop_first().last() == tokens.last());
        assert(spec_join(tokens.drop_first()) == spec_join(tokens.drop_first().drop_last())
            + seq![' '] + tokens.last());
        assert(front[0] == tokens[0]);
        assert(spec_join(tokens) == (tokens[0] + seq![' ']
            + spec_join(tokens.drop_first().drop_last())) + seq![' '] + tokens.last());
        assert((tokens[0] + seq![' '] + spec_join(tokens.drop_first().drop_last())) + seq![' ']
            + tokens.last() =~= tokens[0] + seq![' '] + (spec_join(tokens.drop_first().drop_last())
            + seq![' '] + tokens.last()));
    }
}

/// A joined command is safe to tokenize: splitting the join of one or more
/// space-free tokens on single spaces recovers exactly those tokens, empty
/// tokens included.
pub proof fn lemma_split_of_join(tokens: Seq<Seq<char>>)
    requires
        tokens.len() >= 1,
        forall|i: int| 0 <= i < tokens.len() ==> !has_space(#[trigger] tokens[i]),
    ensures
        spec_split(spec_join(tokens)) == tokens,
    decreases tokens.len(),
{
    if tokens.len() == 1 {
        lemma_split_no_space(tokens[0]);
        assert(seq![tokens[0]] =~= tokens);
    } else {
        lemma_join_first(tokens);
        let rest = tokens.drop_first();
        assert(forall|i: int| 0 <= i < rest.len() ==> rest[i] == tokens[i + 1]);
        lemma_split_of_join(rest);
        lemma_split_append(tokens[0], spec_join(rest));
        assert(seq![tokens[0]] + rest =~= tokens);
    }
}

/// Joins `tokens` with a single space between consecutive tokens.
pub fn join_spaces(tokens: &Vec<String>) -> (r: String)
    ensures
        r@ == spec_join(views_of(tokens@)),
{
    let mut out = String::new();
    let mut i: usize = 0;
    while i < tokens.len()
        invariant
            i <= tokens.len(),
            out@ == spec_join(views_of(tokens@).take(i as int)),
        decreases tokens.len() - i,
    {
        if i > 0 {
            out.append(" ");
        }
        out.append(tokens[i].as_str());
        proof {
            let views = views_of(tokens@);
            assert(views.take(i + 1).drop_last() =~= views.take(i as int));
            assert(views.take(i + 1).last() == views[i as int]);
            if i == 0 {
                assert(spec_join(views.take(1)) == views[0]);
                assert(" "@ =~= seq![' ']) by {
                    reveal_strlit(" ");
                }
            } else {
                assert(spec_join(views.take(i + 1)) == spec_join(views.take(i as int))
                    + seq![' '] + views[i as int]);
                assert(" "@ =~= seq![' ']) by {
                    reveal_strlit(" ");
                }
            }
        }
        i = i + 1;
    }
    proof {
        assert(views_of(tokens@).take(tokens@.len() as int) =~= views_of(tokens@));
    }
    out
}

/// Splits `s` on every single space; consecutive spaces yield empty tokens.
pub fn split_spaces(s: &str) -> (r: Vec<String>)
    ensures
        views_of(r@) == spec_split(s@),
{
    let n = s.unicode_len();
    let mut tokens: Vec<String> = Vec::new();
    let mut start: usize = 0;
    let mut i: usize = 0;
    proof {
        assert(s@.subrange(0, n as int) =~= s@);
        assert(views_of(tokens@) + spec_split(s@) =~= spec_split(s@));
    }
    while i < n
        invariant
            start <= i <= n,
            n == s@.len(),
            forall|j: int| start <= j < i ==> s@[j] != ' ',
            spec_split(s@) == views_of(tokens@) + spec_split(s@.subrange(start as int, n as int)),
        decreases n - i,
    {
        let c = s.get_char(i);
        if c == ' ' {
            let token = s.substring_char(start, i).to_owned();
            proof {
                let t = s@.subrange(start as int, i as int);
                let tail = s@.subrange(start as int, n as int);
                assert(!has_space(t));
                assert(tail =~= t + seq![' '] + s@.subrange(i + 1, n as int));
                lemma_split_append(t, s@.subrange(i + 1, n as int));
                assert(views_of(tokens@.push(token)) =~= views_of(tokens@) + seq![t]);
                assert(views_of(tokens@) + (seq![t] + spec_split(s@.subrange(i + 1, n as int)))
                    =~= (views_of(tokens@) + seq![t]) + spec_split(s@.subrange(i + 1, n as int)));
            }
            tokens.push(token);
            start = i + 1;
        }
        i = i + 1;
    }
    let token = s.substring_char(start, n).to_owned();
    proof {
        let t = s@.subrange(start as int, n as int);
        assert(!has_space(t));
        lemma_split_no_space(t);
        assert(views_of(tokens@.push(token)) =~= views_of(tokens@) + seq![t]);
        assert(views_of(tokens@) + seq![t] =~= views_of(tokens@.push(token)));
    }
    tokens.push(token);
    proof {
        assert(views_of(tokens@) =~~= spec_split(s@));
    }
    tokens
}

} // verus!
