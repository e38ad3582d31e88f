//! Placeholder substitution: replacing every occurrence of a token in a
//! template with a caller-supplied string, scanning left to right.

use vstd::prelude::*;

verus! {

/// True when `tok` occurs in `s` starting at position `p`.
pub open spec fn is_match_at(s: Seq<char>, tok: Seq<char>, p: int) -> bool {
    &&& 0 <= p
    &&& p + tok.len() <= s.len()
    &&& s.subrange(p, p + tok.len() as int) == tok
}

/// True when `tok` occurs somewhere in `s`.
pub open spec fn contains_token(s: Seq<char>, tok: Seq<char>) -> bool {
    exists|p: int| is_match_at(s, tok, p)
}

/// True when `pre` is a prefix of `s`.
pub open spec fn is_prefix(pre: Seq<char>, s: Seq<char>) -> bool {
    pre.len() <= s.len() && s.subrange(0, pre.len() as int) == pre
}

/// `t` with every occurrence of `tok` replaced by `rep`: the text is scanned
/// left to right, each occurrence of `tok` is emitted as `rep`, and the
/// replacement text is never rescanned.
pub open spec fn replaced(t: Seq<char>, tok: Seq<char>, rep: Seq<char>) -> Seq<char>
    decreases t.len(),
{
    if tok.len() == 0 || t.len() < tok.len() {
        t
    } else if is_prefix(tok, t) {
        rep + replaced(t.skip(tok.len() as int), tok, rep)
    } else {
        seq![t[0]] + replaced(t.skip(1), tok, rep)
    }
}

/// True when `tok` occurs in `text` starting at character position `at`.
fn matches_at(text: &str, tok: &str, at: usize) -> (b: bool)
    requires
        at + tok@.len() <= text@.len(),
    ensures
        b == is_match_at(text@, tok@, at as int),
{
    let n: usize = tok.unicode_len();
    let tn: usize = text.unicode_len();
    let mut j: usize = 0;
    while j < n
        invariant
            n == tok@.len(),
            tn == text@.len(),
            at + n <= tn,
            j <= n,
            forall|k: int| 0 <= k < j ==> text@[at + k] == tok@[k],
        decreases n - j,
    {
        if text.get_char(at + j) != tok.get_char(j) {
            assert(!is_match_at(text@, tok@, at as int)) by {
                if is_match_at(text@, tok@, at as int) {
                    assert(text@.subrange(at as int, at + n as int)[j as int] == tok@[j as int]);
                }
            }
            return false;
        }
        j += 1;
    }
    assert(text@.subrange(at as int, at + n as int) =~= tok@);
    true
}

/// `text` with every occurrence of `tok` replaced by `rep`.
pub fn replace_all(text: &str, tok: &str, rep: &str) -> (r: String)
    ensures
        r@ == replaced(text@, tok@, rep@),
    decreases text@.len(),
{
    let tl: usize = tok.unicode_len();
    let tn: usize = text.unicode_len();
    if tl == 0 || tn < tl {
        return text.to_owned();
    }
    if matches_at(text, tok, 0) {
        assert(is_prefix(tok@, text@));
        let tail = text.substring_char(tl, tn);
        assert(tail@ =~= text@.skip(tl as int));
        let rest = replace_all(tail, tok, rep);
        let mut r = rep.to_owned();
        r.append(rest.as_str());
        assert(r@ =~= replaced(text@, tok@, rep@));
        r
    } else {
        assert(!is_prefix(tok@, text@));
        let head = text.substring_char(0, 1);
        let tail = text.substring_char(1, tn);
        assert(tail@ =~= text@.skip(1));
        let rest = replace_all(tail, tok, rep);
        let mut r = head.to_owned();
        r.append(rest.as_str());
        assert(head@ =~= seq![text@[0]]);
        assert(r@ =~= replaced(text@, tok@, rep@));
        r
    }
}

/// Law: substitution leaves no occurrence of the token behind, provided the
/// replacement text is non-empty and shares no character with the token.
///
/// The side condition is needed: replacement text that reuses characters of
/// the token can recombine with the surrounding text into a fresh occurrence
/// (replacing `ab` by `a` in `abb` yields `ab` again).
///
/// The second conclusion is the induction strengthening: a strict suffix of
/// the token can only be a prefix of the output where it already was a prefix
/// of the input.
pub proof fn lemma_replaced_no_token(t: Seq<char>, tok: Seq<char>, rep: Seq<char>)
    requires
        tok.len() > 0,
        rep.len() > 0,
        forall|i: int| 0 <= i < rep.len() ==> !tok.contains(#[trigger] rep[i]),
    ensures
        !contains_token(replaced(t, tok, rep), tok),
        forall|j: int|
            0 < j < tok.len() && is_prefix(#[trigger] tok.skip(j), replaced(t, tok, rep))
                ==> is_prefix(tok.skip(j), t),
    decreases t.len(),
{
    let r = replaced(t, tok, rep);
    if t.len() < tok.len() {
        assert(r == t);
        assert(!contains_token(r, tok)) by {
            if contains_token(r, tok) {
                let p = choose|p: int| is_match_at(r, tok, p);
                assert(p + tok.len() <= t.len());
                assert(false);
            }
        }
    } else if is_prefix(tok, t) {
        let t2 = t.skip(tok.len() as int);
        lemma_replaced_no_token(t2, tok, rep);
        let r2 = replaced(t2, tok, rep);
        assert(r == rep + r2);
        assert(!contains_token(r, tok)) by {
            if contains_token(r, tok) {
                let p = choose|p: int| is_match_at(r, tok, p);
                if p < rep.len() {
                    assert(r.subrange(p, p + tok.len() as int)[0] == tok[0]);
                    assert(tok[0] == rep[p]);
                    assert(tok.contains(rep[p])) by {
                        assert(tok[0] == rep[p]);
                    }
                    assert(false);
                } else {
                    assert(is_match_at(r2, tok, p - rep.len())) by {
                        assert(r2.subrange(p - rep.len(), p - rep.len() + tok.len() as int) =~= r
                            .subrange(p, p + tok.len() as int));
                    }
                    assert(false);
                }
            }
        }
        assert forall|j: int|
            0 < j < tok.len() && is_prefix(#[trigger] tok.skip(j), r) implies is_prefix(
            tok.skip(j),
            t,
        ) by {
            assert(r.subrange(0, tok.skip(j).len() as int)[0] == tok.skip(j)[0]);
            assert(tok[j] == rep[0]);
            assert(tok.contains(rep[0])) by {
                assert(tok[j] == rep[0]);
            }
            assert(false);
        }
    } else {
        let t2 = t.skip(1);
        lemma_replaced_no_token(t2, tok, rep);
        let r2 = replaced(t2, tok, rep);
        assert(r == seq![t[0]] + r2);
        assert(r[0] == t[0]);
        assert(!contains_token(r, tok)) by {
            if contains_token(r, tok) {
                let p = choose|p: int| is_match_at(r, tok, p);
                if p == 0 {
                    assert(r.subrange(0, tok.len() as int)[0] == tok[0]);
                    assert(tok[0] == t[0]);
                    if tok.len() == 1 {
                        assert(t.subrange(0, 1) =~= tok);
                        assert(is_prefix(tok, t));
                    } else {
                        assert(is_prefix(tok.skip(1), r2)) by {
                            assert(r2.subrange(0, tok.len() - 1) =~= r.subrange(
                                0,
                                tok.len() as int,
                            ).skip(1));
                            assert(r.subrange(0, tok.len() as int).skip(1) =~= tok.skip(1));
                        }
                        assert(is_prefix(tok.skip(1), t2));
                        assert(t.subrange(0, tok.len() as int) =~= tok) by {
                            assert forall|k: int| 0 < k < tok.len() implies t[k] == tok[k] by {
                                assert(t2.subrange(0, tok.skip(1).len() as int)[k - 1] == tok.skip(
                                    1,
                                )[k - 1]);
                            }
                        }
                        assert(is_prefix(tok, t));
                    }
                    assert(false);
                } else {
                    assert(is_match_at(r2, tok, p - 1)) by {
                        assert(r2.subrange(p - 1, p - 1 + tok.len() as int) =~= r.subrange(
                            p,
                            p + tok.len() as int,
                        ));
                    }
                    assert(false);
                }
            }
        }
        assert forall|j: int|
            0 < j < tok.len() && is_prefix(#[trigger] tok.skip(j), r) implies is_prefix(
            tok.skip(j),
            t,
        ) by {
            assert(r.subrange(0, tok.skip(j).len() as int)[0] == tok.skip(j)[0]);
            assert(tok[j] == t[0]);
            if j + 1 == tok.len() {
                assert(tok.skip(j) =~= seq![tok[j]]);
                assert(t.subrange(0, 1) =~= tok.skip(j));
            } else {
                assert(is_prefix(tok.skip(j + 1), r2)) by {
                    assert(r2.subrange(0, tok.len() - j - 1) =~= r.subrange(
                        0,
                        tok.len() - j,
                    ).skip(1));
                    assert(r.subrange(0, tok.len() - j).skip(1) =~= tok.skip(j).skip(1));
                    assert(tok.skip(j).skip(1) =~= tok.skip(j + 1));
                }
                assert(is_prefix(tok.skip(j + 1), t2));
                assert(t.subrange(0, tok.skip(j).len() as int) =~= tok.skip(j)) by {
                    assert forall|k: int| 0 < k < tok.len() - j implies t[k] == tok[j + k] by {
                        assert(t2.subrange(0, tok.skip(j + 1).len() as int)[k - 1] == tok.skip(
                            j + 1,
                        )[k - 1]);
                    }
                }
            }
        }
    }
}

} // verus!

