//! The command-template engine: a single left-to-right pass replaces
//! each recognized placeholder token with its value. Replacement text
//! is never rescanned, so a value that itself contains a token is not
//! substituted again, and unrecognized tokens pass through unchanged.

use vstd::prelude::*;
use crate::text::chars_of;
use crate::text::chars_to_string;
use crate::text::matches_at;
use crate::text::push_all;

verus! {

/// `t` with every occurrence of the four recognized placeholder
/// tokens replaced: `{context}` by `ctx`, `{repo}` by `repo`,
/// `{number}` by `num` and `{pr_url}` by `url`, scanning once from
/// the left; any other character, token-shaped or not, is kept.
pub open spec fn substituted(
    t: Seq<char>,
    ctx: Seq<char>,
    repo: Seq<char>,
    num: Seq<char>,
    url: Seq<char>,
) -> Seq<char>
    decreases t.len(),
{
    if t.len() == 0 {
        Seq::empty()
    } else if t.len() >= 9 && t.subrange(0, 9) == "{context}"@ {
        ctx + substituted(t.skip(9), ctx, repo, num, url)
    } else if t.len() >= 6 && t.subrange(0, 6) == "{repo}"@ {
        repo + substituted(t.skip(6), ctx, repo, num, url)
    } else if t.len() >= 8 && t.subrange(0, 8) == "{number}"@ {
        num + substituted(t.skip(8), ctx, repo, num, url)
    } else if t.len() >= 8 && t.subrange(0, 8) == "{pr_url}"@ {
        url + substituted(t.skip(8), ctx, repo, num, url)
    } else {
        seq![t[0]] + substituted(t.drop_first(), ctx, repo, num, url)
    }
}

/// Whether one of the four recognized tokens starts at position `i` of `t`.
pub open spec fn token_at(t: Seq<char>, i: int) -> bool {
    (i + 9 <= t.len() && t.subrange(i, i + 9) == "{context}"@) || (i + 6 <= t.len() && t.subrange(
        i,
        i + 6,
    ) == "{repo}"@) || (i + 8 <= t.len() && t.subrange(i, i + 8) == "{number}"@) || (i + 8
        <= t.len() && t.subrange(i, i + 8) == "{pr_url}"@)
}

/// Whether `t` contains no recognized token at any position.
pub open spec fn token_free(t: Seq<char>) -> bool {
    forall|i: int| 0 <= i < t.len() ==> !token_at(t, i)
}

/// A template without any recognized token — whatever unknown
/// token-shaped text it holds — is returned by substitution unchanged.
pub proof fn lemma_unknown_tokens_unchanged(
    t: Seq<char>,
    ctx: Seq<char>,
    repo: Seq<char>,
    num: Seq<char>,
    url: Seq<char>,
)
    requires
        token_free(t),
    ensures
        substituted(t, ctx, repo, num, url) == t,
    decreases t.len(),
{
    if t.len() == 0 {
        assert(substituted(t, ctx, repo, num, url) =~= t);
    } else {
        assert(!token_at(t, 0));
        let d = t.drop_first();
        assert forall|i: int| 0 <= i < d.len() implies !token_at(d, i) by {
            assert(!token_at(t, i + 1));
            if i + 9 <= d.len() {
                assert(d.subrange(i, i + 9) =~= t.subrange(i + 1, i + 10));
            }
            if i + 6 <= d.len() {
                assert(d.subrange(i, i + 6) =~= t.subrange(i + 1, i + 7));
            }
            if i + 8 <= d.len() {
                assert(d.subrange(i, i + 8) =~= t.subrange(i + 1, i + 9));
            }
        }
        lemma_unknown_tokens_unchanged(d, ctx, repo, num, url);
        assert(t.subrange(0, 9) == t.subrange(0int, 0int + 9));
        assert(t.subrange(0, 6) == t.subrange(0int, 0int + 6));
        assert(t.subrange(0, 8) == t.subrange(0int, 0int + 8));
        assert(substituted(t, ctx, repo, num, url) == seq![t[0]] + d);
        assert(seq![t[0]] + d =~= t);
    }
}

/// Replaces the four recognized tokens in `template` in one pass:
/// `{context}` by `ctx`, `{repo}` by `repo`, `{number}` by `num` and
/// `{pr_url}` by `url`.
pub fn substitute_tokens(template: &str, ctx: &str, repo: &str, num: &str, url: &str) -> (r: String)
    ensures
        r@ == substituted(template@, ctx@, repo@, num@, url@),
{
    let tv = chars_of(template);
    let cv = chars_of(ctx);
    let rv = chars_of(repo);
    let nv = chars_of(num);
    let uv = chars_of(url);
    let pat_ctx = chars_of("{context}");
    let pat_repo = chars_of("{repo}");
    let pat_num = chars_of("{number}");
    let pat_url = chars_of("{pr_url}");
    proof {
        reveal_strlit("{context}");
        reveal_strlit("{repo}");
        reveal_strlit("{number}");
        reveal_strlit("{pr_url}");
    }
    let n = tv.len();
    let mut out: Vec<char> = Vec::new();
    let mut i: usize = 0;
    proof {
        assert(tv@.skip(0) =~= tv@);
        assert(out@ + substituted(tv@, cv@, rv@, nv@, uv@) =~= substituted(
            tv@,
            cv@,
            rv@,
            nv@,
            uv@,
        ));
    }
    while i < n
        invariant
            n == tv@.len(),
            i <= n,
            tv@ == template@,
            cv@ == ctx@,
            rv@ == repo@,
            nv@ == num@,
            uv@ == url@,
            pat_ctx@ == "{context}"@,
            pat_repo@ == "{repo}"@,
            pat_num@ == "{number}"@,
            pat_url@ == "{pr_url}"@,
            pat_ctx@.len() == 9,
            pat_repo@.len() == 6,
            pat_num@.len() == 8,
            pat_url@.len() == 8,
            substituted(tv@, cv@, rv@, nv@, uv@) == out@ + substituted(
                tv@.skip(i as int),
                cv@,
                rv@,
                nv@,
                uv@,
            ),
        decreases n - i,
    {
        let ghost rem = tv@.skip(i as int);
        proof {
            if i + 9 <= n {
                assert(rem.subrange(0, 9) =~= tv@.subrange(i as int, i + 9));
            }
            if i + 6 <= n {
                assert(rem.subrange(0, 6) =~= tv@.subrange(i as int, i + 6));
            }
            if i + 8 <= n {
                assert(rem.subrange(0, 8) =~= tv@.subrange(i as int, i + 8));
            }
        }
        if matches_at(&tv, i, &pat_ctx) {
            push_all(&mut out, &cv);
            proof {
                assert(substituted(rem, cv@, rv@, nv@, uv@) == cv@ + substituted(
                    rem.skip(9),
                    cv@,
                    rv@,
                    nv@,
                    uv@,
                ));
                assert(rem.skip(9) =~= tv@.skip(i + 9));
                assert(out@ + substituted(tv@.skip(i + 9), cv@, rv@, nv@, uv@) =~= substituted(
                    tv@,
                    cv@,
                    rv@,
                    nv@,
                    uv@,
                ));
            }
            i = i + 9;
        } else if matches_at(&tv, i, &pat_repo) {
            push_all(&mut out, &rv);
            proof {
                assert(substituted(rem, cv@, rv@, nv@, uv@) == rv@ + substituted(
                    rem.skip(6),
                    cv@,
                    rv@,
                    nv@,
                    uv@,
                ));
                assert(rem.skip(6) =~= tv@.skip(i + 6));
                assert(out@ + substituted(tv@.skip(i + 6), cv@, rv@, nv@, uv@) =~= substituted(
                    tv@,
                    cv@,
                    rv@,
                    nv@,
                    uv@,
                ));
            }
            i = i + 6;
        } else if matches_at(&tv, i, &pat_num) {
            push_all(&mut out, &nv);
            proof {
                assert(substituted(rem, cv@, rv@, nv@, uv@) == nv@ + substituted(
                    rem.skip(8),
                    cv@,
                    rv@,
                    nv@,
                    uv@,
                ));
                assert(rem.skip(8) =~= tv@.skip(i + 8));
                assert(out@ + substituted(tv@.skip(i + 8), cv@, rv@, nv@, uv@) =~= substituted(
                    tv@,
                    cv@,
                    rv@,
                    nv@,
                    uv@,
                ));
            }
            i = i + 8;
        } else if matches_at(&tv, i, &pat_url) {
            push_all(&mut out, &uv);
            proof {
                assert(substituted(rem, cv@, rv@, nv@, uv@) == uv@ + substituted(
                    rem.skip(8),
                    cv@,
                    rv@,
                    nv@,
                    uv@,
                ));
                assert(rem.skip(8) =~= tv@.skip(i + 8));
                assert(out@ + substituted(tv@.skip(i + 8), cv@, rv@, nv@, uv@) =~= substituted(
                    tv@,
                    cv@,
                    rv@,
                    nv@,
                    uv@,
                ));
            }
            i = i + 8;
        } else {
            out.push(tv[i]);
            proof {
                assert(substituted(rem, cv@, rv@, nv@, uv@) == seq![rem[0]] + substituted(
                    rem.drop_first(),
                    cv@,
                    rv@,
                    nv@,
                    uv@,
                ));
                assert(rem.drop_first() =~= tv@.skip(i + 1));
                assert(rem[0] == tv@[i as int]);
                assert(out@ + substituted(tv@.skip(i + 1), cv@, rv@, nv@, uv@) =~= substituted(
                    tv@,
                    cv@,
                    rv@,
                    nv@,
                    uv@,
                ));
            }
            i = i + 1;
        }
    }
    proof {
        assert(tv@.skip(n as int) =~= Seq::<char>::empty());
        assert(substituted(tv@.skip(n as int), cv@, rv@, nv@, uv@) =~= Seq::<char>::empty());
        assert(out@ =~= substituted(tv@, cv@, rv@, nv@, uv@));
    }
    chars_to_string(&out)
}

} // verus!
