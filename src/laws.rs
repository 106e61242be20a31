//! Laws of placeholder substitution.
use vstd::prelude::*;

use crate::template::{
    brace_free, is_brace, is_placeholder, leading_name, lemma_name_len_bounds,
    lemma_name_len_exact, name_len, no_known_placeholder, placeholder, render_text,
    starts_with_placeholder, suffix,
};

verus! {

proof fn lemma_no_known_suffix(vars: Map<Seq<char>, Seq<char>>, t: Seq<char>, m: int)
    requires
        no_known_placeholder(vars, t),
        0 <= m <= t.len(),
    ensures
        no_known_placeholder(vars, suffix(t, m)),
{
    let s = suffix(t, m);
    assert forall|i: int, j: int| #[trigger] is_placeholder(s, i, j) implies !vars.contains_key(
        s.subrange(i + 1, j),
    ) by {
        assert forall|k: int| i + m < k < j + m implies !is_brace(#[trigger] t[k]) by {
            assert(t[k] == s[k - m]);
        }
        assert(is_placeholder(t, i + m, j + m));
        assert(s.subrange(i + 1, j) =~= t.subrange(i + m + 1, j + m));
    }
}

/// Rendering leaves a template unchanged when none of its placeholders names
/// a bound variable.
pub proof fn lemma_render_identity(vars: Map<Seq<char>, Seq<char>>, t: Seq<char>)
    requires
        no_known_placeholder(vars, t),
    ensures
        render_text(vars, t) == t,
    decreases t.len(),
{
    if t.len() > 0 {
        let d = t.drop_first();
        lemma_name_len_bounds(d);
        let n = name_len(d) as int;
        if starts_with_placeholder(t) {
            assert forall|k: int| 0 < k < n + 1 implies !is_brace(#[trigger] t[k]) by {
                assert(t[k] == d[k - 1]);
            }
            assert(is_placeholder(t, 0, n + 1));
        }
        lemma_no_known_suffix(vars, t, 1);
        assert(suffix(t, 1) =~= d);
        lemma_render_identity(vars, d);
        assert(seq![t[0]] + d =~= t);
    }
}

proof fn lemma_render_no_open(vars: Map<Seq<char>, Seq<char>>, s: Seq<char>, x: Seq<char>)
    requires
        forall|k: int| 0 <= k < s.len() ==> #[trigger] s[k] != '{',
    ensures
        render_text(vars, s + x) == s + render_text(vars, x),
    decreases s.len(),
{
    if s.len() > 0 {
        let d = s.drop_first();
        assert((s + x).drop_first() =~= d + x);
        assert forall|k: int| 0 <= k < d.len() implies #[trigger] d[k] != '{' by {
            assert(d[k] == s[k + 1]);
        }
        lemma_render_no_open(vars, d, x);
        assert(seq![s[0]] + (d + render_text(vars, x)) =~= s + render_text(vars, x));
    }
}

proof fn lemma_name_len_extend(d: Seq<char>, y: Seq<char>)
    requires
        name_len(d) < d.len() || (y.len() > 0 && is_brace(y[0])),
    ensures
        name_len(d + y) == name_len(d),
{
    lemma_name_len_bounds(d);
    let m = name_len(d) as int;
    let dy = d + y;
    assert forall|k: int| 0 <= k < m implies !is_brace(#[trigger] dy[k]) by {
        assert(dy[k] == d[k]);
    }
    lemma_name_len_exact(dy, m);
}

/// A placeholder `{k}` with a brace-free name is replaced by the value bound
/// to `k`, or kept verbatim when `k` is unbound, whatever stands around it.
pub proof fn lemma_render_placeholder(
    vars: Map<Seq<char>, Seq<char>>,
    a: Seq<char>,
    k: Seq<char>,
    b: Seq<char>,
)
    requires
        brace_free(k),
    ensures
        render_text(vars, a + placeholder(k) + b) == render_text(vars, a) + (if vars.contains_key(
            k,
        ) {
            vars[k]
        } else {
            placeholder(k)
        }) + render_text(vars, b),
    decreases a.len(),
{
    let p = placeholder(k);
    let t = a + p + b;
    if a.len() == 0 {
        assert(t =~= p + b);
        let d = t.drop_first();
        assert(d =~= k + (seq!['}'] + b));
        assert forall|i: int| 0 <= i < k.len() implies !is_brace(#[trigger] d[i]) by {
            assert(d[i] == k[i]);
        }
        assert(d[k.len() as int] == '}');
        lemma_name_len_exact(d, k.len() as int);
        assert(leading_name(t) =~= k);
        assert(suffix(t, k.len() + 2int) =~= b);
        if !vars.contains_key(k) {
            assert forall|i: int| 0 <= i < k.len() implies #[trigger] k[i] != '{' by {
                assert(!is_brace(k[i]));
            }
            lemma_render_no_open(vars, k, seq!['}'] + b);
            lemma_render_no_open(vars, seq!['}'], b);
            assert(render_text(vars, t) =~= seq!['{'] + (k + (seq!['}'] + render_text(vars, b))));
            assert(render_text(vars, a) =~= Seq::<char>::empty());
            assert(render_text(vars, t) =~= render_text(vars, a) + p + render_text(vars, b));
        } else {
            assert(render_text(vars, a) =~= Seq::<char>::empty());
            assert(render_text(vars, t) =~= render_text(vars, a) + vars[k] + render_text(vars, b));
        }
    } else {
        let d = a.drop_first();
        let rest = p + b;
        assert(t =~= a + rest);
        assert(t.drop_first() =~= d + rest);
        assert(rest[0] == '{');
        lemma_name_len_extend(d, rest);
        lemma_name_len_bounds(d);
        let n = name_len(d) as int;
        if n + 1 < a.len() {
            assert(t[n + 1] == a[n + 1]);
            assert(leading_name(t) =~= leading_name(a));
        } else {
            assert(t[n + 1] == '{');
        }
        let chosen = if vars.contains_key(k) {
            vars[k]
        } else {
            p
        };
        if starts_with_placeholder(a) && vars.contains_key(leading_name(a)) {
            let sa = suffix(a, n + 2);
            assert(suffix(t, n + 2) =~= sa + p + b);
            lemma_render_placeholder(vars, sa, k, b);
            assert(render_text(vars, t) =~= render_text(vars, a) + chosen + render_text(vars, b));
        } else {
            assert(t.drop_first() =~= d + p + b);
            lemma_render_placeholder(vars, d, k, b);
            assert(render_text(vars, t) =~= render_text(vars, a) + chosen + render_text(vars, b));
        }
    }
}

} // verus!
