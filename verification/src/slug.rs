//! Slug derivation: the normalised, URL- and filename-safe form of free
//! text that branch names and synthesized file names are built from.
//!
//! A slug is derived by lower-casing the text and then collapsing every
//! maximal run of characters that are not ASCII letters or digits into a
//! single hyphen; hyphens at either end are removed.

use vstd::prelude::*;
use vstd::string::{StrSliceExecFns, StringExecFns};
use crate::chars::{is_slug_char, is_alnum, lower_char, exec_is_alnum, exec_lower_char};
use crate::strutil::{lower_of, lowercase, push_char};

verus! {

/// One pass over the characters: ASCII alphanumerics are kept (lower-cased),
/// and every maximal run of other characters becomes a single hyphen.
/// `last_dash` says whether the previous emitted character was that hyphen.
pub open spec fn collapse(s: Seq<char>, last_dash: bool) -> Seq<char>
    decreases s.len(),
{
    if s.len() == 0 {
        Seq::empty()
    } else {
        let c = s[0];
        let rest = s.subrange(1, s.len() as int);
        if is_alnum(c) {
            seq![lower_char(c)] + collapse(rest, false)
        } else if last_dash {
            collapse(rest, true)
        } else {
            seq!['-'] + collapse(rest, true)
        }
    }
}

/// Every character is a lower-case ASCII letter, a digit, or a hyphen.
pub open spec fn slug_body(s: Seq<char>) -> bool {
    forall|i: int| 0 <= i < s.len() ==> is_slug_char(#[trigger] s[i]) || s[i] == '-'
}

/// No two adjacent hyphens.
pub open spec fn no_double_dash(s: Seq<char>) -> bool {
    forall|i: int| 0 <= i && i + 1 < s.len() ==> !(#[trigger] s[i] == '-' && s[i + 1] == '-')
}

/// The shape of a finished slug: only lower-case ASCII letters, digits and
/// single separating hyphens, with no hyphen at either end.
pub open spec fn is_slug(s: Seq<char>) -> bool {
    &&& slug_body(s)
    &&& no_double_dash(s)
    &&& (s.len() > 0 ==> s[0] != '-' && s[s.len() - 1] != '-')
}

/// Removes one leading and one trailing hyphen, where present. On the
/// output of `collapse` this equals removing all of them, since that
/// output never holds two adjacent hyphens.
pub open spec fn trim_dash(s: Seq<char>) -> Seq<char> {
    let t = if s.len() > 0 && s[0] == '-' {
        s.subrange(1, s.len() as int)
    } else {
        s
    };
    if t.len() > 0 && t[t.len() - 1] == '-' {
        t.subrange(0, t.len() - 1)
    } else {
        t
    }
}

/// The slug of an already lower-cased character sequence.
pub open spec fn slug_spec(s: Seq<char>) -> Seq<char> {
    trim_dash(collapse(s, false))
}

/// The collapse pass yields only slug characters and hyphens, never two
/// hyphens in a row, and never starts with a hyphen when one was just
/// emitted.
pub proof fn lemma_collapse_props(s: Seq<char>, b: bool)
    ensures
        slug_body(collapse(s, b)),
        no_double_dash(collapse(s, b)),
        b && collapse(s, b).len() > 0 ==> collapse(s, b)[0] != '-',
    decreases s.len(),
{
    if s.len() == 0 {
    } else {
        let c = s[0];
        let rest = s.subrange(1, s.len() as int);
        if is_alnum(c) {
            lemma_collapse_props(rest, false);
            let r = collapse(s, b);
            assert(r == seq![lower_char(c)] + collapse(rest, false));
            assert(is_slug_char(lower_char(c)));
            assert(r[0] == lower_char(c));
            assert forall|i: int| 0 <= i < r.len() implies is_slug_char(#[trigger] r[i]) || r[i] == '-' by {
                if i > 0 {
                    assert(r[i] == collapse(rest, false)[i - 1]);
                }
            }
            assert forall|i: int| 0 <= i && i + 1 < r.len() implies !(#[trigger] r[i] == '-' && r[i + 1] == '-') by {
                if i > 0 {
                    assert(r[i] == collapse(rest, false)[i - 1]);
                    assert(r[i + 1] == collapse(rest, false)[i]);
                }
            }
        } else if b {
            lemma_collapse_props(rest, true);
            assert(collapse(s, b) == collapse(rest, true));
        } else {
            lemma_collapse_props(rest, true);
            let r = collapse(s, b);
            assert(r == seq!['-'] + collapse(rest, true));
            assert forall|i: int| 0 <= i < r.len() implies is_slug_char(#[trigger] r[i]) || r[i] == '-' by {
                if i > 0 {
                    assert(r[i] == collapse(rest, true)[i - 1]);
                }
            }
            assert forall|i: int| 0 <= i && i + 1 < r.len() implies !(#[trigger] r[i] == '-' && r[i + 1] == '-') by {
                if i == 0 {
                    assert(r[1] == collapse(rest, true)[0]);
                } else {
                    assert(r[i] == collapse(rest, true)[i - 1]);
                    assert(r[i + 1] == collapse(rest, true)[i]);
                }
            }
        }
    }
}

/// A sequence already in collapsed shape is a fixed point of the collapse
/// pass.
pub proof fn lemma_collapse_fixed(t: Seq<char>)
    requires
        slug_body(t),
        no_double_dash(t),
    ensures
        collapse(t, false) == t,
    decreases t.len(),
{
    if t.len() == 0 {
        assert(collapse(t, false) =~= t);
    } else {
        let c = t[0];
        let rest = t.subrange(1, t.len() as int);
        assert forall|i: int| 0 <= i < rest.len() implies is_slug_char(#[trigger] rest[i]) || rest[i] == '-' by {
            assert(rest[i] == t[i + 1]);
        }
        assert forall|i: int| 0 <= i && i + 1 < rest.len() implies !(#[trigger] rest[i] == '-' && rest[i + 1] == '-') by {
            assert(rest[i] == t[i + 1]);
            assert(rest[i + 1] == t[i + 2]);
        }
        lemma_collapse_fixed(rest);
        if is_slug_char(c) {
            assert(is_alnum(c));
            assert(lower_char(c) == c);
            assert(collapse(t, false) == seq![lower_char(c)] + collapse(rest, false));
            assert(seq![c] + rest =~= t);
            assert(collapse(t, false) == t);
        } else {
            assert(c == '-');
            assert(!is_alnum(c));
            if rest.len() == 0 {
                assert(collapse(t, false) == seq!['-'] + collapse(rest, true));
                assert(collapse(rest, true) =~= Seq::<char>::empty());
                assert(seq!['-'] + Seq::<char>::empty() =~= t);
            } else {
                assert(rest[0] == t[1]);
                assert(t[0] == '-' ==> t[1] != '-');
                assert(is_slug_char(rest[0]));
                assert(is_alnum(rest[0]));
                // When the head is alphanumeric the pass does not consult
                // `last_dash`, so both settings agree on `rest`.
                let rest2 = rest.subrange(1, rest.len() as int);
                assert(collapse(rest, true) == seq![lower_char(rest[0])] + collapse(rest2, false));
                assert(collapse(rest, false) == seq![lower_char(rest[0])] + collapse(rest2, false));
                assert(collapse(rest, true) == rest);
                assert(collapse(t, false) =~= seq!['-'] + rest);
                assert(collapse(t, false) =~= t);
            }
        }
    }
}

/// The slug of any lower-cased input has the finished slug shape.
pub proof fn lemma_slug_spec_is_slug(s: Seq<char>)
    ensures
        is_slug(slug_spec(s)),
{
    lemma_collapse_props(s, false);
    let u = collapse(s, false);
    let t = if u.len() > 0 && u[0] == '-' {
        u.subrange(1, u.len() as int)
    } else {
        u
    };
    assert forall|i: int| 0 <= i < t.len() implies is_slug_char(#[trigger] t[i]) || t[i] == '-' by {
        if u.len() > 0 && u[0] == '-' {
            assert(t[i] == u[i + 1]);
        }
    }
    assert forall|i: int| 0 <= i && i + 1 < t.len() implies !(#[trigger] t[i] == '-' && t[i + 1] == '-') by {
        if u.len() > 0 && u[0] == '-' {
            assert(t[i] == u[i + 1]);
            assert(t[i + 1] == u[i + 2]);
        }
    }
    assert(t.len() > 0 ==> t[0] != '-');
    let v = slug_spec(s);
    if t.len() > 0 && t[t.len() - 1] == '-' {
        assert(v == t.subrange(0, t.len() - 1));
        assert forall|i: int| 0 <= i < v.len() implies is_slug_char(#[trigger] v[i]) || v[i] == '-' by {
            assert(v[i] == t[i]);
        }
        assert forall|i: int| 0 <= i && i + 1 < v.len() implies !(#[trigger] v[i] == '-' && v[i + 1] == '-') by {
            assert(v[i] == t[i]);
            assert(v[i + 1] == t[i + 1]);
        }
        if v.len() > 0 {
            assert(v[0] == t[0]);
            assert(v[v.len() - 1] == t[t.len() - 2]);
            assert(!(t[t.len() - 2] == '-' && t[t.len() - 1] == '-'));
        }
    } else {
        assert(v == t);
    }
}

/// A finished slug is a fixed point of slug derivation.
pub proof fn lemma_slug_fixed(t: Seq<char>)
    requires
        is_slug(t),
    ensures
        slug_spec(t) == t,
{
    lemma_collapse_fixed(t);
    assert(slug_spec(t) == trim_dash(t));
    assert(trim_dash(t) == t);
}

/// Derives the slug of arbitrary text: lower-cases it, collapses every
/// maximal run of characters that are not ASCII letters or digits into a
/// single hyphen, and removes hyphens at either end. A text already in
/// slug shape comes back unchanged, so the derivation is idempotent.
pub fn slugify(s: &str) -> (r: String)
    ensures
        r@ == slug_spec(lower_of(s@)),
        is_slug(r@),
        is_slug(s@) ==> r@ == s@,
{
    let low = lowercase(s);
    let low_str = low.as_str();
    let n = low_str.unicode_len();
    let mut out = String::new();
    let mut last_dash = false;
    let mut i: usize = 0;
    proof {
        assert(low@.subrange(0, n as int) =~= low@);
        assert(out@ + collapse(low@, false) =~= collapse(low@, false));
    }
    while i < n
        invariant
            n == low@.len(),
            i <= n,
            low_str@ == low@,
            collapse(low@, false) == out@ + collapse(
                low@.subrange(i as int, n as int),
                last_dash,
            ),
        decreases n - i,
    {
        let ghost pre_out = out@;
        let ghost pre_last = last_dash;
        let ghost suf = low@.subrange(i as int, n as int);
        let ghost suf1 = low@.subrange(i as int + 1, n as int);
        let c = low_str.get_char(i);
        proof {
            assert(suf.len() > 0);
            assert(suf[0] == c);
            assert(suf.subrange(1, suf.len() as int) =~= suf1);
        }
        if exec_is_alnum(c) {
            let lc = exec_lower_char(c);
            push_char(&mut out, lc);
            last_dash = false;
            proof {
                assert(collapse(suf, pre_last) == seq![lower_char(c)] + collapse(suf1, false));
                assert(out@ =~= pre_out + seq![lower_char(c)]);
                assert(out@ + collapse(suf1, false) =~= pre_out + collapse(suf, pre_last));
            }
        } else if !last_dash {
            push_char(&mut out, '-');
            last_dash = true;
            proof {
                assert(collapse(suf, pre_last) == seq!['-'] + collapse(suf1, true));
                assert(out@ =~= pre_out + seq!['-']);
                assert(out@ + collapse(suf1, true) =~= pre_out + collapse(suf, pre_last));
            }
        } else {
            proof {
                assert(collapse(suf, pre_last) == collapse(suf1, true));
            }
        }
        i = i + 1;
    }
    proof {
        assert(low@.subrange(n as int, n as int) =~= Seq::<char>::empty());
        assert(collapse(Seq::<char>::empty(), last_dash) =~= Seq::<char>::empty());
        assert(out@ + Seq::<char>::empty() =~= out@);
        assert(out@ == collapse(low@, false));
    }
    let out_str = out.as_str();
    let m = out_str.unicode_len();
    let start: usize = if m > 0 && out_str.get_char(0) == '-' {
        1
    } else {
        0
    };
    let end: usize = if m > start && out_str.get_char(m - 1) == '-' {
        m - 1
    } else {
        m
    };
    let r = String::from_str(out_str.substring_char(start, end));
    proof {
        assert(r@ =~= trim_dash(out@));
        lemma_slug_spec_is_slug(low@);
        if is_slug(s@) {
            assert(low@ == s@);
            lemma_slug_fixed(s@);
        }
    }
    r
}

/// Law: the slug of any input has the finished slug shape — only
/// lower-case ASCII letters, digits and single separating hyphens, none at
/// either end — and deriving a slug twice gives the same result as once.
pub proof fn lemma_slug_idempotent(s: Seq<char>)
    ensures
        is_slug(slug_spec(s)),
        slug_spec(slug_spec(s)) == slug_spec(s),
{
    lemma_slug_spec_is_slug(s);
    lemma_slug_fixed(slug_spec(s));
}

} // verus!
