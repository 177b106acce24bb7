//! Verified text handling: whitespace trimming, code-fence stripping for
//! generation replies that ignore the JSON instruction, and decimal
//! rendering of small integers for error messages.

use vstd::prelude::*;
use vstd::string::{StrSliceExecFns, StringExecFns};
use crate::strutil::push_char;

verus! {

/// The Unicode `White_Space` set, as `char::is_whitespace` recognises it.
pub open spec fn is_space(c: char) -> bool {
    ||| c == ' '
    ||| c == '\t'
    ||| c == '\n'
    ||| c == '\r'
    ||| c == '\u{000B}'
    ||| c == '\u{000C}'
    ||| c == '\u{0085}'
    ||| c == '\u{00A0}'
    ||| c == '\u{1680}'
    ||| ('\u{2000}' <= c && c <= '\u{200A}')
    ||| c == '\u{2028}'
    ||| c == '\u{2029}'
    ||| c == '\u{202F}'
    ||| c == '\u{205F}'
    ||| c == '\u{3000}'
}

pub fn exec_is_space(c: char) -> (r: bool)
    ensures
        r == is_space(c),
{
    c == ' ' || c == '\t' || c == '\n' || c == '\r' || c == '\u{000B}' || c == '\u{000C}' || c
        == '\u{0085}' || c == '\u{00A0}' || c == '\u{1680}' || ('\u{2000}' <= c && c
        <= '\u{200A}') || c == '\u{2028}' || c == '\u{2029}' || c == '\u{202F}' || c == '\u{205F}'
        || c == '\u{3000}'
}

/// Drops leading white space.
pub open spec fn trim_start_spec(s: Seq<char>) -> Seq<char>
    decreases s.len(),
{
    if s.len() > 0 && is_space(s[0]) {
        trim_start_spec(s.subrange(1, s.len() as int))
    } else {
        s
    }
}

/// Drops trailing white space.
pub open spec fn trim_end_spec(s: Seq<char>) -> Seq<char>
    decreases s.len(),
{
    if s.len() > 0 && is_space(s[s.len() - 1]) {
        trim_end_spec(s.subrange(0, s.len() - 1))
    } else {
        s
    }
}

/// What `str::trim` returns: the text without leading and trailing white
/// space.
pub open spec fn trim_spec(s: Seq<char>) -> Seq<char> {
    trim_end_spec(trim_start_spec(s))
}

/// Removes leading and trailing white space.
pub fn trim(s: &str) -> (r: String)
    ensures
        r@ == trim_spec(s@),
{
    let n = s.unicode_len();
    let mut start: usize = 0;
    proof {
        assert(s@.subrange(0, n as int) =~= s@);
    }
    while start < n && exec_is_space(s.get_char(start))
        invariant
            n == s@.len(),
            start <= n,
            trim_start_spec(s@) == trim_start_spec(s@.subrange(start as int, n as int)),
        decreases n - start,
    {
        proof {
            let suf = s@.subrange(start as int, n as int);
            assert(suf[0] == s@[start as int]);
            assert(suf.subrange(1, suf.len() as int) =~= s@.subrange(start as int + 1, n as int));
        }
        start = start + 1;
    }
    proof {
        let suf = s@.subrange(start as int, n as int);
        if suf.len() > 0 {
            assert(suf[0] == s@[start as int]);
        }
        assert(trim_start_spec(suf) == suf);
    }
    let mut end: usize = n;
    while end > start && exec_is_space(s.get_char(end - 1))
        invariant
            n == s@.len(),
            start <= end <= n,
            trim_start_spec(s@) == s@.subrange(start as int, n as int),
            trim_end_spec(s@.subrange(start as int, n as int)) == trim_end_spec(
                s@.subrange(start as int, end as int),
            ),
        decreases end,
    {
        proof {
            let t = s@.subrange(start as int, end as int);
            assert(t[t.len() - 1] == s@[end - 1]);
            assert(t.subrange(0, t.len() - 1) =~= s@.subrange(start as int, end as int - 1));
        }
        end = end - 1;
    }
    proof {
        let t = s@.subrange(start as int, end as int);
        if t.len() > 0 {
            assert(t[t.len() - 1] == s@[end - 1]);
        }
        assert(trim_end_spec(t) == t);
    }
    String::from_str(s.substring_char(start, end))
}

/// A leading triple-backtick marker.
pub open spec fn has_fence_prefix(s: Seq<char>) -> bool {
    s.len() >= 3 && s[0] == '`' && s[1] == '`' && s[2] == '`'
}

/// A trailing triple-backtick marker.
pub open spec fn has_fence_suffix(s: Seq<char>) -> bool {
    s.len() >= 3 && s[s.len() - 3] == '`' && s[s.len() - 2] == '`' && s[s.len() - 1] == '`'
}

/// What fence stripping yields: when the text starts with a fence marker,
/// the first marker is removed, then one trailing marker if present, and
/// the remainder is trimmed; otherwise the text is untouched. A language
/// tag after the opening marker is deliberately kept, as the original
/// behaviour has it.
pub open spec fn strip_fences_spec(s: Seq<char>) -> Seq<char> {
    if has_fence_prefix(s) {
        let u = s.subrange(3, s.len() as int);
        let v = if has_fence_suffix(u) {
            u.subrange(0, u.len() - 3)
        } else {
            u
        };
        trim_spec(v)
    } else {
        s
    }
}

/// Strips one leading and one trailing triple-backtick marker, where the
/// text begins with one, and trims the remainder.
pub fn strip_fences(s: &str) -> (r: String)
    ensures
        r@ == strip_fences_spec(s@),
{
    let n = s.unicode_len();
    if n >= 3 && s.get_char(0) == '`' && s.get_char(1) == '`' && s.get_char(2) == '`' {
        proof {
            assert(has_fence_prefix(s@));
        }
        let ghost u = s@.subrange(3, n as int);
        let end: usize = if n >= 6 && s.get_char(n - 1) == '`' && s.get_char(n - 2) == '`'
            && s.get_char(n - 3) == '`' {
            proof {
                assert(u[u.len() - 3] == s@[n - 3]);
                assert(u[u.len() - 2] == s@[n - 2]);
                assert(u[u.len() - 1] == s@[n - 1]);
                assert(has_fence_suffix(u));
                assert(u.subrange(0, u.len() - 3) =~= s@.subrange(3, n as int - 3));
            }
            n - 3
        } else {
            proof {
                if u.len() >= 3 {
                    assert(u[u.len() - 3] == s@[n - 3]);
                    assert(u[u.len() - 2] == s@[n - 2]);
                    assert(u[u.len() - 1] == s@[n - 1]);
                }
                assert(!has_fence_suffix(u));
                assert(u =~= s@.subrange(3, n as int));
            }
            n
        };
        let v = s.substring_char(3, end);
        trim(v)
    } else {
        proof {
            assert(!has_fence_prefix(s@));
        }
        String::from_str(s)
    }
}

/// The decimal digit for a value below ten.
pub open spec fn dec_digit(d: int) -> char {
    (((d + 48) as u8) as char)
}

/// The decimal rendering of a natural number, most significant digit
/// first, with no sign and no leading zero except for zero itself.
pub open spec fn dec_str(n: nat) -> Seq<char>
    decreases n,
{
    if n < 10 {
        seq![dec_digit(n as int)]
    } else {
        dec_str((n / 10) as nat).push(dec_digit((n % 10) as int))
    }
}

/// Renders a number in decimal.
pub fn u32_to_string(n: u32) -> (r: String)
    ensures
        r@ == dec_str(n as nat),
    decreases n,
{
    if n < 10 {
        let mut s = String::new();
        push_char(&mut s, (48 + (n as u8)) as char);
        proof {
            assert(s@ =~= seq![dec_digit(n as int)]);
        }
        s
    } else {
        let mut s = u32_to_string(n / 10);
        push_char(&mut s, (48 + ((n % 10) as u8)) as char);
        s
    }
}

} // verus!
