//! Turning the desktop's default-browser identifier (one line such as
//! `org.mozilla.firefox.desktop`) into the executable name to spawn: the
//! surrounding whitespace is trimmed and the segment before the first `.`
//! is taken.

use vstd::prelude::*;
use vstd::string::StrSliceExecFns;

verus! {

/// The whitespace the identifier is trimmed of: the characters with the
/// Unicode `White_Space` property, the set `char::is_whitespace` accepts.
pub open spec fn is_space_char(c: char) -> bool {
    ||| c == '\u{0009}'
    ||| c == '\u{000A}'
    ||| c == '\u{000B}'
    ||| c == '\u{000C}'
    ||| c == '\u{000D}'
    ||| c == '\u{0020}'
    ||| c == '\u{0085}'
    ||| c == '\u{00A0}'
    ||| c == '\u{1680}'
    ||| c == '\u{2000}'
    ||| c == '\u{2001}'
    ||| c == '\u{2002}'
    ||| c == '\u{2003}'
    ||| c == '\u{2004}'
    ||| c == '\u{2005}'
    ||| c == '\u{2006}'
    ||| c == '\u{2007}'
    ||| c == '\u{2008}'
    ||| c == '\u{2009}'
    ||| c == '\u{200A}'
    ||| c == '\u{2028}'
    ||| c == '\u{2029}'
    ||| c == '\u{202F}'
    ||| c == '\u{205F}'
    ||| c == '\u{3000}'
}

/// The text with its leading whitespace removed.
pub open spec fn trim_start_spec(s: Seq<char>) -> Seq<char>
    decreases s.len(),
{
    if s.len() > 0 && is_space_char(s[0]) {
        trim_start_spec(s.drop_first())
    } else {
        s
    }
}

/// The text with its trailing whitespace removed.
pub open spec fn trim_end_spec(s: Seq<char>) -> Seq<char>
    decreases s.len(),
{
    if s.len() > 0 && is_space_char(s.last()) {
        trim_end_spec(s.drop_last())
    } else {
        s
    }
}

/// The text with whitespace removed from both ends.
pub open spec fn trim_spec(s: Seq<char>) -> Seq<char> {
    trim_end_spec(trim_start_spec(s))
}

/// The prefix of the text that stands before its first `.`; the whole text
/// when it holds no `.`.
pub open spec fn before_dot(s: Seq<char>) -> Seq<char>
    decreases s.len(),
{
    if s.len() == 0 {
        s
    } else if s[0] == '.' {
        Seq::empty()
    } else {
        seq![s[0]] + before_dot(s.drop_first())
    }
}

/// The browser executable named by an identifier line: trim it, then take
/// what stands before the first `.`.
pub open spec fn browser_name_spec(s: Seq<char>) -> Seq<char> {
    before_dot(trim_spec(s))
}

fn is_space(c: char) -> (r: bool)
    ensures
        r == is_space_char(c),
{
    c == '\u{0009}' || c == '\u{000A}' || c == '\u{000B}' || c == '\u{000C}' || c == '\u{000D}'
        || c == '\u{0020}' || c == '\u{0085}' || c == '\u{00A0}' || c == '\u{1680}' || (c
        >= '\u{2000}' && c <= '\u{200A}') || c == '\u{2028}' || c == '\u{2029}' || c == '\u{202F}'
        || c == '\u{205F}' || c == '\u{3000}'
}

proof fn lemma_before_dot_take(s: Seq<char>, k: int)
    requires
        0 <= k <= s.len(),
        forall|j: int| 0 <= j < k ==> s[j] != '.',
        k < s.len() ==> s[k] == '.',
    ensures
        before_dot(s) == s.take(k),
    decreases k,
{
    if k == 0 {
        assert(before_dot(s) =~= s.take(0));
    } else {
        lemma_before_dot_take(s.drop_first(), k - 1);
        assert(s.take(k) =~= seq![s[0]] + s.drop_first().take(k - 1));
    }
}

/// Extract the browser executable name from the identifier line that the
/// desktop's default-browser query printed.
pub fn parse_web_browser(output: &str) -> (r: String)
    ensures
        r@ == browser_name_spec(output@),
{
    let n: usize = output.unicode_len();
    proof {
        assert(output@.skip(0) =~= output@);
    }
    let mut start: usize = 0;
    while start < n && is_space(output.get_char(start))
        invariant
            n == output@.len(),
            start <= n,
            trim_start_spec(output@) == trim_start_spec(output@.skip(start as int)),
        decreases n - start,
    {
        proof {
            let t = output@.skip(start as int);
            assert(t[0] == output@[start as int]);
            assert(t.drop_first() =~= output@.skip(start as int + 1));
        }
        start = start + 1;
    }
    proof {
        let t = output@.skip(start as int);
        if start < n {
            assert(t[0] == output@[start as int]);
            assert(trim_start_spec(t) == t);
        } else {
            assert(t.len() == 0);
            assert(trim_start_spec(t) == t);
        }
        assert(output@.skip(start as int) =~= output@.subrange(start as int, n as int));
    }
    let mut end: usize = n;
    while end > start && is_space(output.get_char(end - 1))
        invariant
            n == output@.len(),
            start <= end <= n,
            trim_start_spec(output@) == output@.subrange(start as int, n as int),
            trim_end_spec(output@.subrange(start as int, n as int)) == trim_end_spec(
                output@.subrange(start as int, end as int),
            ),
        decreases end,
    {
        proof {
            let u = output@.subrange(start as int, end as int);
            assert(u.last() == output@[end - 1]);
            assert(u.drop_last() =~= output@.subrange(start as int, end as int - 1));
        }
        end = end - 1;
    }
    proof {
        let u = output@.subrange(start as int, end as int);
        if end > start {
            assert(u.last() == output@[end - 1]);
            assert(trim_end_spec(u) == u);
        } else {
            assert(u.len() == 0);
            assert(trim_end_spec(u) == u);
        }
    }
    let trimmed: &str = output.substring_char(start, end);
    let m: usize = end - start;
    let mut k: usize = 0;
    while k < m && trimmed.get_char(k) != '.'
        invariant
            m == trimmed@.len(),
            k <= m,
            forall|j: int| 0 <= j < k ==> trimmed@[j] != '.',
        decreases m - k,
    {
        k = k + 1;
    }
    proof {
        lemma_before_dot_take(trimmed@, k as int);
    }
    let prefix: &str = trimmed.substring_char(0, k);
    prefix.to_owned()
}

} // verus!
