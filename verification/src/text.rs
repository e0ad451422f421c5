//! Small text functions that a row is built from.

use vstd::prelude::*;
use vstd::string::*;

verus! {

/// The texts held by a sequence of strings.
pub open spec fn texts(v: Seq<String>) -> Seq<Seq<char>> {
    Seq::new(v.len(), |i: int| v[i]@)
}

/// The character for the digit `d`.
pub open spec fn digit_char(d: nat) -> char {
    if d == 0 {
        '0'
    } else if d == 1 {
        '1'
    } else if d == 2 {
        '2'
    } else if d == 3 {
        '3'
    } else if d == 4 {
        '4'
    } else if d == 5 {
        '5'
    } else if d == 6 {
        '6'
    } else if d == 7 {
        '7'
    } else if d == 8 {
        '8'
    } else {
        '9'
    }
}

/// The decimal numeral of `n`, without sign or leading zeros.
pub open spec fn decimal(n: nat) -> Seq<char>
    decreases n,
{
    if n < 10 {
        seq![digit_char(n)]
    } else {
        decimal(n / 10).push(digit_char(n % 10))
    }
}

/// The place in `s` behind its last `/`, or 0 if it has none.
pub open spec fn segment_start(s: Seq<char>) -> int
    decreases s.len(),
{
    if s.len() == 0 {
        0
    } else if s.last() == '/' {
        s.len() as int
    } else {
        segment_start(s.drop_last())
    }
}

/// What follows the last `/` of `s`; all of `s` if it has none.
pub open spec fn final_segment(s: Seq<char>) -> Seq<char> {
    s.subrange(segment_start(s), s.len() as int)
}

/// Whether `s` ends with `suffix`.
pub open spec fn has_suffix(s: Seq<char>, suffix: Seq<char>) -> bool {
    &&& suffix.len() <= s.len()
    &&& s.subrange(s.len() - suffix.len(), s.len() as int) == suffix
}

/// `segment_start` in terms of the text itself: it is the one place that has
/// no `/` behind it and either is the start or has a `/` just before it.
pub proof fn law_segment_start(s: Seq<char>, p: int)
    requires
        0 <= p <= s.len(),
        p == 0 || s[p - 1] == '/',
        forall|k: int| p <= k < s.len() ==> s[k] != '/',
    ensures
        segment_start(s) == p,
    decreases s.len(),
{
    if s.len() == 0 {
    } else if s.last() == '/' {
        assert(s[s.len() - 1] == '/');
    } else {
        law_segment_start(s.drop_last(), p);
    }
}

/// The final segment holds no `/`, and it is all of the text or has a `/`
/// just before it.
pub proof fn law_final_segment(s: Seq<char>)
    ensures
        0 <= segment_start(s) <= s.len(),
        segment_start(s) == 0 || s[segment_start(s) - 1] == '/',
        forall|k: int| 0 <= k < final_segment(s).len() ==> final_segment(s)[k] != '/',
    decreases s.len(),
{
    if s.len() == 0 {
    } else if s.last() == '/' {
    } else {
        let r = s.drop_last();
        law_final_segment(r);
        assert forall|k: int| 0 <= k < final_segment(s).len() implies final_segment(s)[k]
            != '/' by {
            if k < final_segment(r).len() {
                assert(final_segment(s)[k] == final_segment(r)[k]);
            }
        }
    }
}

/// The text of one digit.
fn digit_text(d: u64) -> (text: &'static str)
    requires
        d < 10,
    ensures
        text@ == seq![digit_char(d as nat)],
{
    proof {
        reveal_strlit("0");
        reveal_strlit("1");
        reveal_strlit("2");
        reveal_strlit("3");
        reveal_strlit("4");
        reveal_strlit("5");
        reveal_strlit("6");
        reveal_strlit("7");
        reveal_strlit("8");
        reveal_strlit("9");
    }
    let text = if d == 0 {
        "0"
    } else if d == 1 {
        "1"
    } else if d == 2 {
        "2"
    } else if d == 3 {
        "3"
    } else if d == 4 {
        "4"
    } else if d == 5 {
        "5"
    } else if d == 6 {
        "6"
    } else if d == 7 {
        "7"
    } else if d == 8 {
        "8"
    } else {
        "9"
    };
    assert(text@ =~= seq![digit_char(d as nat)]);
    text
}

/// Writes `n` as a decimal numeral.
pub fn decimal_text(n: u64) -> (text: String)
    ensures
        text@ == decimal(n as nat),
    decreases n,
{
    if n < 10 {
        String::from_str(digit_text(n))
    } else {
        let mut text = decimal_text(n / 10);
        text.append(digit_text(n % 10));
        assert(text@ =~= decimal((n / 10) as nat).push(digit_char((n % 10) as nat)));
        text
    }
}

/// Returns what follows the last `/` of `path`: the name of a file from its
/// path.  A path without `/` is returned whole, one that ends in `/` gives
/// the empty text.
pub fn last_segment(path: &str) -> (name: String)
    ensures
        name@ == final_segment(path@),
{
    if path.is_ascii() {
        proof {
            is_ascii_spec_bytes(path);
        }
        let n = path.as_bytes().len();
        let mut start: usize = n;
        while start > 0
            invariant_except_break
                start <= n,
                n == path@.len(),
                is_ascii(path),
                forall|k: int| start <= k < n ==> path@[k] != '/',
            ensures
                start <= n,
                start == 0 || path@[start - 1] == '/',
                forall|k: int| start <= k < n ==> path@[k] != '/',
            decreases start,
        {
            let b = path.get_ascii(start - 1);
            if b == 0x2f {
                assert(path@[start - 1] == '/');
                break ;
            }
            assert(path@[start - 1] != '/');
            start -= 1;
        }
        proof {
            law_segment_start(path@, start as int);
        }
        String::from_str(path.substring_ascii(start, n))
    } else {
        let n = path.unicode_len();
        let mut start: usize = n;
        while start > 0
            invariant_except_break
                start <= n,
                n == path@.len(),
                forall|k: int| start <= k < n ==> path@[k] != '/',
            ensures
                start <= n,
                start == 0 || path@[start - 1] == '/',
                forall|k: int| start <= k < n ==> path@[k] != '/',
            decreases start,
        {
            let c = path.get_char(start - 1);
            if c == '/' {
                break ;
            }
            start -= 1;
        }
        proof {
            law_segment_start(path@, start as int);
        }
        String::from_str(path.substring_char(start, n))
    }
}

/// Whether `text` ends with `suffix`.
pub fn ends_with(text: &str, suffix: &str) -> (ends: bool)
    ensures
        ends == has_suffix(text@, suffix@),
{
    let n = text.unicode_len();
    let m = suffix.unicode_len();
    if m > n {
        return false;
    }
    let tail = text.substring_char(n - m, n);
    let mut k: usize = 0;
    while k < m
        invariant
            k <= m,
            m <= n,
            n == text@.len(),
            m == suffix@.len(),
            tail@ == text@.subrange(n - m, n as int),
            forall|j: int| 0 <= j < k ==> tail@[j] == suffix@[j],
        decreases m - k,
    {
        if tail.get_char(k) != suffix.get_char(k) {
            return false;
        }
        k += 1;
    }
    assert(tail@ =~= suffix@);
    true
}

} // verus!
