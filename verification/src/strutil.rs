use vstd::prelude::*;
use vstd::string::*;

verus! {

/// True when `a` and `b` hold the same characters.
pub fn str_eq(a: &str, b: &str) -> (r: bool)
    ensures
        r == (a@ == b@),
{
    let alen = a.unicode_len();
    let blen = b.unicode_len();
    if alen != blen {
        return false;
    }
    let mut i: usize = 0;
    while i < alen
        invariant
            alen == a@.len(),
            alen == b@.len(),
            i <= alen,
            forall|j: int| 0 <= j < i ==> a@[j] == b@[j],
        decreases alen - i,
    {
        if a.get_char(i) != b.get_char(i) {
            return false;
        }
        i += 1;
    }
    proof {
        assert(a@ =~= b@);
    }
    true
}

/// True when `p` is a prefix of `a`.
pub fn str_starts_with(a: &str, p: &str) -> (r: bool)
    ensures
        r == p@.is_prefix_of(a@),
{
    let alen = a.unicode_len();
    let plen = p.unicode_len();
    if plen > alen {
        return false;
    }
    let mut i: usize = 0;
    while i < plen
        invariant
            alen == a@.len(),
            plen == p@.len(),
            plen <= alen,
            i <= plen,
            forall|j: int| 0 <= j < i ==> a@[j] == p@[j],
        decreases plen - i,
    {
        if a.get_char(i) != p.get_char(i) {
            return false;
        }
        i += 1;
    }
    proof {
        assert(a@.subrange(0, p@.len() as int) =~= p@);
    }
    true
}

/// The position of the first occurrence of `c` in `s`, if any.
pub open spec fn spec_index_of(s: Seq<char>, c: char) -> Option<int>
    decreases s.len(),
{
    if s.len() == 0 {
        None
    } else if s[0] == c {
        Some(0)
    } else {
        match spec_index_of(s.skip(1), c) {
            Some(i) => Some(i + 1),
            None => None,
        }
    }
}

/// `spec_index_of` finds the first occurrence: the character stands there and
/// nowhere earlier; `None` means the character is absent.
pub proof fn lemma_index_of_first(s: Seq<char>, c: char)
    ensures
        match spec_index_of(s, c) {
            Some(i) => 0 <= i < s.len() && s[i] == c && forall|j: int| 0 <= j < i ==> s[j] != c,
            None => forall|j: int| 0 <= j < s.len() ==> s[j] != c,
        },
    decreases s.len(),
{
    if s.len() == 0 {
    } else if s[0] == c {
    } else {
        lemma_index_of_first(s.skip(1), c);
        match spec_index_of(s.skip(1), c) {
            Some(i) => {
                assert(s.skip(1)[i] == c);
                assert forall|j: int| 0 <= j < i + 1 implies s[j] != c by {
                    if j > 0 {
                        assert(s.skip(1)[j - 1] != c);
                    }
                }
            },
            None => {
                assert forall|j: int| 0 <= j < s.len() implies s[j] != c by {
                    if j > 0 {
                        assert(s.skip(1)[j - 1] != c);
                    }
                }
            },
        }
    }
}

/// The position of the first occurrence of `c` in `s`, searched executably.
pub fn find_char(s: &str, c: char) -> (r: Option<usize>)
    ensures
        r matches Some(i) ==> spec_index_of(s@, c) == Some(i as int),
        r is None ==> spec_index_of(s@, c) is None,
{
    let len = s.unicode_len();
    let mut i: usize = 0;
    while i < len
        invariant
            len == s@.len(),
            i <= len,
            forall|j: int| 0 <= j < i ==> s@[j] != c,
        decreases len - i,
    {
        if s.get_char(i) == c {
            proof {
                lemma_index_of_first(s@, c);
                match spec_index_of(s@, c) {
                    Some(k) => {
                        assert(k <= i);
                        assert(k >= i);
                    },
                    None => {
                        assert(false);
                    },
                }
            }
            return Some(i);
        }
        i += 1;
    }
    proof {
        lemma_index_of_first(s@, c);
        match spec_index_of(s@, c) {
            Some(k) => {
                assert(s@[k] != c);
                assert(false);
            },
            None => {},
        }
    }
    None
}

/// The character for one decimal digit.
pub open spec fn spec_digit(d: int) -> char {
    if d == 0 {
        '0'
    } else if d == 1 {
        '1'
    } else if d == 2 {
        '2'
    } else if d == 3 {
        '3'
    } else if d == 4 {
        '4'
    } else if d == 5 {
        '5'
    } else if d == 6 {
        '6'
    } else if d == 7 {
        '7'
    } else if d == 8 {
        '8'
    } else {
        '9'
    }
}

/// The decimal rendering of a non-negative integer, no leading zeros.
pub open spec fn spec_decimal(n: int) -> Seq<char>
    decreases n,
{
    if n < 10 {
        seq![spec_digit(n)]
    } else {
        spec_decimal(n / 10).push(spec_digit(n % 10))
    }
}

fn digit_str(d: u16) -> (r: &'static str)
    requires
        d < 10,
    ensures
        r@ == seq![spec_digit(d as int)],
{
    let r: &'static str = if d == 0 {
        "0"
    } else if d == 1 {
        "1"
    } else if d == 2 {
        "2"
    } else if d == 3 {
        "3"
    } else if d == 4 {
        "4"
    } else if d == 5 {
        "5"
    } else if d == 6 {
        "6"
    } else if d == 7 {
        "7"
    } else if d == 8 {
        "8"
    } else {
        "9"
    };
    proof {
        reveal_strlit("0");
        reveal_strlit("1");
        reveal_strlit("2");
        reveal_strlit("3");
        reveal_strlit("4");
        reveal_strlit("5");
        reveal_strlit("6");
        reveal_strlit("7");
        reveal_strlit("8");
        reveal_strlit("9");
        assert(r@ =~= seq![spec_digit(d as int)]);
    }
    r
}

/// Appends the decimal rendering of `n` to `out`.
pub fn push_decimal(n: u16, out: &mut String)
    ensures
        final(out)@ == old(out)@ + spec_decimal(n as int),
    decreases n,
{
    if n < 10 {
        out.append(digit_str(n));
    } else {
        push_decimal(n / 10, out);
        out.append(digit_str(n % 10));
        proof {
            assert(old(out)@ + spec_decimal((n / 10) as int) + seq![spec_digit((n % 10) as int)]
                =~= old(out)@ + spec_decimal(n as int));
        }
    }
}

/// The decimal rendering of `n` as a fresh string.
pub fn decimal_string(n: u16) -> (r: String)
    ensures
        r@ == spec_decimal(n as int),
{
    let mut out = String::new();
    push_decimal(n, &mut out);
    proof {
        assert(out@ =~= spec_decimal(n as int));
    }
    out
}

} // verus!
