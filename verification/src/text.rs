use vstd::prelude::*;

verus! {

/// `s` with every hyphen replaced by an underscore, character for
/// character: the form artifact names take inside package identifiers,
/// native-library symbol names and environment-variable names.
pub open spec fn spec_underscored(s: Seq<char>) -> Seq<char> {
    s.map_values(|c: char| if c == '-' { '_' } else { c })
}

/// Replace every hyphen in `s` with an underscore.
pub fn underscored(s: &str) -> (r: String)
    ensures
        r@ == spec_underscored(s@),
{
    let n = s.unicode_len();
    let mut r = String::new();
    let mut i: usize = 0;
    while i < n
        invariant
            i <= n,
            n == s@.len(),
            r@ == spec_underscored(s@.take(i as int)),
        decreases n - i,
    {
        let c = s.get_char(i);
        if c == '-' {
            r.append("_");
            proof {
                reveal_strlit("_");
            }
        } else {
            let piece = s.substring_char(i, i + 1);
            r.append(piece);
        }
        proof {
            assert(r@ =~= spec_underscored(s@.take(i + 1)));
        }
        i += 1;
    }
    proof {
        assert(s@.take(n as int) =~= s@);
    }
    r
}

/// Character-wise equality of two string slices.
pub fn str_eq(a: &str, b: &str) -> (r: bool)
    ensures
        r == (a@ == b@),
{
    let x = a.to_owned();
    let y = b.to_owned();
    x == y
}

/// Whitespace as it appears around process-id text read from a device:
/// space, horizontal tab, carriage return and line feed.
pub open spec fn is_space(c: char) -> bool {
    c == ' ' || c == '\t' || c == '\r' || c == '\n'
}

fn is_space_char(c: char) -> (r: bool)
    ensures
        r == is_space(c),
{
    c == ' ' || c == '\t' || c == '\r' || c == '\n'
}

/// Relates a string to its trimmed form: a contiguous slice of it with
/// all surrounding whitespace removed and no whitespace left at its own
/// ends. Exactly one sequence stands in this relation to any string.
pub open spec fn trim_rel(s: Seq<char>, r: Seq<char>) -> bool {
    exists|a: int, b: int|
        0 <= a <= b <= s.len() && r == s.subrange(a, b) && (forall|k: int|
            0 <= k < a ==> is_space(s[k])) && (forall|k: int|
            b <= k < s.len() ==> is_space(s[k])) && (a == b || (!is_space(s[a]) && !is_space(
            s[b - 1],
        )))
}

/// Strip leading and trailing whitespace.
pub fn trimmed(s: &str) -> (r: String)
    ensures
        trim_rel(s@, r@),
{
    let n = s.unicode_len();
    let mut a: usize = 0;
    while a < n && is_space_char(s.get_char(a))
        invariant
            a <= n,
            n == s@.len(),
            forall|k: int| 0 <= k < a ==> is_space(s@[k]),
        decreases n - a,
    {
        a += 1;
    }
    if a == n {
        let r = String::new();
        proof {
            assert(r@ =~= s@.subrange(n as int, n as int));
            assert(trim_rel(s@, r@));
        }
        return r;
    }
    let mut b: usize = n;
    while b > a && is_space_char(s.get_char(b - 1))
        invariant
            a <= b <= n,
            n == s@.len(),
            forall|k: int| b <= k < n ==> is_space(s@[k]),
        decreases b,
    {
        b -= 1;
    }
    proof {
        assert(!is_space(s@[a as int]));
        assert(b > a) by {
            if b == a {
                assert(is_space(s@[a as int]));
            }
        }
        assert(!is_space(s@[b - 1]));
    }
    let piece = s.substring_char(a, b);
    let r = piece.to_owned();
    proof {
        assert(trim_rel(s@, r@));
    }
    r
}

/// Names a result the standard library computes from its argument alone:
/// the Unicode uppercase mapping of a character sequence.
pub uninterp spec fn upper_of(s: Seq<char>) -> Seq<char>;

/// Relies on str::to_uppercase: the uppercase mapping depends on the
/// characters alone, and an empty string stays empty.
#[verifier::external_body]
pub fn to_uppercase(s: &str) -> (r: String)
    ensures
        r@ == upper_of(s@),
        s@.len() == 0 ==> r@.len() == 0,
{
    s.to_uppercase()
}

} // verus!
