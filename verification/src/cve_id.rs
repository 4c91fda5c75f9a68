//! The CVE identifier grammar: `CVE-`, a four-digit year, `-`, and a
//! sequence number of four to seven digits, anchored at the end of the
//! string. Text before the match is tolerated; text after it is not.

use vstd::prelude::*;
use vstd::string::*;

verus! {

/// `c` is a decimal digit.
pub open spec fn is_digit(c: char) -> bool {
    '0' as u32 <= c as u32 && c as u32 <= '9' as u32
}

/// Every character of `s` is a decimal digit.
pub open spec fn all_digits(s: Seq<char>) -> bool {
    forall|i: int| 0 <= i < s.len() ==> is_digit(#[trigger] s[i])
}

/// `s` ends with `CVE-`, four digits, `-`, and exactly `k` digits.
pub open spec fn cve_match_at(s: Seq<char>, k: int) -> bool {
    s.len() >= k + 9 && {
        let p = s.len() - 9 - k;
        s[p] == 'C' && s[p + 1] == 'V' && s[p + 2] == 'E' && s[p + 3] == '-' && all_digits(
            s.subrange(p + 4, p + 8),
        ) && s[p + 8] == '-' && all_digits(s.subrange(p + 9, s.len() as int))
    }
}

/// `s` ends with a CVE identifier: `CVE-`, a four-digit year, `-`, and a
/// sequence number of four to seven digits.
pub open spec fn spec_valid_cve(s: Seq<char>) -> bool {
    exists|k: int| 4 <= k <= 7 && cve_match_at(s, k)
}

/// From digits on a subrange, digits at each of its positions.
proof fn lemma_all_digits_index(s: Seq<char>, a: int, b: int, j: int)
    requires
        0 <= a <= j < b <= s.len(),
        all_digits(s.subrange(a, b)),
    ensures
        is_digit(s[j]),
{
    assert(s.subrange(a, b)[j - a] == s[j]);
}

/// A match of `k` sequence digits forces `k` to equal the maximal
/// trailing digit run of the string.
proof fn lemma_match_forces_run(s: Seq<char>, k: int, d: int)
    requires
        4 <= k <= 7,
        cve_match_at(s, k),
        0 <= d <= s.len(),
        forall|j: int| s.len() - d <= j < s.len() ==> is_digit(#[trigger] s[j]),
        d == s.len() || !is_digit(s[s.len() - d - 1]),
    ensures
        k == d,
{
    let n = s.len() as int;
    let p = n - 9 - k;
    if k < d {
        // the separator before the sequence number would be a digit
        assert(s[p + 8] == '-');
        assert(is_digit(s[n - k - 1]));
        assert(!is_digit('-'));
    } else if k > d {
        // the character just before the trailing run lies inside the
        // sequence number, so it would be a digit
        assert(d < n);
        lemma_all_digits_index(s, p + 9, n, n - d - 1);
    }
}

fn is_digit_char(c: char) -> (r: bool)
    ensures
        r == is_digit(c),
{
    let u = c as u32;
    48 <= u && u <= 57
}

/// Whether `cve` ends with a well-formed CVE identifier.
pub fn is_valid_cve_string(cve: &str) -> (r: bool)
    ensures
        r == spec_valid_cve(cve@),
{
    let ghost s = cve@;
    let n = cve.unicode_len();
    // maximal run of digits at the end of the string
    let mut d: usize = 0;
    while d < n && is_digit_char(cve.get_char(n - 1 - d))
        invariant
            0 <= d <= n,
            s == cve@,
            n == s.len(),
            forall|j: int| n - d <= j < n ==> is_digit(#[trigger] s[j]),
        decreases n - d,
    {
        d = d + 1;
    }
    proof {
        assert(d == n || !is_digit(s[n - d - 1]));
    }
    if d < 4 || d > 7 || n < d + 9 {
        proof {
            assert forall|k: int| 4 <= k <= 7 implies !cve_match_at(s, k) by {
                if cve_match_at(s, k) {
                    lemma_match_forces_run(s, k, d as int);
                }
            }
        }
        return false;
    }
    // the separator, the four year digits, and the literal `CVE-`
    let sep_ok = cve.get_char(n - d - 1) == '-';
    let year_ok = sep_ok && is_digit_char(cve.get_char(n - d - 5)) && is_digit_char(
        cve.get_char(n - d - 4),
    ) && is_digit_char(cve.get_char(n - d - 3)) && is_digit_char(cve.get_char(n - d - 2));
    let lit_ok = year_ok && cve.get_char(n - d - 9) == 'C' && cve.get_char(n - d - 8) == 'V'
        && cve.get_char(n - d - 7) == 'E' && cve.get_char(n - d - 6) == '-';
    if lit_ok {
        proof {
            let k = d as int;
            let p = s.len() - 9 - k;
            assert(all_digits(s.subrange(p + 4, p + 8))) by {
                assert forall|i: int| 0 <= i < 4 implies is_digit(
                    #[trigger] s.subrange(p + 4, p + 8)[i],
                ) by {
                    assert(s.subrange(p + 4, p + 8)[i] == s[p + 4 + i]);
                }
            }
            assert(all_digits(s.subrange(p + 9, s.len() as int))) by {
                assert forall|i: int| 0 <= i < k implies is_digit(
                    #[trigger] s.subrange(p + 9, s.len() as int)[i],
                ) by {
                    assert(s.subrange(p + 9, s.len() as int)[i] == s[p + 9 + i]);
                }
            }
            assert(cve_match_at(s, k));
        }
        true
    } else {
        proof {
            assert forall|k: int| 4 <= k <= 7 implies !cve_match_at(s, k) by {
                if cve_match_at(s, k) {
                    lemma_match_forces_run(s, k, d as int);
                    let p = s.len() - 9 - k;
                    if !sep_ok {
                        assert(s[p + 8] == '-');
                    } else if !year_ok {
                        lemma_all_digits_index(s, p + 4, p + 8, p + 4);
                        lemma_all_digits_index(s, p + 4, p + 8, p + 5);
                        lemma_all_digits_index(s, p + 4, p + 8, p + 6);
                        lemma_all_digits_index(s, p + 4, p + 8, p + 7);
                    }
                }
            }
        }
        false
    }
}

} // verus!
