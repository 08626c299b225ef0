//! Unique output file naming.
//!
//! When a requested filename is already taken, a numeric counter is
//! spliced in between the name's stem and its extension, and the
//! counter grows until a free name is found. The caller supplies the
//! list of names that are already taken; the search is proved to find
//! the first free candidate, and to terminate because more candidates
//! than existing names cannot all be taken.

use crate::strutil::str_eq;
use vstd::prelude::*;
use vstd::seq_lib::*;
use vstd::string::*;

verus! {

/// The character for one decimal digit.
pub open spec fn digit_char(d: int) -> char {
    if d == 0 {
        '0'
    } else if d == 1 {
        '1'
    } else if d == 2 {
        '2'
    } else if d == 3 {
        '3'
    } else if d == 4 {
        '4'
    } else if d == 5 {
        '5'
    } else if d == 6 {
        '6'
    } else if d == 7 {
        '7'
    } else if d == 8 {
        '8'
    } else {
        '9'
    }
}

/// The decimal digits of `n`, most significant first.
pub open spec fn dec_digits(n: nat) -> Seq<char>
    decreases n,
{
    if n < 10 {
        seq![digit_char(n as int)]
    } else {
        dec_digits(n / 10).push(digit_char((n % 10) as int))
    }
}

proof fn lemma_dec_digits_len(n: nat)
    ensures
        dec_digits(n).len() >= 1,
    decreases n,
{
    if n >= 10 {
        lemma_dec_digits_len(n / 10);
    }
}

/// Distinct numbers have distinct decimal digit strings.
proof fn lemma_dec_digits_injective(a: nat, b: nat)
    requires
        dec_digits(a) == dec_digits(b),
    ensures
        a == b,
    decreases a,
{
    lemma_dec_digits_len(a);
    lemma_dec_digits_len(b);
    assert(dec_digits(a).last() == digit_char((a % 10) as int));
    assert(dec_digits(b).last() == digit_char((b % 10) as int));
    assert(a % 10 == b % 10);
    if a < 10 && b < 10 {
        assert(a == b);
    } else if a < 10 {
        lemma_dec_digits_len(b / 10);
        assert(dec_digits(a).len() == 1);
        assert(dec_digits(b).len() >= 2);
        assert(false);
    } else if b < 10 {
        lemma_dec_digits_len(a / 10);
        assert(false);
    } else {
        assert(dec_digits(a).drop_last() =~= dec_digits(a / 10));
        assert(dec_digits(b).drop_last() =~= dec_digits(b / 10));
        lemma_dec_digits_injective(a / 10, b / 10);
        assert(a == (a / 10) * 10 + a % 10);
        assert(b == (b / 10) * 10 + b % 10);
    }
}

/// Where a name splits into stem and extension: the index of the last
/// dot, provided that dot is not the leading character; the name's
/// length when there is no such dot (the extension is then empty).
pub open spec fn split_idx(name: Seq<char>) -> int
    decreases name.len(),
{
    if name.len() <= 1 {
        name.len() as int
    } else if name.last() == '.' {
        name.len() - 1
    } else if split_idx(name.drop_last()) == name.len() - 1 {
        name.len() as int
    } else {
        split_idx(name.drop_last())
    }
}

/// What `split_idx` finds: either the position of the last dot (never
/// the leading character), or the name's length when no such dot
/// exists.
pub proof fn lemma_split_idx_spec(name: Seq<char>)
    ensures
        0 <= split_idx(name) <= name.len(),
        name.len() >= 1 ==> 1 <= split_idx(name),
        split_idx(name) < name.len() ==> name[split_idx(name)] == '.',
        forall|j: int| split_idx(name) < j < name.len() ==> name[j] != '.',
        split_idx(name) == name.len() ==> forall|j: int| 1 <= j < name.len() ==> name[j] != '.',
    decreases name.len(),
{
    if name.len() <= 1 {
    } else {
        lemma_split_idx_spec(name.drop_last());
        assert(forall|j: int| 0 <= j < name.len() - 1 ==> name[j] == name.drop_last()[j]);
    }
}

/// The part of the name before the extension.
pub open spec fn stem_of(name: Seq<char>) -> Seq<char> {
    name.subrange(0, split_idx(name))
}

/// The extension, including its leading dot; empty when the name has
/// no extension.
pub open spec fn ext_of(name: Seq<char>) -> Seq<char> {
    name.subrange(split_idx(name), name.len() as int)
}

/// Candidate `k` for a requested filename: the name itself for
/// `k == 0`, else the stem, the decimal counter, and the extension.
pub open spec fn candidate(name: Seq<char>, k: nat) -> Seq<char> {
    if k == 0 {
        name
    } else {
        stem_of(name) + dec_digits(k) + ext_of(name)
    }
}

/// Distinct counters give distinct candidate names.
proof fn lemma_candidate_injective(name: Seq<char>, j: nat, k: nat)
    requires
        j != k,
    ensures
        candidate(name, j) != candidate(name, k),
{
    lemma_split_idx_spec(name);
    assert(stem_of(name) + ext_of(name) =~= name);
    if j == 0 || k == 0 {
        let m = if j == 0 {
            k
        } else {
            j
        };
        lemma_dec_digits_len(m);
        assert(candidate(name, m).len() == name.len() + dec_digits(m).len());
    } else {
        lemma_dec_digits_len(j);
        lemma_dec_digits_len(k);
        if dec_digits(j).len() == dec_digits(k).len() {
            if candidate(name, j) == candidate(name, k) {
                let sl = stem_of(name).len() as int;
                let dl = dec_digits(j).len() as int;
                assert(candidate(name, j).subrange(sl, sl + dl) =~= dec_digits(j));
                assert(candidate(name, k).subrange(sl, sl + dl) =~= dec_digits(k));
                lemma_dec_digits_injective(j, k);
                assert(false);
            }
        } else {
            assert(candidate(name, j).len() != candidate(name, k).len());
        }
    }
}

/// More distinct candidates than a finite set holds cannot all lie in
/// it: if every candidate below `k` is in the set, the set has at
/// least `k` elements.
proof fn lemma_candidates_bounded(name: Seq<char>, taken: Set<Seq<char>>, k: nat)
    requires
        taken.finite(),
        forall|j: nat| j < k ==> taken.contains(#[trigger] candidate(name, j)),
    ensures
        k <= taken.len(),
    decreases k,
{
    if k > 0 {
        let last = candidate(name, (k - 1) as nat);
        assert(taken.contains(last));
        let rest = taken.remove(last);
        assert forall|j: nat| j < k - 1 implies rest.contains(#[trigger] candidate(name, j)) by {
            lemma_candidate_injective(name, j, (k - 1) as nat);
        }
        lemma_candidates_bounded(name, rest, (k - 1) as nat);
    }
}

/// `k` is the first counter whose candidate name is free.
pub open spec fn is_first_free(name: Seq<char>, existing: Seq<Seq<char>>, k: nat) -> bool {
    &&& !existing.contains(candidate(name, k))
    &&& forall|j: nat| j < k ==> existing.contains(#[trigger] candidate(name, j))
}

/// One decimal digit as a string slice.
fn digit_str(d: u64) -> (r: &'static str)
    requires
        d < 10,
    ensures
        r@ == seq![digit_char(d as int)],
{
    if d == 0 {
        proof {
            reveal_strlit("0");
            assert("0"@ =~= seq![digit_char(0)]);
        }
        "0"
    } else if d == 1 {
        proof {
            reveal_strlit("1");
            assert("1"@ =~= seq![digit_char(1)]);
        }
        "1"
    } else if d == 2 {
        proof {
            reveal_strlit("2");
            assert("2"@ =~= seq![digit_char(2)]);
        }
        "2"
    } else if d == 3 {
        proof {
            reveal_strlit("3");
            assert("3"@ =~= seq![digit_char(3)]);
        }
        "3"
    } else if d == 4 {
        proof {
            reveal_strlit("4");
            assert("4"@ =~= seq![digit_char(4)]);
        }
        "4"
    } else if d == 5 {
        proof {
            reveal_strlit("5");
            assert("5"@ =~= seq![digit_char(5)]);
        }
        "5"
    } else if d == 6 {
        proof {
            reveal_strlit("6");
            assert("6"@ =~= seq![digit_char(6)]);
        }
        "6"
    } else if d == 7 {
        proof {
            reveal_strlit("7");
            assert("7"@ =~= seq![digit_char(7)]);
        }
        "7"
    } else if d == 8 {
        proof {
            reveal_strlit("8");
            assert("8"@ =~= seq![digit_char(8)]);
        }
        "8"
    } else {
        proof {
            reveal_strlit("9");
            assert("9"@ =~= seq![digit_char(9)]);
        }
        "9"
    }
}

/// The decimal representation of `n`.
fn u64_to_dec(n: u64) -> (r: String)
    ensures
        r@ == dec_digits(n as nat),
    decreases n,
{
    if n < 10 {
        let mut s = String::new();
        s.append(digit_str(n));
        proof {
            assert(s@ =~= dec_digits(n as nat));
        }
        s
    } else {
        let mut s = u64_to_dec(n / 10);
        s.append(digit_str(n % 10));
        proof {
            assert(s@ =~= dec_digits(n as nat));
        }
        s
    }
}

/// Split a filename into its stem and its extension (with the dot).
fn split_name<'a>(name: &'a str) -> (r: (&'a str, &'a str))
    ensures
        r.0@ == stem_of(name@),
        r.1@ == ext_of(name@),
{
    proof {
        lemma_split_idx_spec(name@);
    }
    let n = name.unicode_len();
    let mut j: usize = n;
    if n > 1 {
        while j > 1
            invariant
                n == name@.len(),
                n >= 2,
                1 <= j <= n,
                forall|l: int| j <= l < n ==> name@[l] != '.',
            decreases j,
        {
            j -= 1;
            if name.get_char(j) == '.' {
                proof {
                    lemma_split_idx_spec(name@);
                    assert(split_idx(name@) == j);
                }
                let stem = name.substring_char(0, j);
                let ext = name.substring_char(j, n);
                return (stem, ext);
            }
        }
    }
    proof {
        assert(split_idx(name@) == n as int);
    }
    let stem = name.substring_char(0, n);
    let ext = name.substring_char(n, n);
    proof {
        assert(ext@ =~= ext_of(name@));
        assert(stem@ =~= stem_of(name@));
    }
    (stem, ext)
}

/// Build candidate `k` for the requested filename.
fn make_candidate(filename: &str, stem: &str, ext: &str, k: usize) -> (r: String)
    requires
        stem@ == stem_of(filename@),
        ext@ == ext_of(filename@),
    ensures
        r@ == candidate(filename@, k as nat),
{
    if k == 0 {
        filename.to_owned()
    } else {
        let mut s = stem.to_owned();
        let d = u64_to_dec(k as u64);
        s.append(d.as_str());
        s.append(ext);
        s
    }
}

/// Whether the candidate occurs in the list of existing names.
fn contains_name(existing: &Vec<String>, cand: &String) -> (r: bool)
    ensures
        r == existing.deep_view().contains(cand@),
{
    let n = existing.len();
    let mut i: usize = 0;
    while i < n
        invariant
            n == existing@.len(),
            i <= n,
            forall|j: int| 0 <= j < i ==> existing.deep_view()[j] != cand@,
        decreases n - i,
    {
        if str_eq(existing[i].as_str(), cand.as_str()) {
            proof {
                assert(existing.deep_view()[i as int] == cand@);
            }
            return true;
        }
        i += 1;
    }
    proof {
        assert(!existing.deep_view().contains(cand@));
    }
    false
}

/// Find the first free name for the requested filename, given the
/// names that are already taken: the filename itself if it is free,
/// else the name with the least counter spliced in before the
/// extension that no existing entry matches.
pub fn get_unique_filename(filename: &str, existing: &Vec<String>) -> (r: String)
    ensures
        exists|k: nat|
            #[trigger] is_first_free(filename@, existing.deep_view(), k) && r@ == candidate(
                filename@,
                k,
            ),
{
    let ghost ex = existing.deep_view();
    let (stem, ext) = split_name(filename);
    let n = existing.len();
    proof {
        assert(ex.len() == n);
        ex.lemma_cardinality_of_set();
        seq_to_set_is_finite(ex);
    }
    let mut k: usize = 0;
    loop
        invariant
            ex == existing.deep_view(),
            ex.len() == n,
            ex.to_set().finite(),
            ex.to_set().len() <= n,
            stem@ == stem_of(filename@),
            ext@ == ext_of(filename@),
            k <= n,
            forall|j: nat| j < k ==> ex.contains(#[trigger] candidate(filename@, j)),
        decreases n - k,
    {
        let cand = make_candidate(filename, stem, ext, k);
        if !contains_name(existing, &cand) {
            proof {
                assert(is_first_free(filename@, ex, k as nat));
            }
            return cand;
        }
        proof {
            assert(forall|j: nat|
                j < k + 1 ==> ex.contains(#[trigger] candidate(filename@, j)));
            assert(forall|j: nat|
                j < k + 1 ==> ex.to_set().contains(#[trigger] candidate(filename@, j)));
            lemma_candidates_bounded(filename@, ex.to_set(), (k + 1) as nat);
            assert(k + 1 <= n);
        }
        k += 1;
    }
}

} // verus!
