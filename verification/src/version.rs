//! Release version numbers and the order in which releases are preferred.
use std::cmp::Ordering;
use vstd::prelude::*;

use crate::text::{chars_of, digit_value, is_digit};
use crate::updater::{GithubRelease, APP_VERSION};

verus! {

/// The maximal runs of ASCII digits in `s`, from left to right.
pub open spec fn digit_runs(s: Seq<char>) -> Seq<Seq<char>>
    decreases s.len(),
{
    if s.len() == 0 {
        Seq::empty()
    } else {
        let runs = digit_runs(s.drop_last());
        let c = s.last();
        if !is_digit(c) {
            runs
        } else if s.len() >= 2 && is_digit(s[s.len() - 2]) {
            runs.update(runs.len() - 1, runs.last().push(c))
        } else {
            runs.push(seq![c])
        }
    }
}

/// The number that a run of decimal digits spells.
pub open spec fn decimal_value(d: Seq<char>) -> nat
    decreases d.len(),
{
    if d.len() == 0 {
        0
    } else {
        decimal_value(d.drop_last()) * 10 + digit_value(d.last()) as nat
    }
}

/// A run of digits read as a `u32`; a run too large for `u32` reads as 0.
pub open spec fn run_value(d: Seq<char>) -> u32 {
    if decimal_value(d) <= u32::MAX {
        decimal_value(d) as u32
    } else {
        0
    }
}

/// The numbers of a version tag: every run of digits, read as a `u32`.
pub open spec fn spec_version_numbers(s: Seq<char>) -> Seq<u32> {
    digit_runs(s).map_values(|r: Seq<char>| run_value(r))
}

/// The numbers of `value`: each run of ASCII digits parsed as a `u32`
/// (0 where the run does not fit).
pub fn version_numbers(value: &str) -> (nums: Vec<u32>)
    ensures
        nums@ == spec_version_numbers(value@),
{
    let v = chars_of(value);
    let n = v.len();
    let mut nums: Vec<u32> = Vec::new();
    let mut cur: u32 = 0;
    let mut over = false;
    let mut in_run = false;
    let mut i: usize = 0;
    while i < n
        invariant
            n == v@.len(),
            v@ == value@,
            i <= n,
            in_run == (i > 0 && is_digit(v@[i - 1])),
            in_run ==> {
                let runs = digit_runs(v@.subrange(0, i as int));
                &&& runs.len() > 0
                &&& nums@ == runs.drop_last().map_values(|r: Seq<char>| run_value(r))
                &&& over == (decimal_value(runs.last()) > u32::MAX)
                &&& !over ==> cur == decimal_value(runs.last())
            },
            !in_run ==> nums@ == digit_runs(v@.subrange(0, i as int)).map_values(
                |r: Seq<char>| run_value(r),
            ),
        decreases n - i,
    {
        let c = v[i];
        let ghost pre = v@.subrange(0, i as int);
        let ghost post = v@.subrange(0, i + 1);
        assert(post.drop_last() =~= pre);
        assert(post.last() == c);
        let ghost runs = digit_runs(pre);
        if '0' <= c && c <= '9' {
            let d: u32 = (c as u32) - 48;
            if in_run {
                assert(post.len() >= 2 && post[post.len() - 2] == v@[i - 1]);
                let ghost last = runs.last();
                assert(digit_runs(post) == runs.update(runs.len() - 1, last.push(c)));
                assert(last.push(c).drop_last() =~= last);
                assert(decimal_value(last.push(c)) == decimal_value(last) * 10 + d);
                if !over {
                    let wide: u64 = (cur as u64) * 10 + (d as u64);
                    if wide > 0xFFFF_FFFF {
                        over = true;
                    } else {
                        cur = wide as u32;
                    }
                }
                assert(digit_runs(post).drop_last() =~= runs.drop_last());
            } else {
                assert(digit_runs(post) == runs.push(seq![c]));
                assert(seq![c].drop_last() =~= Seq::<char>::empty());
                assert(decimal_value(Seq::<char>::empty()) == 0);
                assert(seq![c].last() == c);
                assert(decimal_value(seq![c]) == d);
                assert(digit_runs(post).drop_last() =~= runs);
                cur = d;
                over = false;
                in_run = true;
            }
        } else {
            assert(digit_runs(post) == runs);
            if in_run {
                let value_now: u32 = if over { 0 } else { cur };
                assert(runs.drop_last().push(runs.last()) =~= runs);
                nums.push(value_now);
                assert(nums@ =~= runs.map_values(|r: Seq<char>| run_value(r)));
            }
            in_run = false;
        }
        i += 1;
    }
    assert(v@.subrange(0, n as int) =~= v@);
    if in_run {
        let ghost runs = digit_runs(v@);
        assert(runs.drop_last().push(runs.last()) =~= runs);
        nums.push(if over { 0 } else { cur });
        assert(nums@ =~= runs.map_values(|r: Seq<char>| run_value(r)));
    }
    nums
}

/// Component `i` of a version, with every missing component read as 0.
pub open spec fn version_at(v: Seq<u32>, i: int) -> int {
    if 0 <= i < v.len() {
        v[i] as int
    } else {
        0
    }
}

/// `k` is the first component in which `a` and `b` differ.
pub open spec fn first_difference(a: Seq<u32>, b: Seq<u32>, k: int) -> bool {
    &&& 0 <= k
    &&& version_at(a, k) != version_at(b, k)
    &&& forall|j: int| 0 <= j < k ==> version_at(a, j) == version_at(b, j)
}

/// Version `a` comes before version `b`: at their first differing component
/// (missing components counting as 0) `a` is smaller.
pub open spec fn version_less(a: Seq<u32>, b: Seq<u32>) -> bool {
    exists|k: int| first_difference(a, b, k) && version_at(a, k) < version_at(b, k)
}

/// `a` and `b` agree in every component, missing ones counting as 0.
pub open spec fn same_version(a: Seq<u32>, b: Seq<u32>) -> bool {
    forall|k: int| 0 <= k ==> version_at(a, k) == version_at(b, k)
}

/// The order of two versions.
pub open spec fn version_order(a: Seq<u32>, b: Seq<u32>) -> Ordering {
    if version_less(a, b) {
        Ordering::Less
    } else if version_less(b, a) {
        Ordering::Greater
    } else {
        Ordering::Equal
    }
}

/// Where two versions differ at all, they differ first somewhere.
pub proof fn lemma_first_difference_exists(a: Seq<u32>, b: Seq<u32>, j: int)
    requires
        0 <= j,
        version_at(a, j) != version_at(b, j),
    ensures
        exists|k: int| first_difference(a, b, k) && k <= j,
    decreases j,
{
    if forall|i: int| 0 <= i < j ==> version_at(a, i) == version_at(b, i) {
        assert(first_difference(a, b, j));
    } else {
        let i = choose|i: int| 0 <= i < j && version_at(a, i) != version_at(b, i);
        lemma_first_difference_exists(a, b, i);
    }
}

/// Exactly one of `version_less(a, b)`, `version_less(b, a)`, `same_version(a, b)` holds.
pub proof fn lemma_version_trichotomy(a: Seq<u32>, b: Seq<u32>)
    ensures
        !(version_less(a, b) && version_less(b, a)),
        same_version(a, b) ==> !version_less(a, b) && !version_less(b, a),
        !version_less(a, b) && !version_less(b, a) ==> same_version(a, b),
{
    if version_less(a, b) && version_less(b, a) {
        let k1 = choose|k: int| first_difference(a, b, k) && version_at(a, k) < version_at(b, k);
        let k2 = choose|k: int| first_difference(b, a, k) && version_at(b, k) < version_at(a, k);
        assert(k1 == k2) by {
            if k1 < k2 {
            } else if k2 < k1 {
            }
        }
    }
    if !same_version(a, b) {
        let j = choose|j: int| 0 <= j && version_at(a, j) != version_at(b, j);
        lemma_first_difference_exists(a, b, j);
        let k = choose|k: int| first_difference(a, b, k) && k <= j;
        if version_at(a, k) < version_at(b, k) {
            assert(version_less(a, b));
        } else {
            assert(first_difference(b, a, k));
            assert(version_less(b, a));
        }
    }
}

/// `version_less` is transitive.
pub proof fn lemma_version_less_transitive(a: Seq<u32>, b: Seq<u32>, c: Seq<u32>)
    requires
        version_less(a, b),
        version_less(b, c),
    ensures
        version_less(a, c),
{
    let k1 = choose|k: int| first_difference(a, b, k) && version_at(a, k) < version_at(b, k);
    let k2 = choose|k: int| first_difference(b, c, k) && version_at(b, k) < version_at(c, k);
    let k = if k1 <= k2 { k1 } else { k2 };
    assert(first_difference(a, c, k) && version_at(a, k) < version_at(c, k));
}

/// Versions that agree in every component order alike against any third one.
pub proof fn lemma_same_version_substitutes(a: Seq<u32>, b: Seq<u32>, c: Seq<u32>)
    requires
        same_version(a, b),
    ensures
        version_less(a, c) == version_less(b, c),
        version_less(c, a) == version_less(c, b),
{
    if version_less(a, c) {
        let k = choose|k: int| first_difference(a, c, k) && version_at(a, k) < version_at(c, k);
        assert(first_difference(b, c, k));
    }
    if version_less(b, c) {
        let k = choose|k: int| first_difference(b, c, k) && version_at(b, k) < version_at(c, k);
        assert(first_difference(a, c, k));
    }
    if version_less(c, a) {
        let k = choose|k: int| first_difference(c, a, k) && version_at(c, k) < version_at(a, k);
        assert(first_difference(c, b, k));
    }
    if version_less(c, b) {
        let k = choose|k: int| first_difference(c, b, k) && version_at(c, k) < version_at(b, k);
        assert(first_difference(c, a, k));
    }
}

/// Orders two version strings by their numbers, component by component,
/// missing components counting as 0.
pub fn compare_versions(left: &str, right: &str) -> (order: Ordering)
    ensures
        order == version_order(spec_version_numbers(left@), spec_version_numbers(right@)),
{
    let a = version_numbers(left);
    let b = version_numbers(right);
    compare_numbers(&a, &b)
}

fn compare_numbers(a: &Vec<u32>, b: &Vec<u32>) -> (order: Ordering)
    ensures
        order == version_order(a@, b@),
{
    let (less, greater) = strictly_ordered(a, b);
    if less {
        Ordering::Less
    } else if greater {
        Ordering::Greater
    } else {
        Ordering::Equal
    }
}

/// Component `i` of `v`, 0 past its end.
fn component(v: &Vec<u32>, i: usize) -> (x: u32)
    ensures
        x as int == version_at(v@, i as int),
{
    if i < v.len() {
        v[i]
    } else {
        0
    }
}

/// Whether `a` is below `b` and whether `b` is below `a`.
fn strictly_ordered(a: &Vec<u32>, b: &Vec<u32>) -> (r: (bool, bool))
    ensures
        r.0 == version_less(a@, b@),
        r.1 == version_less(b@, a@),
{
    let n = if a.len() < b.len() {
        b.len()
    } else {
        a.len()
    };
    let mut i: usize = 0;
    while i < n
        invariant
            n >= a@.len(),
            n >= b@.len(),
            i <= n,
            forall|j: int| 0 <= j < i ==> version_at(a@, j) == version_at(b@, j),
        decreases n - i,
    {
        let x = component(a, i);
        let y = component(b, i);
        if x != y {
            assert(first_difference(a@, b@, i as int));
            assert(first_difference(b@, a@, i as int));
            proof {
                lemma_version_trichotomy(a@, b@);
            }
            return (x < y, y < x);
        }
        i += 1;
    }
    assert(same_version(a@, b@));
    proof {
        lemma_version_trichotomy(a@, b@);
    }
    (false, false)
}


/// Release `a` ranks below release `b`: a lower version, or the same version
/// published as a pre-release where `b` is stable.
pub open spec fn release_less(va: Seq<u32>, pa: bool, vb: Seq<u32>, pb: bool) -> bool {
    version_less(va, vb) || (same_version(va, vb) && pa && !pb)
}

/// Release `a` ranks above release `b`.
pub open spec fn outranks(a: GithubRelease, b: GithubRelease) -> bool {
    release_less(
        spec_version_numbers(b.tag_name@),
        b.prerelease,
        spec_version_numbers(a.tag_name@),
        a.prerelease,
    )
}

/// The order in which two releases are preferred.
pub open spec fn release_order(a: GithubRelease, b: GithubRelease) -> Ordering {
    if outranks(b, a) {
        Ordering::Less
    } else if outranks(a, b) {
        Ordering::Greater
    } else {
        Ordering::Equal
    }
}

/// No release ranks above itself, and the ranking is transitive.
pub proof fn lemma_outranks_strict(a: GithubRelease, b: GithubRelease, c: GithubRelease)
    ensures
        !outranks(a, a),
        outranks(a, b) ==> !outranks(b, a),
        outranks(a, b) && outranks(b, c) ==> outranks(a, c),
{
    let va = spec_version_numbers(a.tag_name@);
    let vb = spec_version_numbers(b.tag_name@);
    let vc = spec_version_numbers(c.tag_name@);
    lemma_version_trichotomy(va, va);
    lemma_version_trichotomy(va, vb);
    lemma_version_trichotomy(vb, vc);
    lemma_version_trichotomy(va, vc);
    if outranks(a, b) && outranks(b, c) {
        if version_less(vb, va) && version_less(vc, vb) {
            lemma_version_less_transitive(vc, vb, va);
        } else if version_less(vb, va) {
            lemma_same_version_substitutes(vb, vc, va);
        } else if version_less(vc, vb) {
            lemma_same_version_substitutes(vb, va, vc);
        } else {
            assert(same_version(va, vc));
        }
    }
}

/// Ranking no higher is transitive: if `a` does not outrank `b` and `b`
/// does not outrank `c`, then `a` does not outrank `c`.
pub proof fn lemma_not_outranks_transitive(a: GithubRelease, b: GithubRelease, c: GithubRelease)
    ensures
        !outranks(a, b) && !outranks(b, c) ==> !outranks(a, c),
{
    let va = spec_version_numbers(a.tag_name@);
    let vb = spec_version_numbers(b.tag_name@);
    let vc = spec_version_numbers(c.tag_name@);
    lemma_version_trichotomy(va, vb);
    lemma_version_trichotomy(vb, vc);
    lemma_version_trichotomy(va, vc);
    if !outranks(a, b) && !outranks(b, c) && outranks(a, c) {
        // vc <= va with ties broken by stability; va <= vb and vb <= vc
        if version_less(vc, va) {
            if version_less(va, vb) {
                lemma_version_less_transitive(vc, va, vb);
                if version_less(vb, vc) {
                    lemma_version_less_transitive(vc, vb, vc);
                    lemma_version_trichotomy(vc, vc);
                } else {
                    lemma_same_version_substitutes(vb, vc, vc);
                    lemma_version_trichotomy(vc, vc);
                }
            } else {
                lemma_same_version_substitutes(va, vb, vc);
                if version_less(vb, vc) {
                    lemma_version_less_transitive(vc, vb, vc);
                    lemma_version_trichotomy(vc, vc);
                } else {
                    lemma_same_version_substitutes(vb, vc, vc);
                    lemma_version_trichotomy(vc, vc);
                }
            }
        } else {
            // same version, c pre-release, a stable
            lemma_same_version_substitutes(vc, va, vb);
            lemma_same_version_substitutes(vc, va, vc);
            lemma_version_trichotomy(vc, vc);
            if version_less(va, vb) {
                lemma_version_less_transitive(vc, vb, vc);
            }
        }
    }
}

/// Swapping two versions reverses their order.
pub proof fn lemma_version_order_antisymmetric(a: Seq<u32>, b: Seq<u32>)
    ensures
        version_order(a, b) == Ordering::Less <==> version_order(b, a) == Ordering::Greater,
        version_order(a, b) == Ordering::Equal <==> version_order(b, a) == Ordering::Equal,
        version_order(a, b) == Ordering::Equal <==> same_version(a, b),
{
    lemma_version_trichotomy(a, b);
    lemma_version_trichotomy(b, a);
}

/// `v` cut or filled up with zeros to exactly `n` components.
pub open spec fn zero_padded(v: Seq<u32>, n: nat) -> Seq<u32> {
    Seq::new(n, |i: int| if i < v.len() { v[i] } else { 0u32 })
}

/// `p` comes before `q` in lexicographic order: at the first index where they
/// differ, `p` holds the smaller number.
pub open spec fn lex_less(p: Seq<u32>, q: Seq<u32>) -> bool {
    exists|k: int|
        0 <= k < p.len() && k < q.len() && p[k] < q[k] && forall|j: int|
            0 <= j < k ==> p[j] == q[j]
}

/// The lexicographic order of two sequences of one length.
pub open spec fn lex_order(p: Seq<u32>, q: Seq<u32>) -> Ordering {
    if lex_less(p, q) {
        Ordering::Less
    } else if lex_less(q, p) {
        Ordering::Greater
    } else {
        Ordering::Equal
    }
}

/// The length to which the two versions are padded before comparing: the
/// longer of the two, and at least three components.
pub open spec fn padded_length(a: Seq<u32>, b: Seq<u32>) -> nat {
    let m = if a.len() < b.len() { b.len() } else { a.len() };
    if m < 3 { 3 } else { m }
}

/// Comparing two versions is comparing their component lists, both padded
/// with zeros to one common length no shorter than either, in lexicographic
/// order. In particular trailing zero components never change the order.
pub proof fn lemma_version_order_zero_padded(a: Seq<u32>, b: Seq<u32>, n: nat)
    requires
        a.len() <= n,
        b.len() <= n,
    ensures
        version_order(a, b) == lex_order(zero_padded(a, n), zero_padded(b, n)),
{
    let pa = zero_padded(a, n);
    let pb = zero_padded(b, n);
    assert forall|i: int| 0 <= i < n implies pa[i] == version_at(a, i) && pb[i]
        == version_at(b, i) by {}
    assert(version_less(a, b) == lex_less(pa, pb)) by {
        if version_less(a, b) {
            let k = choose|k: int| first_difference(a, b, k) && version_at(a, k) < version_at(b, k);
            assert(k < n);
            assert(forall|j: int| 0 <= j < k ==> pa[j] == pb[j]);
        }
        if lex_less(pa, pb) {
            let k = choose|k: int|
                0 <= k < pa.len() && k < pb.len() && pa[k] < pb[k] && forall|j: int|
                    0 <= j < k ==> pa[j] == pb[j];
            assert(forall|j: int| 0 <= j < k ==> version_at(a, j) == pa[j] && version_at(b, j) == pb[j]);
            assert(first_difference(a, b, k));
        }
    }
    assert(version_less(b, a) == lex_less(pb, pa)) by {
        if version_less(b, a) {
            let k = choose|k: int| first_difference(b, a, k) && version_at(b, k) < version_at(a, k);
            assert(k < n);
            assert(forall|j: int| 0 <= j < k ==> pa[j] == pb[j]);
        }
        if lex_less(pb, pa) {
            let k = choose|k: int|
                0 <= k < pb.len() && k < pa.len() && pb[k] < pa[k] && forall|j: int|
                    0 <= j < k ==> pb[j] == pa[j];
            assert(forall|j: int| 0 <= j < k ==> version_at(a, j) == pa[j] && version_at(b, j) == pb[j]);
            assert(first_difference(b, a, k));
        }
    }
}

/// `compare_versions` orders two version strings as their number lists,
/// zero-padded to the longer length and at least three components, compare
/// in lexicographic order; swapping the strings reverses the result, and a
/// string compares equal to itself.
pub proof fn lemma_compare_versions_zero_padded(left: Seq<char>, right: Seq<char>)
    ensures
        ({
            let a = spec_version_numbers(left);
            let b = spec_version_numbers(right);
            let n = padded_length(a, b);
            version_order(a, b) == lex_order(zero_padded(a, n), zero_padded(b, n))
        }),
        version_order(spec_version_numbers(left), spec_version_numbers(right)) == Ordering::Less
            <==> version_order(spec_version_numbers(right), spec_version_numbers(left))
            == Ordering::Greater,
        version_order(spec_version_numbers(left), spec_version_numbers(left)) == Ordering::Equal,
{
    let a = spec_version_numbers(left);
    let b = spec_version_numbers(right);
    lemma_version_order_zero_padded(a, b, padded_length(a, b));
    lemma_version_order_antisymmetric(a, b);
    lemma_version_order_antisymmetric(a, a);
}

/// Of two releases with the same version, a stable one ranks above a
/// pre-release.
pub proof fn lemma_stable_preferred(stable: GithubRelease, pre: GithubRelease)
    requires
        same_version(spec_version_numbers(stable.tag_name@), spec_version_numbers(pre.tag_name@)),
        !stable.prerelease,
        pre.prerelease,
    ensures
        release_order(stable, pre) == Ordering::Greater,
        release_order(pre, stable) == Ordering::Less,
{
    let vs = spec_version_numbers(stable.tag_name@);
    let vp = spec_version_numbers(pre.tag_name@);
    lemma_version_trichotomy(vs, vp);
    lemma_version_trichotomy(vp, vs);
    assert(same_version(vp, vs));
}

/// Orders two releases: by version first, and among equal versions a stable
/// release above a pre-release.
pub fn compare_release_candidates(left: &GithubRelease, right: &GithubRelease) -> (order:
    Ordering)
    ensures
        order == release_order(*left, *right),
{
    let version_order = compare_versions(left.tag_name.as_str(), right.tag_name.as_str());
    proof {
        lemma_version_trichotomy(
            spec_version_numbers(left.tag_name@),
            spec_version_numbers(right.tag_name@),
        );
    }
    match version_order {
        Ordering::Less => Ordering::Less,
        Ordering::Greater => Ordering::Greater,
        Ordering::Equal => {
            if left.prerelease && !right.prerelease {
                Ordering::Less
            } else if !left.prerelease && right.prerelease {
                Ordering::Greater
            } else {
                Ordering::Equal
            }
        },
    }
}

/// Does `left` rank above `right`?
pub fn release_outranks(left: &GithubRelease, right: &GithubRelease) -> (b: bool)
    ensures
        b == outranks(*left, *right),
{
    let order = compare_release_candidates(left, right);
    match order {
        Ordering::Greater => true,
        _ => false,
    }
}

/// Is `tag` a newer version than this build's?
pub fn is_newer_release(tag: &str) -> (b: bool)
    ensures
        b == version_less(spec_version_numbers(APP_VERSION@), spec_version_numbers(tag@)),
{
    let order = compare_versions(tag, APP_VERSION);
    match order {
        Ordering::Greater => true,
        _ => false,
    }
}

} // verus!
