//! Dotted version strings and their order.
use std::cmp::Ordering;
use vstd::prelude::*;

verus! {

/// `c` is an ASCII decimal digit.
pub open spec fn is_digit(c: char) -> bool {
    48 <= (c as int) <= 57
}

/// The value of a decimal digit.
pub open spec fn digit_val(c: char) -> int {
    (c as int) - 48
}

/// Every character is a decimal digit.
pub open spec fn all_digits(c: Seq<char>) -> bool {
    forall|i: int| 0 <= i < c.len() ==> is_digit(#[trigger] c[i])
}

/// The number a string of digits denotes.
pub open spec fn digits_value(c: Seq<char>) -> int
    decreases c.len(),
{
    if c.len() == 0 {
        0
    } else {
        digits_value(c.drop_last()) * 10 + digit_val(c.last())
    }
}

/// The value of one component: the number it spells when it is a non-empty
/// run of digits that fits in 64 bits, otherwise zero.
pub open spec fn component_value(c: Seq<char>) -> int {
    if c.len() > 0 && all_digits(c) && digits_value(c) <= u64::MAX {
        digits_value(c)
    } else {
        0
    }
}

/// The components of a version: the pieces between dots.
pub open spec fn split_dots(s: Seq<char>) -> Seq<Seq<char>>
    decreases s.len(),
{
    if s.len() == 0 {
        seq![Seq::<char>::empty()]
    } else {
        let p = split_dots(s.drop_last());
        if s.last() == '.' {
            p.push(Seq::<char>::empty())
        } else {
            p.update(p.len() - 1, p.last().push(s.last()))
        }
    }
}

/// The numeric components of a version.
pub open spec fn version_components(s: Seq<char>) -> Seq<int> {
    split_dots(s).map_values(|c: Seq<char>| component_value(c))
}

/// Lexicographic order of component lists, a missing component counting as
/// zero: -1, 0 or 1.
pub open spec fn components_order(a: Seq<int>, b: Seq<int>) -> int
    decreases a.len() + b.len(),
{
    if a.len() == 0 && b.len() == 0 {
        0
    } else {
        let x = if a.len() > 0 {
            a[0]
        } else {
            0
        };
        let y = if b.len() > 0 {
            b[0]
        } else {
            0
        };
        if x < y {
            -1
        } else if x > y {
            1
        } else {
            components_order(
                if a.len() > 0 {
                    a.drop_first()
                } else {
                    a
                },
                if b.len() > 0 {
                    b.drop_first()
                } else {
                    b
                },
            )
        }
    }
}

/// The order of two versions: -1, 0 or 1.
pub open spec fn version_order(a: Seq<char>, b: Seq<char>) -> int {
    components_order(version_components(a), version_components(b))
}

/// A list of 64-bit components as integers.
pub open spec fn widen(v: Seq<u64>) -> Seq<int> {
    v.map_values(|x: u64| x as int)
}

proof fn lemma_split_dots_nonempty(s: Seq<char>)
    ensures
        split_dots(s).len() >= 1,
    decreases s.len(),
{
    if s.len() > 0 {
        lemma_split_dots_nonempty(s.drop_last());
    }
}

fn digit_of(c: char) -> (r: Option<u64>)
    ensures
        match r {
            Some(d) => is_digit(c) && d == digit_val(c),
            None => !is_digit(c),
        },
{
    let v = c as u32;
    if v >= 48 && v <= 57 {
        Some((v - 48) as u64)
    } else {
        None
    }
}

/// The numeric components of a version string.
pub fn parse_version(s: &str) -> (r: Vec<u64>)
    ensures
        r@.len() == version_components(s@).len(),
        forall|i: int| 0 <= i < r@.len() ==> r@[i] == #[trigger] version_components(s@)[i],
        widen(r@) == version_components(s@),
{
    let n = s.unicode_len();
    let mut done: Vec<u64> = Vec::new();
    let mut cur_len: usize = 0;
    let mut cur_digits = true;
    let mut cur_value: u64 = 0;
    let mut cur_overflow = false;
    let mut i: usize = 0;
    assert(s@.take(0) =~= Seq::<char>::empty());
    while i < n
        invariant
            n == s@.len(),
            i <= n,
            cur_len <= i,
            ({
                let p = split_dots(s@.take(i as int));
                let cur = p.last();
                &&& p.len() >= 1
                &&& done@.len() == p.len() - 1
                &&& forall|k: int| 0 <= k < done@.len() ==> done@[k] == #[trigger] component_value(p[k])
                &&& cur.len() == cur_len
                &&& cur_digits == all_digits(cur)
                &&& cur_digits ==> (cur_overflow <==> digits_value(cur) > u64::MAX)
                &&& cur_digits && !cur_overflow ==> cur_value == digits_value(cur)
                &&& cur_digits ==> digits_value(cur) >= 0
            }),
        decreases n - i,
    {
        let c = s.get_char(i);
        let ghost prev = s@.take(i as int);
        let ghost next = s@.take(i + 1);
        proof {
            lemma_split_dots_nonempty(prev);
            assert(next.drop_last() =~= prev);
            assert(next.last() == c);
        }
        let ghost p = split_dots(prev);
        let ghost cur = p.last();
        if c == '.' {
            let v = if cur_len > 0 && cur_digits && !cur_overflow {
                cur_value
            } else {
                0
            };
            done.push(v);
            cur_len = 0;
            cur_digits = true;
            cur_value = 0;
            cur_overflow = false;
            proof {
                let q = split_dots(next);
                assert(q == p.push(Seq::<char>::empty()));
                assert forall|k: int| 0 <= k < done@.len() implies done@[k] == #[trigger] component_value(q[k]) by {
                    if k < done@.len() - 1 {
                        assert(q[k] == p[k]);
                    } else {
                        assert(q[k] == cur);
                    }
                }
                assert(all_digits(q.last()));
            }
        } else {
            let ghost ncur = cur.push(c);
            proof {
                let q = split_dots(next);
                assert(q == p.update(p.len() - 1, ncur));
                assert(ncur.drop_last() =~= cur);
                assert(ncur.last() == c);
                assert(forall|k: int| 0 <= k < done@.len() ==> q[k] == p[k]);
            }
            match digit_of(c) {
                Some(d) => {
                    if cur_digits && !cur_overflow {
                        match cur_value.checked_mul(10) {
                            Some(m) => match m.checked_add(d) {
                                Some(v) => {
                                    cur_value = v;
                                },
                                None => {
                                    cur_overflow = true;
                                },
                            },
                            None => {
                                proof {
                                    assert(digits_value(ncur) >= cur_value * 10);
                                }
                                cur_overflow = true;
                            },
                        }
                    }
                    proof {
                        assert(all_digits(ncur) == all_digits(cur)) by {
                            if all_digits(cur) {
                                assert forall|k: int| 0 <= k < ncur.len() implies is_digit(#[trigger] ncur[k]) by {
                                    if k < cur.len() {
                                        assert(ncur[k] == cur[k]);
                                    }
                                }
                            }
                            if all_digits(ncur) {
                                assert forall|k: int| 0 <= k < cur.len() implies is_digit(#[trigger] cur[k]) by {
                                    assert(ncur[k] == cur[k]);
                                }
                            }
                        }
                    }
                },
                None => {
                    cur_digits = false;
                    proof {
                        assert(!is_digit(ncur[ncur.len() - 1]));
                    }
                },
            }
            cur_len = cur_len + 1;
        }
        i = i + 1;
    }
    assert(s@.take(n as int) =~= s@);
    proof {
        lemma_split_dots_nonempty(s@);
    }
    let ghost p = split_dots(s@);
    let v = if cur_len > 0 && cur_digits && !cur_overflow {
        cur_value
    } else {
        0
    };
    done.push(v);
    proof {
        assert forall|k: int| 0 <= k < done@.len() implies done@[k] == #[trigger] version_components(s@)[k] by {
            assert(version_components(s@)[k] == component_value(p[k]));
        }
        assert(widen(done@) =~= version_components(s@));
    }
    done
}

/// Compares two component lists as [`components_order`] does.
fn order_components(a: &Vec<u64>, b: &Vec<u64>) -> (r: i8)
    ensures
        r == components_order(widen(a@), widen(b@)),
{
    let ghost av = widen(a@);
    let ghost bv = widen(b@);
    let mut i: usize = 0;
    assert(av.len() == a.len());
    assert(bv.len() == b.len());
    assert(av.skip(0) =~= av);
    assert(bv.skip(0) =~= bv);
    while i < a.len() || i < b.len()
        invariant
            av == widen(a@),
            bv == widen(b@),
            av.len() == a.len(),
            bv.len() == b.len(),
            components_order(av, bv) == components_order(
                if i <= av.len() { av.skip(i as int) } else { Seq::<int>::empty() },
                if i <= bv.len() { bv.skip(i as int) } else { Seq::<int>::empty() },
            ),
        decreases (if a.len() > b.len() { a.len() } else { b.len() }) - i,
    {
        let x: u64 = if i < a.len() {
            a[i]
        } else {
            0
        };
        let y: u64 = if i < b.len() {
            b[i]
        } else {
            0
        };
        let ghost sa = if i <= av.len() { av.skip(i as int) } else { Seq::<int>::empty() };
        let ghost sb = if i <= bv.len() { bv.skip(i as int) } else { Seq::<int>::empty() };
        proof {
            if i < a.len() {
                assert(sa[0] == x);
                assert(sa.drop_first() =~= av.skip(i + 1));
            } else {
                assert(sa =~= Seq::<int>::empty());
            }
            if i < b.len() {
                assert(sb[0] == y);
                assert(sb.drop_first() =~= bv.skip(i + 1));
            } else {
                assert(sb =~= Seq::<int>::empty());
            }
        }
        if x < y {
            return -1;
        }
        if x > y {
            return 1;
        }
        proof {
            if i >= a.len() {
                assert(av.skip(i + 1) =~= Seq::<int>::empty() || i + 1 > av.len());
            }
            if i >= b.len() {
                assert(bv.skip(i + 1) =~= Seq::<int>::empty() || i + 1 > bv.len());
            }
        }
        i = i + 1;
    }
    0
}

/// Compares two dotted version strings component by component.
pub fn compare_versions(a: &str, b: &str) -> (r: Ordering)
    ensures
        (r == Ordering::Less) == (version_order(a@, b@) < 0),
        (r == Ordering::Equal) == (version_order(a@, b@) == 0),
        (r == Ordering::Greater) == (version_order(a@, b@) > 0),
{
    let va = parse_version(a);
    let vb = parse_version(b);
    let o = order_components(&va, &vb);
    if o < 0 {
        Ordering::Less
    } else if o == 0 {
        Ordering::Equal
    } else {
        Ordering::Greater
    }
}

/// Whether version `a` is older than version `b`.
pub fn is_older_version(a: &str, b: &str) -> (r: bool)
    ensures
        r == (version_order(a@, b@) < 0),
{
    match compare_versions(a, b) {
        Ordering::Less => true,
        _ => false,
    }
}

/// Every version is as new as itself.
pub proof fn lemma_version_order_reflexive(a: Seq<char>)
    ensures
        version_order(a, a) == 0,
{
    lemma_components_order_reflexive(version_components(a));
}

/// Swapping two versions reverses their order.
pub proof fn law_version_order_antisymmetric(a: Seq<char>, b: Seq<char>)
    ensures
        version_order(a, b) == -version_order(b, a),
{
    lemma_components_order_antisym(version_components(a), version_components(b));
}

proof fn lemma_components_order_antisym(a: Seq<int>, b: Seq<int>)
    ensures
        components_order(a, b) == -components_order(b, a),
    decreases a.len() + b.len(),
{
    if !(a.len() == 0 && b.len() == 0) {
        lemma_components_order_antisym(
            if a.len() > 0 { a.drop_first() } else { a },
            if b.len() > 0 { b.drop_first() } else { b },
        );
    }
}

proof fn lemma_components_order_reflexive(a: Seq<int>)
    ensures
        components_order(a, a) == 0,
    decreases a.len(),
{
    if a.len() > 0 {
        lemma_components_order_reflexive(a.drop_first());
    }
}

} // verus!
