//! Recovery of a small exponent from a point: the baby-step giant-step
//! search.
//!
//! A table holds the encodings of the first `size` multiples of a base
//! point, the baby steps. To find the exponent of a point, the search
//! subtracts `size` times the base from it, at most `size` times, and looks
//! each intermediate point up among the baby steps. A hit after `i`
//! subtractions at baby step `j` gives the exponent `i * size + j`. The
//! search is bounded: exponents of `size * size` and above are not found.

use vstd::prelude::*;
use std::collections::BTreeMap;
use crate::bytes::{be64_value, read_be64, same_bytes};
use crate::group::{encoded_difference, encoded_sum, identity_encoding, Point};

verus! {

/// The largest table that can be built: its square is the range of one
/// chunk of an amount.
pub const MAX_TABLE_SIZE: u64 = 65536;

/// The encoding of `j` times the point encoded by `base`.
pub open spec fn baby_step(base: Seq<u8>, j: nat) -> Seq<u8>
    decreases j,
{
    if j == 0 {
        identity_encoding()
    } else {
        encoded_sum(baby_step(base, (j - 1) as nat), base)
    }
}

/// The encoding of the point encoded by `value` after `i` subtractions of
/// the point encoded by `stride`.
pub open spec fn giant_step(value: Seq<u8>, stride: Seq<u8>, i: nat) -> Seq<u8>
    decreases i,
{
    if i == 0 {
        value
    } else {
        encoded_difference(giant_step(value, stride, (i - 1) as nat), stride)
    }
}

/// Whether `value`, after `i` giant steps, is the baby step `j`.
pub open spec fn is_hit(base: Seq<u8>, size: nat, value: Seq<u8>, i: nat, j: nat) -> bool {
    giant_step(value, baby_step(base, size), i) == baby_step(base, j)
}

/// Whether `(i, j)` is the first hit of the search for `value`: no hit comes
/// after fewer giant steps, nor after as many at an earlier baby step.
pub open spec fn is_first_hit(base: Seq<u8>, size: nat, value: Seq<u8>, i: nat, j: nat) -> bool {
    &&& i < size
    &&& j < size
    &&& is_hit(base, size, value, i, j)
    &&& forall|a: nat, b: nat| a < i && b < size ==> !#[trigger] is_hit(base, size, value, a, b)
    &&& forall|b: nat| b < j ==> !#[trigger] is_hit(base, size, value, i, b)
}

/// Whether the search for `value` ends without a hit.
pub open spec fn has_no_hit(base: Seq<u8>, size: nat, value: Seq<u8>) -> bool {
    forall|a: nat, b: nat| a < size && b < size ==> !#[trigger] is_hit(base, size, value, a, b)
}

/// What the search for `value` gives: the exponent of the first hit, if
/// there is a hit.
pub open spec fn search_result(base: Seq<u8>, size: nat, value: Seq<u8>, found: Option<u64>) -> bool {
    match found {
        Some(exponent) => exists|i: nat, j: nat| #[trigger]
            is_first_hit(base, size, value, i, j) && exponent == i * size + j,
        None => has_no_hit(base, size, value),
    }
}

/// The key under which an encoding is filed: the number in its first eight
/// bytes.
pub open spec fn key_of(encoding: Seq<u8>) -> u64 {
    be64_value(encoding.subrange(0, 8))
}

/// Whether `index` and `overflow` file the first `n` of `steps`: the index
/// gives, for each key, the first step with that key, and `overflow` lists
/// every other step, in ascending order.
pub open spec fn files_steps(
    steps: Seq<Vec<u8>>,
    index: Map<u64, u64>,
    overflow: Seq<u64>,
    n: int,
) -> bool {
    &&& forall|k: u64| #[trigger]
        index.contains_key(k) ==> 0 <= index[k] < n && key_of(steps[index[k] as int]@) == k
    &&& forall|j: int|
        0 <= j < n ==> index.contains_key(#[trigger] key_of(steps[j]@)) && index[key_of(
            steps[j]@,
        )] <= j
    &&& forall|t: int| 0 <= t < overflow.len() ==> 0 <= #[trigger] overflow[t] < n
    &&& forall|s: int, t: int| 0 <= s < t < overflow.len() ==> overflow[s] < overflow[t]
    &&& forall|j: int|
        0 <= j < n && index[#[trigger] key_of(steps[j]@)] != j ==> exists|t: int|
            0 <= t < overflow.len() && #[trigger] overflow[t] == j
}

/// The baby steps of a base point, filed for lookup, with the stride of the
/// giant steps.
pub struct DiscreteLogTable {
    base: Point,
    size: u64,
    steps: Vec<Vec<u8>>,
    index: BTreeMap<u64, u64>,
    overflow: Vec<u64>,
    stride: Point,
}

impl DiscreteLogTable {
    #[verifier::type_invariant]
    spec fn well_formed(self) -> bool {
        &&& 1 <= self.size <= MAX_TABLE_SIZE
        &&& self.steps@.len() == self.size
        &&& forall|j: int|
            0 <= j < self.size ==> (#[trigger] self.steps@[j])@ == baby_step(self.base@, j as nat)
                && self.steps@[j]@.len() == 48
        &&& self.stride@ == baby_step(self.base@, self.size as nat)
        &&& files_steps(self.steps@, self.index@, self.overflow@, self.size as int)
    }

    /// The encoding of the base point.
    pub closed spec fn base_spec(self) -> Seq<u8> {
        self.base@
    }

    /// The number of baby steps, which is also the bound on giant steps.
    pub closed spec fn size_spec(self) -> nat {
        self.size as nat
    }

    /// Builds the table of the first `size` multiples of `base`.
    pub fn new(base: &Point, size: u64) -> (table: DiscreteLogTable)
        requires
            1 <= size <= MAX_TABLE_SIZE,
        ensures
            table.base_spec() == base@,
            table.size_spec() == size,
    {
        broadcast use vstd::std_specs::btree::group_btree_axioms;

        proof {
            lemma_keys_are_ordered();
        }
        let mut steps: Vec<Vec<u8>> = Vec::new();
        let mut index: BTreeMap<u64, u64> = BTreeMap::new();
        let mut overflow: Vec<u64> = Vec::new();
        let mut current: Point = Point::neutral();
        let mut n: u64 = 0;
        while n < size
            invariant
                n <= size <= MAX_TABLE_SIZE,
                steps@.len() == n,
                current@ == baby_step(base@, n as nat),
                forall|j: int|
                    0 <= j < n ==> (#[trigger] steps@[j])@ == baby_step(base@, j as nat)
                        && steps@[j]@.len() == 48,
                files_steps(steps@, index@, overflow@, n as int),
            decreases size - n,
        {
            proof {
                lemma_keys_are_ordered();
            }
            let encoding = current.encoding();
            let key = read_be64(&encoding, 0);
            let ghost old_steps = steps@;
            let ghost old_index = index@;
            let ghost old_overflow = overflow@;
            let seen = index.contains_key(&key);
            if seen {
                overflow.push(n);
            } else {
                index.insert(key, n);
            }
            steps.push(encoding);
            current = current.plus(base);
            proof {
                assert(key == key_of(steps@[n as int]@));
                assert forall|j: int| 0 <= j < n implies steps@[j] == old_steps[j] by {}
                if seen {
                    assert(overflow@[old_overflow.len() as int] == n);
                    assert forall|j: int|
                        0 <= j < n + 1 && index@[#[trigger] key_of(steps@[j]@)]
                            != j implies exists|t: int|
                        0 <= t < overflow@.len() && #[trigger] overflow@[t] == j by {
                        if j < n {
                            assert(old_index[key_of(old_steps[j]@)] != j);
                            let t = choose|t: int|
                                0 <= t < old_overflow.len() && #[trigger] old_overflow[t] == j;
                            assert(overflow@[t] == j);
                        } else {
                            assert(overflow@[old_overflow.len() as int] == j);
                        }
                    }
                    assert forall|s: int, t: int|
                        0 <= s < t < overflow@.len() implies overflow@[s] < overflow@[t] by {
                        if t < old_overflow.len() {
                            assert(old_overflow[s] < old_overflow[t]);
                        } else {
                            assert(overflow@[s] == old_overflow[s]);
                        }
                    }
                    assert forall|k: u64| #[trigger] index@.contains_key(k) implies 0 <= index@[k]
                        < n + 1 && key_of(steps@[index@[k] as int]@) == k by {
                        assert(old_index.contains_key(k));
                    }
                } else {
                    assert forall|j: int| 0 <= j < n implies key_of(steps@[j]@) != key by {
                        assert(old_index.contains_key(key_of(old_steps[j]@)));
                    }
                    assert forall|k: u64| #[trigger] index@.contains_key(k) implies 0 <= index@[k]
                        < n + 1 && key_of(steps@[index@[k] as int]@) == k by {
                        if k != key {
                            assert(old_index.contains_key(k));
                        }
                    }
                    assert forall|j: int|
                        0 <= j < n + 1 && index@[#[trigger] key_of(steps@[j]@)]
                            != j implies exists|t: int|
                        0 <= t < overflow@.len() && #[trigger] overflow@[t] == j by {
                        if j < n {
                            assert(old_index[key_of(old_steps[j]@)] != j);
                        }
                    }
                }
                assert(files_steps(steps@, index@, overflow@, n + 1));
            }
            n += 1;
        }
        DiscreteLogTable { base: *base, size, steps, index, overflow, stride: current }
    }

    /// The number of baby steps.
    pub fn size(&self) -> (size: u64)
        ensures
            size == self.size_spec(),
            1 <= size <= MAX_TABLE_SIZE,
    {
        proof {
            use_type_invariant(self);
        }
        self.size
    }

    /// The first baby step with the given encoding, if there is one.
    pub fn baby_step_of(&self, encoding: &Vec<u8>) -> (found: Option<u64>)
        requires
            encoding@.len() == 48,
        ensures
            match found {
                Some(j) => j < self.size_spec() && baby_step(self.base_spec(), j as nat)
                    == encoding@ && forall|b: nat|
                    b < j ==> #[trigger] baby_step(self.base_spec(), b) != encoding@,
                None => forall|b: nat|
                    b < self.size_spec() ==> #[trigger] baby_step(self.base_spec(), b)
                        != encoding@,
            },
    {
        broadcast use vstd::std_specs::btree::group_btree_axioms;

        proof {
            use_type_invariant(self);
            lemma_keys_are_ordered();
        }
        let key = read_be64(encoding, 0);
        let first: u64 = match self.index.get(&key) {
            None => {
                proof {
                    assert forall|b: nat| b < self.size_spec() implies #[trigger] baby_step(
                        self.base_spec(),
                        b,
                    ) != encoding@ by {
                        if baby_step(self.base_spec(), b) == encoding@ {
                            assert(self.steps@[b as int]@ == encoding@);
                            assert(self.index@.contains_key(key_of(self.steps@[b as int]@)));
                        }
                    }
                }
                return None;
            },
            Some(j) => *j,
        };
        proof {
            assert(self.index@.contains_key(key));
            assert(0 <= first < self.size);
        }
        if same_bytes(&self.steps[first as usize], encoding) {
            proof {
                assert forall|b: nat| b < first implies #[trigger] baby_step(self.base_spec(), b)
                    != encoding@ by {
                    if baby_step(self.base_spec(), b) == encoding@ {
                        assert(self.steps@[b as int]@ == encoding@);
                        assert(self.index@[key_of(self.steps@[b as int]@)] <= b);
                    }
                }
            }
            return Some(first);
        }
        let mut t: usize = 0;
        while t < self.overflow.len()
            invariant
                t <= self.overflow.len(),
                self.well_formed(),
                encoding@.len() == 48,
                key == key_of(encoding@),
                self.index@.contains_key(key),
                self.index@[key] == first,
                self.steps@[first as int]@ != encoding@,
                forall|s: int|
                    0 <= s < t ==> self.steps@[(#[trigger] self.overflow@[s]) as int]@
                        != encoding@,
            decreases self.overflow.len() - t,
        {
            let j: u64 = self.overflow[t];
            if same_bytes(&self.steps[j as usize], encoding) {
                proof {
                    assert forall|b: nat| b < j implies #[trigger] baby_step(self.base_spec(), b)
                        != encoding@ by {
                        if baby_step(self.base_spec(), b) == encoding@ {
                            self.lemma_match_is_first_or_overflows(encoding@, key, first, b);
                            let s = choose|s: int|
                                0 <= s < self.overflow@.len() && #[trigger] self.overflow@[s] == b;
                            if s >= t {
                                if s > t {
                                    assert(self.overflow@[t as int] < self.overflow@[s]);
                                }
                            }
                        }
                    }
                }
                return Some(j);
            }
            t += 1;
        }
        proof {
            assert forall|b: nat| b < self.size_spec() implies #[trigger] baby_step(
                self.base_spec(),
                b,
            ) != encoding@ by {
                if baby_step(self.base_spec(), b) == encoding@ {
                    self.lemma_match_is_first_or_overflows(encoding@, key, first, b);
                }
            }
        }
        None
    }

    /// A baby step with the encoding that was looked up, other than the one
    /// the index names, is listed in the overflow.
    proof fn lemma_match_is_first_or_overflows(
        self,
        encoding: Seq<u8>,
        key: u64,
        first: u64,
        b: nat,
    )
        requires
            self.well_formed(),
            key == key_of(encoding),
            self.index@.contains_key(key),
            self.index@[key] == first,
            self.steps@[first as int]@ != encoding,
            b < self.size,
            baby_step(self.base@, b) == encoding,
        ensures
            exists|s: int| 0 <= s < self.overflow@.len() && #[trigger] self.overflow@[s] == b,
    {
        assert(self.steps@[b as int]@ == encoding);
        assert(self.index@[key_of(self.steps@[b as int]@)] != b);
    }

    /// Searches for the exponent of `value` over the base of the table:
    /// the number of times the base must be added to the neutral point to
    /// reach `value`, as far as the bounded search finds it.
    pub fn discrete_log(&self, value: &Point) -> (found: Option<u64>)
        ensures
            search_result(self.base_spec(), self.size_spec(), value@, found),
            found matches Some(exponent) ==> exponent < self.size_spec() * self.size_spec()
                && exponent < 0x1_0000_0000,
    {
        proof {
            use_type_invariant(self);
        }
        let mut current: Point = *value;
        let mut i: u64 = 0;
        while i < self.size
            invariant
                i <= self.size,
                self.well_formed(),
                current@ == giant_step(value@, baby_step(self.base@, self.size as nat), i as nat),
                forall|a: nat, b: nat|
                    a < i && b < self.size ==> !#[trigger] is_hit(
                        self.base@,
                        self.size as nat,
                        value@,
                        a,
                        b,
                    ),
            decreases self.size - i,
        {
            let encoding = current.encoding();
            match self.baby_step_of(&encoding) {
                Some(j) => {
                    proof {
                        assert(is_hit(self.base@, self.size as nat, value@, i as nat, j as nat));
                        assert forall|b: nat| b < j implies !#[trigger] is_hit(
                            self.base@,
                            self.size as nat,
                            value@,
                            i as nat,
                            b,
                        ) by {
                            assert(baby_step(self.base_spec(), b) != encoding@);
                        }
                        assert(is_first_hit(
                            self.base@,
                            self.size as nat,
                            value@,
                            i as nat,
                            j as nat,
                        ));
                        assert(i * self.size + j < self.size * self.size) by (nonlinear_arith)
                            requires
                                i < self.size,
                                j < self.size,
                        ;
                        assert(self.size * self.size <= 65536 * 65536) by (nonlinear_arith)
                            requires
                                self.size <= 65536,
                        ;
                    }
                    return Some(i * self.size + j);
                },
                None => {
                    proof {
                        assert forall|b: nat| b < self.size implies !#[trigger] is_hit(
                            self.base@,
                            self.size as nat,
                            value@,
                            i as nat,
                            b,
                        ) by {
                            assert(baby_step(self.base_spec(), b) != encoding@);
                        }
                    }
                },
            }
            current = current.minus(&self.stride);
            i += 1;
        }
        None
    }
}

/// Keys are ordered as the integers they are.
proof fn lemma_keys_are_ordered()
    ensures
        vstd::laws_cmp::obeys_cmp::<u64>(),
{
    broadcast use vstd::laws_cmp::group_laws_cmp;

}

/// Whether the multiples of the point encoded by `base`, up to `bound` times
/// it, subtract as multiples do: `c` times the base less `b` times the base
/// is `c - b` times the base.
pub open spec fn multiples_subtract(base: Seq<u8>, bound: nat) -> bool {
    forall|c: nat, b: nat|
        b <= c <= bound ==> #[trigger] encoded_difference(baby_step(base, c), baby_step(base, b))
            == baby_step(base, (c - b) as nat)
}

/// Whether the multiples of the point encoded by `base`, up to `bound` times
/// it, are all different.
pub open spec fn multiples_differ(base: Seq<u8>, bound: nat) -> bool {
    forall|a: nat, b: nat|
        a <= bound && b <= bound && #[trigger] baby_step(base, a) == #[trigger] baby_step(base, b)
            ==> a == b
}

/// After `i` giant steps, `exponent` times the base has become `exponent -
/// i * size` times the base, as long as that is not negative.
pub proof fn lemma_giant_steps_of_multiple(
    base: Seq<u8>,
    size: nat,
    bound: nat,
    exponent: nat,
    i: nat,
)
    requires
        multiples_subtract(base, bound),
        exponent <= bound,
        i * size <= exponent,
    ensures
        giant_step(baby_step(base, exponent), baby_step(base, size), i) == baby_step(
            base,
            (exponent - i * size) as nat,
        ),
    decreases i,
{
    if i > 0 {
        let before = (i - 1) as nat;
        assert(before * size + size == i * size) by (nonlinear_arith)
            requires
                before + 1 == i,
        ;
        lemma_giant_steps_of_multiple(base, size, bound, exponent, before);
        let c = (exponent - before * size) as nat;
        assert(encoded_difference(baby_step(base, c), baby_step(base, size)) == baby_step(
            base,
            (c - size) as nat,
        ));
    } else {
        assert(i * size == 0) by (nonlinear_arith)
            requires
                i == 0,
        ;
    }
}

/// The search is correct for the multiples of a base whose multiples, up to
/// `bound` times it, subtract as multiples do and are all different: for
/// `exponent` times the base it finds `exponent` when that is below `size *
/// size`, and finds nothing when it is not.
pub proof fn lemma_search_finds_exponent(
    base: Seq<u8>,
    size: nat,
    bound: nat,
    exponent: nat,
)
    requires
        multiples_subtract(base, bound),
        multiples_differ(base, bound),
        1 <= size <= bound,
        exponent <= bound,
        size * size <= u64::MAX,
    ensures
        exponent < size * size ==> search_result(
            base,
            size,
            baby_step(base, exponent),
            Some(exponent as u64),
        ),
        exponent >= size * size ==> search_result(base, size, baby_step(base, exponent), None),
{
    let value = baby_step(base, exponent);
    assert forall|a: nat, b: nat| a < size && b < size && a * size <= exponent implies (
    #[trigger] is_hit(base, size, value, a, b) <==> exponent == a * size + b) by {
        lemma_giant_steps_of_multiple(base, size, bound, exponent, a);
        let rest = (exponent - a * size) as nat;
        assert(giant_step(value, baby_step(base, size), a) == baby_step(base, rest));
        if baby_step(base, rest) == baby_step(base, b) {
            assert(rest == b);
        }
    }
    if exponent < size * size {
        let i = exponent / size;
        let j = exponent % size;
        assert(exponent == i * size + j && i < size) by (nonlinear_arith)
            requires
                i == exponent / size,
                j == exponent % size,
                exponent < size * size,
                size >= 1,
        ;
        assert(is_hit(base, size, value, i, j));
        assert forall|a: nat, b: nat| a < i && b < size implies !#[trigger] is_hit(
            base,
            size,
            value,
            a,
            b,
        ) by {
            assert(a * size + b < i * size) by (nonlinear_arith)
                requires
                    a < i,
                    b < size,
            ;
        }
        assert(is_first_hit(base, size, value, i, j));
    } else {
        assert forall|a: nat, b: nat| a < size && b < size implies !#[trigger] is_hit(
            base,
            size,
            value,
            a,
            b,
        ) by {
            assert(a * size + b < size * size) by (nonlinear_arith)
                requires
                    a < size,
                    b < size,
            ;
        }
    }
}

/// A search has one first hit at most, so it has one result.
pub proof fn lemma_first_hit_is_unique(
    base: Seq<u8>,
    size: nat,
    value: Seq<u8>,
    i: nat,
    j: nat,
    a: nat,
    b: nat,
)
    requires
        is_first_hit(base, size, value, i, j),
        is_first_hit(base, size, value, a, b),
    ensures
        i == a,
        j == b,
{
    if i < a {
        assert(!is_hit(base, size, value, i, j));
    }
    if a < i {
        assert(!is_hit(base, size, value, a, b));
    }
    if j < b {
        assert(!is_hit(base, size, value, a, j));
    }
    if b < j {
        assert(!is_hit(base, size, value, i, b));
    }
}

} // verus!
