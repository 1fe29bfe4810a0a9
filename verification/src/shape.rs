use vstd::prelude::*;

verus! {

/// Number of elements a logical shape describes: the product of its
/// dimensions. The empty shape has product 1.
pub open spec fn shape_product(s: Seq<usize>) -> int
    decreases s.len(),
{
    if s.len() == 0 {
        1
    } else {
        shape_product(s.drop_last()) * s.last()
    }
}

/// Logical ranks 1 through 4 are representable; rank 0 and ranks of 5 or
/// more are rejected at construction.
pub open spec fn rank_supported(s: Seq<usize>) -> bool {
    1 <= s.len() <= 4
}

/// Row count of the rank-2 physical storage a logical shape of rank 2 to 4
/// folds onto: every dimension but the last, multiplied out.
pub open spec fn folded_rows(s: Seq<usize>) -> int {
    if s.len() == 2 {
        s[0] as int
    } else if s.len() == 3 {
        s[0] * s[1]
    } else {
        (s[0] * s[1]) * s[2]
    }
}

/// Column count of the folded physical storage: the last logical
/// dimension, which stays contiguous.
pub open spec fn folded_cols(s: Seq<usize>) -> int {
    s.last() as int
}

pub proof fn lemma_product_nonneg(s: Seq<usize>)
    ensures
        shape_product(s) >= 0,
    decreases s.len(),
{
    if s.len() > 0 {
        lemma_product_nonneg(s.drop_last());
    }
}

/// One dimension of zero forces an element count of zero.
pub proof fn lemma_product_zero(s: Seq<usize>, i: int)
    requires
        0 <= i < s.len(),
        s[i] == 0,
    ensures
        shape_product(s) == 0,
    decreases s.len(),
{
    if i == s.len() - 1 {
        assert(s.last() == 0);
        assert(shape_product(s.drop_last()) * 0 == 0) by (nonlinear_arith);
    } else {
        assert(s.drop_last()[i] == 0);
        lemma_product_zero(s.drop_last(), i);
        assert(0 * s.last() == 0) by (nonlinear_arith);
    }
}

pub proof fn lemma_product_take_step(s: Seq<usize>, i: int)
    requires
        0 <= i < s.len(),
    ensures
        shape_product(s.take(i + 1)) == shape_product(s.take(i)) * s[i],
{
    assert(s.take(i + 1).drop_last() =~= s.take(i));
    assert(s.take(i + 1).last() == s[i]);
}

pub proof fn lemma_product_split(s: Seq<usize>, i: int)
    requires
        0 <= i <= s.len(),
    ensures
        shape_product(s) == shape_product(s.take(i)) * shape_product(s.skip(i)),
    decreases s.len() - i,
{
    if i == s.len() {
        assert(s.take(i) =~= s);
        assert(s.skip(i) =~= Seq::<usize>::empty());
    } else {
        lemma_product_split(s, i + 1);
        lemma_product_take_step(s, i);
        assert(s.skip(i).drop_first() =~= s.skip(i + 1));
        lemma_product_skip_unfold(s, i);
        assert(shape_product(s) == (shape_product(s.take(i)) * s[i]) * shape_product(
            s.skip(i + 1),
        ));
        assert((shape_product(s.take(i)) * s[i]) * shape_product(s.skip(i + 1)) == shape_product(
            s.take(i),
        ) * (s[i] * shape_product(s.skip(i + 1)))) by (nonlinear_arith);
    }
}

/// A tail's product unfolds from the front: the head dimension times the
/// product of the rest.
proof fn lemma_product_skip_unfold(s: Seq<usize>, i: int)
    requires
        0 <= i < s.len(),
    ensures
        shape_product(s.skip(i)) == s[i] * shape_product(s.skip(i + 1)),
    decreases s.len() - i,
{
    if i == s.len() - 1 {
        assert(s.skip(i).drop_last() =~= Seq::<usize>::empty());
        assert(s.skip(i).last() == s[i]);
        assert(s.skip(i + 1) =~= Seq::<usize>::empty());
    } else {
        lemma_product_skip_unfold(s.drop_last(), i);
        assert(s.drop_last().skip(i) =~= s.skip(i).drop_last());
        assert(s.drop_last().skip(i + 1) =~= s.skip(i + 1).drop_last());
        assert(shape_product(s.skip(i)) == shape_product(s.skip(i).drop_last()) * s.last());
        assert(shape_product(s.skip(i + 1)) == shape_product(s.skip(i + 1).drop_last()) * s.last());
        assert(s[i] * (shape_product(s.skip(i + 1).drop_last()) * s.last()) == (s[i]
            * shape_product(s.skip(i + 1).drop_last())) * s.last()) by (nonlinear_arith);
    }
}

pub proof fn lemma_product_all_pos(s: Seq<usize>)
    requires
        forall|j: int| 0 <= j < s.len() ==> s[j] != 0,
    ensures
        shape_product(s) >= 1,
    decreases s.len(),
{
    if s.len() > 0 {
        assert(forall|j: int|
            0 <= j < s.drop_last().len() ==> s.drop_last()[j] != 0) by {
            assert(forall|j: int| 0 <= j < s.len() - 1 ==> s.drop_last()[j] == s[j]);
        }
        lemma_product_all_pos(s.drop_last());
        assert(shape_product(s.drop_last()) * s.last() >= 1) by (nonlinear_arith)
            requires
                shape_product(s.drop_last()) >= 1,
                s.last() >= 1,
        ;
    }
}

/// The folded physical extent covers exactly the logical element count.
pub proof fn lemma_folded_product(s: Seq<usize>)
    requires
        2 <= s.len() <= 4,
    ensures
        folded_rows(s) * folded_cols(s) == shape_product(s),
{
    assert(shape_product(Seq::<usize>::empty()) == 1);
    let d1 = s.drop_last();
    if s.len() == 2 {
        assert(d1.drop_last() =~= Seq::<usize>::empty());
        assert(shape_product(d1) == 1 * s[0]);
        assert(shape_product(s) == (1 * s[0]) * s[1]);
    } else if s.len() == 3 {
        let d2 = d1.drop_last();
        assert(d2.drop_last() =~= Seq::<usize>::empty());
        assert(shape_product(d2) == 1 * s[0]);
        assert(shape_product(d1) == (1 * s[0]) * s[1]);
        assert(shape_product(s) == ((1 * s[0]) * s[1]) * s[2]);
        assert(((1 * s[0]) * s[1]) * s[2] == (s[0] * s[1]) * s[2]) by (nonlinear_arith);
    } else {
        let d2 = d1.drop_last();
        let d3 = d2.drop_last();
        assert(d3.drop_last() =~= Seq::<usize>::empty());
        assert(shape_product(d3) == 1 * s[0]);
        assert(shape_product(d2) == (1 * s[0]) * s[1]);
        assert(shape_product(d1) == ((1 * s[0]) * s[1]) * s[2]);
        assert(shape_product(s) == (((1 * s[0]) * s[1]) * s[2]) * s[3]);
        assert((((1 * s[0]) * s[1]) * s[2]) * s[3] == ((s[0] * s[1]) * s[2]) * s[3])
            by (nonlinear_arith);
    }
}

/// Element count of a shape, guarded against machine overflow: `None`
/// exactly when the product exceeds `usize::MAX`.
pub fn checked_shape_product(shape: &Vec<usize>) -> (r: Option<usize>)
    ensures
        match r {
            Some(n) => n == shape_product(shape@),
            None => shape_product(shape@) > usize::MAX,
        },
{
    let n = shape.len();
    let mut i: usize = 0;
    while i < n
        invariant
            0 <= i <= n,
            n == shape@.len(),
            forall|j: int| 0 <= j < i ==> shape@[j] != 0,
        decreases n - i,
    {
        if shape[i] == 0 {
            proof {
                lemma_product_zero(shape@, i as int);
            }
            return Some(0);
        }
        i = i + 1;
    }
    let mut acc: usize = 1;
    let mut k: usize = 0;
    while k < n
        invariant
            0 <= k <= n,
            n == shape@.len(),
            forall|j: int| 0 <= j < n ==> shape@[j] != 0,
            acc == shape_product(shape@.take(k as int)),
        decreases n - k,
    {
        proof {
            lemma_product_take_step(shape@, k as int);
        }
        match acc.checked_mul(shape[k]) {
            Some(v) => {
                acc = v;
            },
            None => {
                proof {
                    lemma_product_split(shape@, k as int + 1);
                    lemma_product_all_pos(shape@.skip(k as int + 1));
                    assert(shape_product(shape@) >= shape_product(shape@.take(k as int + 1)))
                        by (nonlinear_arith)
                        requires
                            shape_product(shape@) == shape_product(shape@.take(k as int + 1))
                                * shape_product(shape@.skip(k as int + 1)),
                            shape_product(shape@.skip(k as int + 1)) >= 1,
                            shape_product(shape@.take(k as int + 1)) >= 0,
                    ;
                    lemma_product_nonneg(shape@.take(k as int + 1));
                }
                return None;
            },
        }
        k = k + 1;
    }
    proof {
        assert(shape@.take(n as int) =~= shape@);
    }
    Some(acc)
}

/// Folded physical row count of a rank-2 to rank-4 shape, guarded against
/// machine overflow.
pub fn checked_folded_rows(shape: &Vec<usize>) -> (r: Option<usize>)
    requires
        2 <= shape@.len() <= 4,
    ensures
        match r {
            Some(n) => n == folded_rows(shape@),
            None => folded_rows(shape@) > usize::MAX,
        },
{
    if shape.len() == 2 {
        Some(shape[0])
    } else if shape.len() == 3 {
        shape[0].checked_mul(shape[1])
    } else {
        match shape[0].checked_mul(shape[1]) {
            Some(v) => v.checked_mul(shape[2]),
            None => {
                if shape[2] == 0 {
                    proof {
                        assert((shape@[0] * shape@[1]) * shape@[2] == 0) by (nonlinear_arith)
                            requires
                                shape@[2] == 0,
                        ;
                    }
                    Some(0)
                } else {
                    proof {
                        assert((shape@[0] * shape@[1]) * shape@[2] >= shape@[0] * shape@[1])
                            by (nonlinear_arith)
                            requires
                                shape@[0] >= 0,
                                shape@[1] >= 0,
                                shape@[2] >= 1,
                        ;
                    }
                    None
                }
            },
        }
    }
}

/// The last logical dimension, which the folding keeps as the physical
/// column count.
pub fn last_dim(shape: &Vec<usize>) -> (r: usize)
    requires
        shape@.len() >= 1,
    ensures
        r == shape@.last(),
{
    shape[shape.len() - 1]
}

/// Exact equality of two logical shapes, dimension by dimension.
pub fn shape_eq(a: &Vec<usize>, b: &Vec<usize>) -> (r: bool)
    ensures
        r == (a@ == b@),
{
    if a.len() != b.len() {
        return false;
    }
    let mut i: usize = 0;
    while i < a.len()
        invariant
            0 <= i <= a@.len(),
            a@.len() == b@.len(),
            forall|j: int| 0 <= j < i ==> a@[j] == b@[j],
        decreases a@.len() - i,
    {
        if a[i] != b[i] {
            return false;
        }
        i = i + 1;
    }
    proof {
        assert(a@ =~= b@);
    }
    true
}

/// A fresh copy of a logical shape.
pub fn copy_shape(v: &Vec<usize>) -> (r: Vec<usize>)
    ensures
        r@ == v@,
{
    let mut r: Vec<usize> = Vec::new();
    let mut i: usize = 0;
    while i < v.len()
        invariant
            0 <= i <= v@.len(),
            r@ =~= v@.take(i as int),
        decreases v@.len() - i,
    {
        r.push(v[i]);
        i = i + 1;
    }
    proof {
        assert(v@.take(v@.len() as int) =~= v@);
    }
    r
}

} // verus!
