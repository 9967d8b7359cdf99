use vstd::prelude::*;
use crate::error::VmcError;

verus! {

/// Highest Hermite order the orbitals use.
pub const MAX_ORDER: usize = 7;

/// Coefficient of `x^i` in the physicists' Hermite polynomial `H_n`, from
/// `H_0 = 1`, `H_1 = 2x` and `H_n = 2x H_{n-1} - 2(n-1) H_{n-2}`.
pub open spec fn hermite_coeff(n: nat, i: nat) -> int
    decreases n,
{
    if n == 0 {
        if i == 0 { 1 } else { 0 }
    } else if n == 1 {
        if i == 1 { 2 } else { 0 }
    } else {
        (if i >= 1 { 2 * hermite_coeff((n - 1) as nat, (i - 1) as nat) } else { 0 })
            - 2 * (n - 1) * hermite_coeff((n - 2) as nat, i)
    }
}

/// Coefficient of `x^i` in `H_n'`.
pub open spec fn derivative_coeff(n: nat, i: nat) -> int {
    (i + 1) * hermite_coeff(n, i + 1)
}

/// Coefficient of `x^i` in `H_n''`.
pub open spec fn second_derivative_coeff(n: nat, i: nat) -> int {
    (i + 1) * (i + 2) * hermite_coeff(n, i + 2)
}

/// A bound on the size of every coefficient of `H_n`, following the recurrence.
spec fn coeff_bound(n: nat) -> int
    decreases n,
{
    if n == 0 {
        1
    } else if n == 1 {
        2
    } else {
        2 * coeff_bound((n - 1) as nat) + 2 * (n - 1) * coeff_bound((n - 2) as nat)
    }
}

/// `H_n` has degree `n`: higher coefficients vanish.
proof fn lemma_coeff_above_degree(n: nat, i: nat)
    requires
        i > n,
    ensures
        hermite_coeff(n, i) == 0,
    decreases n,
{
    if n >= 2 {
        lemma_coeff_above_degree((n - 1) as nat, (i - 1) as nat);
        lemma_coeff_above_degree((n - 2) as nat, i);
    }
}

/// Every coefficient of `H_n` lies within `coeff_bound(n)`, which is positive.
proof fn lemma_coeff_bounded(n: nat, i: nat)
    ensures
        coeff_bound(n) >= 1,
        -coeff_bound(n) <= hermite_coeff(n, i) <= coeff_bound(n),
    decreases n,
{
    if n >= 2 {
        let n1 = (n - 1) as nat;
        let n2 = (n - 2) as nat;
        lemma_coeff_bounded(n1, (if i >= 1 { i - 1 } else { 0 }) as nat);
        lemma_coeff_bounded(n2, i);
        let c2 = hermite_coeff(n2, i);
        let b2 = coeff_bound(n2);
        let m = 2 * (n - 1);
        assert(m >= 0);
        assert(-(m * b2) <= m * c2 <= m * b2) by (nonlinear_arith)
            requires
                m >= 0,
                -b2 <= c2 <= b2,
        ;
        assert(m * b2 >= 0) by (nonlinear_arith)
            requires
                m >= 0,
                b2 >= 1,
        ;
    }
}

/// The bound grows with the order and stays small up to the supported order.
proof fn lemma_bound_small(n: nat)
    requires
        n <= MAX_ORDER,
    ensures
        coeff_bound(n) <= 6512,
{
    assert(coeff_bound(0) == 1);
    assert(coeff_bound(1) == 2);
    assert(coeff_bound(2) == 6);
    assert(coeff_bound(3) == 20);
    assert(coeff_bound(4) == 76);
    assert(coeff_bound(5) == 2 * coeff_bound(4) + 8 * coeff_bound(3));
    assert(coeff_bound(5) == 312);
    assert(coeff_bound(6) == 2 * coeff_bound(5) + 10 * coeff_bound(4));
    assert(coeff_bound(6) == 1384);
    assert(coeff_bound(7) == 2 * coeff_bound(6) + 12 * coeff_bound(5));
    assert(coeff_bound(7) == 6512);
    assert(n == 0 || n == 1 || n == 2 || n == 3 || n == 4 || n == 5 || n == 6 || n == 7);
}

/// The coefficients of the derivative of the polynomial with coefficients `p`.
fn differentiate(p: &Vec<i64>) -> (r: Vec<i64>)
    requires
        p@.len() <= 9,
        forall|i: int| 0 <= i < p@.len() ==> -1_000_000_000 <= #[trigger] p@[i] <= 1_000_000_000,
    ensures
        r@.len() == if p@.len() >= 1 { p@.len() - 1 } else { 0 },
        forall|i: int| 0 <= i < r@.len() ==> #[trigger] r@[i] == (i + 1) * p@[i + 1],
{
    let mut r: Vec<i64> = Vec::new();
    let mut i: usize = 1;
    while i < p.len()
        invariant
            1 <= i,
            i <= if p@.len() >= 1 { p@.len() as int } else { 1 },
            p@.len() <= 9,
            forall|j: int| 0 <= j < p@.len() ==> -1_000_000_000 <= #[trigger] p@[j] <= 1_000_000_000,
            r@.len() == i - 1,
            forall|j: int| 0 <= j < r@.len() ==> #[trigger] r@[j] == (j + 1) * p@[j + 1],
        decreases p@.len() - i,
    {
        let c = p[i];
        assert(-9_000_000_000 <= (i as int) * c <= 9_000_000_000) by (nonlinear_arith)
            requires
                0 <= i <= 9,
                -1_000_000_000 <= c <= 1_000_000_000,
        ;
        r.push((i as i64) * c);
        i = i + 1;
    }
    r
}

/// The derivative identity of the Hermite polynomials: `H_n' = 2n H_{n-1}`
/// for every order `n >= 1`.
pub proof fn lemma_derivative_identity(n: nat, i: nat)
    requires
        n >= 1,
    ensures
        derivative_coeff(n, i) == 2 * n * hermite_coeff((n - 1) as nat, i),
    decreases n,
{
    if n == 1 {
        assert(hermite_coeff(0, i) == if i == 0 { 1int } else { 0int });
        assert(hermite_coeff(1, i + 1) == if i == 0 { 2int } else { 0int });
    } else if n == 2 {
        assert(hermite_coeff(0, i + 1) == 0);
        assert(hermite_coeff(1, i) == if i == 1 { 2int } else { 0int });
        assert(hermite_coeff(2, i + 1) == 2 * hermite_coeff(1, i) - 2 * hermite_coeff(0, i + 1));
    } else {
        let n1 = (n - 1) as nat;
        let n2 = (n - 2) as nat;
        let n3 = (n - 3) as nat;
        let a = hermite_coeff(n1, i);
        let b = if i >= 1 { hermite_coeff(n2, (i - 1) as nat) } else { 0 };
        let d = hermite_coeff(n3, i);
        let e = hermite_coeff(n2, i + 1);
        assert(hermite_coeff(n, i + 1) == 2 * a - 2 * (n - 1) * e);
        assert(a == 2 * b - 2 * (n - 2) * d);
        if i >= 1 {
            lemma_derivative_identity(n1, (i - 1) as nat);
            assert((i - 1 + 1) as nat == i);
        }
        assert(i * a == 2 * (n - 1) * b);
        lemma_derivative_identity(n2, i);
        assert((i + 1) * e == 2 * (n - 2) * d);
        let nn = n as int;
        let ii = i as int;
        assert((ii + 1) * (2 * a - 2 * (nn - 1) * e) == 2 * nn * a) by (nonlinear_arith)
            requires
                ii * a == 2 * (nn - 1) * b,
                (ii + 1) * e == 2 * (nn - 2) * d,
                a == 2 * b - 2 * (nn - 2) * d,
        ;
    }
}

/// Physicists' Hermite polynomials, given by their integer coefficients so
/// that callers evaluate them and their derivatives at any point.
pub struct Hermite;

impl Hermite {
    /// The coefficients of `H_n`, lowest power first; orders above
    /// `MAX_ORDER` are not supported.
    pub fn coefficients(n: usize) -> (r: Result<Vec<i64>, VmcError>)
        ensures
            n <= MAX_ORDER <==> r is Ok,
            n > MAX_ORDER ==> r == Err::<Vec<i64>, VmcError>(VmcError::UnsupportedOrbitalOrder),
            r is Ok ==> r->Ok_0@.len() == n + 1,
            r is Ok ==> forall|i: int|
                0 <= i <= n ==> #[trigger] r->Ok_0@[i] == hermite_coeff(n as nat, i as nat),
    {
        if n > MAX_ORDER {
            return Err(VmcError::UnsupportedOrbitalOrder);
        }
        if n == 0 {
            return Ok(vec![1i64]);
        }
        let mut prev: Vec<i64> = vec![1i64];
        let mut cur: Vec<i64> = vec![0i64, 2i64];
        assert(forall|i: int| 0 <= i <= 1 ==> #[trigger] cur@[i] == hermite_coeff(1, i as nat));
        let mut k: usize = 1;
        while k < n
            invariant
                1 <= k <= n,
                n <= MAX_ORDER,
                prev@.len() == k,
                cur@.len() == k + 1,
                forall|i: int| 0 <= i < k ==> #[trigger] prev@[i] == hermite_coeff((k - 1) as nat, i as nat),
                forall|i: int| 0 <= i <= k ==> #[trigger] cur@[i] == hermite_coeff(k as nat, i as nat),
            decreases n - k,
        {
            proof {
                lemma_bound_small(k as nat);
                lemma_bound_small((k - 1) as nat);
            }
            let mut next: Vec<i64> = Vec::new();
            let mut i: usize = 0;
            while i <= k + 1
                invariant
                    1 <= k < n,
                    n <= MAX_ORDER,
                    i <= k + 2,
                    prev@.len() == k,
                    cur@.len() == k + 1,
                    next@.len() == i,
                    coeff_bound(k as nat) <= 6512,
                    coeff_bound((k - 1) as nat) <= 6512,
                    forall|j: int| 0 <= j < k ==> #[trigger] prev@[j] == hermite_coeff((k - 1) as nat, j as nat),
                    forall|j: int| 0 <= j <= k ==> #[trigger] cur@[j] == hermite_coeff(k as nat, j as nat),
                    forall|j: int| 0 <= j < i ==> #[trigger] next@[j] == hermite_coeff((k + 1) as nat, j as nat),
                decreases k + 2 - i,
            {
                proof {
                    lemma_coeff_bounded(k as nat, (if i >= 1 { i - 1 } else { 0 }) as nat);
                    lemma_coeff_bounded((k - 1) as nat, i as nat);
                    if i >= k {
                        lemma_coeff_above_degree((k - 1) as nat, i as nat);
                    }
                }
                let up: i64 = if i >= 1 { 2 * cur[i - 1] } else { 0 };
                proof {
                    assert(-6512 <= hermite_coeff((k - 1) as nat, i as nat) <= 6512);
                    if i < k {
                        let c = prev@[i as int] as int;
                        let kk = k as int;
                        assert(-2 * 7 * 6512 <= 2 * kk * c <= 2 * 7 * 6512) by (nonlinear_arith)
                            requires
                                0 <= kk <= 7,
                                -6512 <= c <= 6512,
                        ;
                    }
                }
                let down: i64 = if i < k { 2 * (k as i64) * prev[i] } else { 0 };
                proof {
                    let kn = k as nat;
                    let c_prev = hermite_coeff((k - 1) as nat, i as nat);
                    assert(down == 2 * (k as int) * c_prev);
                    assert(hermite_coeff(kn + 1, i as nat) == (if i >= 1 {
                        2 * hermite_coeff(kn, (i - 1) as nat)
                    } else {
                        0
                    }) - 2 * (k as int) * c_prev);
                }
                next.push(up - down);
                i = i + 1;
            }
            prev = cur;
            cur = next;
            k = k + 1;
        }
        Ok(cur)
    }

    /// The coefficients of the derivative `H_n'`, lowest power first.
    pub fn derivative_coefficients(n: usize) -> (r: Result<Vec<i64>, VmcError>)
        ensures
            n <= MAX_ORDER <==> r is Ok,
            n > MAX_ORDER ==> r == Err::<Vec<i64>, VmcError>(VmcError::UnsupportedOrbitalOrder),
            r is Ok ==> r->Ok_0@.len() == n,
            r is Ok ==> forall|i: int|
                0 <= i < n ==> #[trigger] r->Ok_0@[i] == derivative_coeff(n as nat, i as nat),
            r is Ok ==> forall|i: int|
                0 <= i < n ==> #[trigger] r->Ok_0@[i] == 2 * n * hermite_coeff(
                    (n - 1) as nat,
                    i as nat,
                ),
    {
        let c = Self::coefficients(n)?;
        proof {
            lemma_bound_small(n as nat);
            assert forall|i: int| 0 <= i < c@.len() implies -1_000_000_000 <= #[trigger] c@[i]
                <= 1_000_000_000 by {
                lemma_coeff_bounded(n as nat, i as nat);
            }
        }
        let d = differentiate(&c);
        proof {
            assert forall|i: int| 0 <= i < n implies #[trigger] d@[i] == 2 * n * hermite_coeff(
                (n - 1) as nat,
                i as nat,
            ) by {
                lemma_derivative_identity(n as nat, i as nat);
            }
        }
        Ok(d)
    }

    /// The coefficients of the second derivative `H_n''`, lowest power first.
    pub fn second_derivative_coefficients(n: usize) -> (r: Result<Vec<i64>, VmcError>)
        ensures
            n <= MAX_ORDER <==> r is Ok,
            n > MAX_ORDER ==> r == Err::<Vec<i64>, VmcError>(VmcError::UnsupportedOrbitalOrder),
            r is Ok ==> r->Ok_0@.len() == if n >= 1 { n - 1 } else { 0 },
            r is Ok ==> forall|i: int|
                0 <= i < r->Ok_0@.len() ==> #[trigger] r->Ok_0@[i] == second_derivative_coeff(
                    n as nat,
                    i as nat,
                ),
    {
        let d = Self::derivative_coefficients(n)?;
        proof {
            lemma_bound_small(n as nat);
            assert forall|i: int| 0 <= i < d@.len() implies -1_000_000_000 <= #[trigger] d@[i]
                <= 1_000_000_000 by {
                lemma_coeff_bounded(n as nat, (i + 1) as nat);
                let c = hermite_coeff(n as nat, (i + 1) as nat);
                assert(-9 * 6512 <= (i + 1) * c <= 9 * 6512) by (nonlinear_arith)
                    requires
                        0 <= i < 8,
                        -6512 <= c <= 6512,
                ;
            }
        }
        let dd = differentiate(&d);
        proof {
            assert forall|i: int| 0 <= i < dd@.len() implies #[trigger] dd@[i]
                == second_derivative_coeff(n as nat, i as nat) by {
                let c = hermite_coeff(n as nat, (i + 2) as nat);
                assert((i + 1) * ((i + 2) * c) == (i + 1) * (i + 2) * c) by (nonlinear_arith);
            }
        }
        Ok(dd)
    }
}

} // verus!
