//! The allow-list of dot-pointer targets: the 16-bit Fibonacci numbers that
//! are prime or semiprime, and the number 1.

use vstd::prelude::*;

verus! {

/// The allow-listed addresses, in increasing order.
pub open spec fn fib_prime_or_semiprime_list() -> Seq<u16> {
    seq![
        1u16,
        2u16,
        3u16,
        5u16,
        13u16,
        21u16,
        34u16,
        55u16,
        89u16,
        233u16,
        377u16,
        1597u16,
        4181u16,
        17711u16,
        28657u16,
    ]
}

/// Whether `n` is on the allow-list.
pub open spec fn is_allow_listed(n: u16) -> bool {
    fib_prime_or_semiprime_list().contains(n)
}

/// The Fibonacci numbers: 0, 1, 1, 2, 3, 5, 8 and so on.
pub open spec fn fib(k: nat) -> nat
    decreases k,
{
    if k == 0 {
        0
    } else if k == 1 {
        1
    } else {
        fib((k - 2) as nat) + fib((k - 1) as nat)
    }
}

/// Whether `n` is a Fibonacci number.
pub open spec fn is_fibonacci(n: nat) -> bool {
    exists|k: nat| fib(k) == n
}

/// Whether `d` divides `n`.
pub open spec fn divides(d: nat, n: nat) -> bool {
    n % d == 0
}

/// Whether `n` is prime: at least 2 and divided by none of the numbers
/// between 1 and itself.
pub open spec fn is_prime(n: nat) -> bool {
    n >= 2 && forall|d: nat| 2 <= d < n ==> !#[trigger] divides(d, n)
}

/// Whether `n` is the product of the primes `p` and `q`.
pub open spec fn is_product_of_primes(p: nat, q: nat, n: nat) -> bool {
    is_prime(p) && is_prime(q) && p * q == n
}

/// Whether `n` is semiprime: the product of two primes, which may be the
/// same.
pub open spec fn is_semiprime(n: nat) -> bool {
    exists|p: nat, q: nat| #[trigger] is_product_of_primes(p, q, n)
}

/// Checks whether `n` is a Fibonacci number that is also a prime or a
/// semiprime. The number 1 counts as one.
pub fn is_fib_prime_or_semiprime_u16(n: u16) -> (allowed: bool)
    ensures
        allowed == is_allow_listed(n),
        allowed == (is_fibonacci(n as nat) && (n == 1 || is_prime(n as nat) || is_semiprime(
            n as nat,
        ))),
{
    let allowed = n == 1 || n == 2 || n == 3 || n == 5 || n == 13 || n == 21 || n == 34 || n == 55
        || n == 89 || n == 233 || n == 377 || n == 1597 || n == 4181 || n == 17711 || n == 28657;
    proof {
        lemma_allow_list_by_value(n);
        lemma_allow_list_is_what_its_name_says(n);
    }
    allowed
}

/// The allow-list holds these fifteen numbers and no others.
pub proof fn lemma_allow_list_by_value(n: u16)
    ensures
        is_allow_listed(n) <==> (n == 1 || n == 2 || n == 3 || n == 5 || n == 13 || n == 21 || n
            == 34 || n == 55 || n == 89 || n == 233 || n == 377 || n == 1597 || n == 4181 || n
            == 17711 || n == 28657),
{
    let l = fib_prime_or_semiprime_list();
    assert(l[0] == 1 && l[1] == 2 && l[2] == 3 && l[3] == 5 && l[4] == 13 && l[5] == 21 && l[6]
        == 34 && l[7] == 55 && l[8] == 89 && l[9] == 233 && l[10] == 377 && l[11] == 1597 && l[12]
        == 4181 && l[13] == 17711 && l[14] == 28657);
}

/// The allow-list is what its name says: a 16-bit number is on it exactly
/// if it is a Fibonacci number and either prime or semiprime or 1.
pub proof fn lemma_allow_list_is_what_its_name_says(n: u16)
    ensures
        is_allow_listed(n) <==> is_fibonacci(n as nat) && (n == 1 || is_prime(n as nat)
            || is_semiprime(n as nat)),
{
    lemma_allow_list_by_value(n);
    lemma_fib_values();
    if is_allow_listed(n) {
        if n == 2 || n == 3 || n == 5 || n == 13 || n == 89 || n == 233 || n == 1597 || n == 28657 {
            lemma_prime(n as nat);
        } else if n != 1 {
            let (p, q): (nat, nat) = if n == 21 {
                (3, 7)
            } else if n == 34 {
                (2, 17)
            } else if n == 55 {
                (5, 11)
            } else if n == 377 {
                (13, 29)
            } else if n == 4181 {
                (37, 113)
            } else {
                (89, 199)
            };
            lemma_prime(p);
            lemma_prime(q);
            assert(is_product_of_primes(p, q, n as nat));
        }
    } else if is_fibonacci(n as nat) {
        lemma_small_fibonacci_numbers(n as nat);
        if n == 0 {
            assert forall|p: nat, q: nat| !#[trigger] is_product_of_primes(p, q, 0) by {
                assert(p * q == 0 ==> p == 0 || q == 0) by (nonlinear_arith);
            }
        } else {
            lemma_not_prime_nor_semiprime(n as nat);
        }
    }
}

/// The Fibonacci numbers up to the first one that is no 16-bit number.
proof fn lemma_fib_values()
    ensures
        fib(0) == 0,
        fib(1) == 1,
        fib(2) == 1,
        fib(3) == 2,
        fib(4) == 3,
        fib(5) == 5,
        fib(6) == 8,
        fib(7) == 13,
        fib(8) == 21,
        fib(9) == 34,
        fib(10) == 55,
        fib(11) == 89,
        fib(12) == 144,
        fib(13) == 233,
        fib(14) == 377,
        fib(15) == 610,
        fib(16) == 987,
        fib(17) == 1597,
        fib(18) == 2584,
        fib(19) == 4181,
        fib(20) == 6765,
        fib(21) == 10946,
        fib(22) == 17711,
        fib(23) == 28657,
        fib(24) == 46368,
        fib(25) == 75025,
{
    assert(fib(0) == 0 && fib(1) == 1);
    assert(fib(2) == 1);
    assert(fib(3) == 2);
    assert(fib(4) == 3);
    assert(fib(5) == 5);
    assert(fib(6) == 8);
    assert(fib(7) == 13);
    assert(fib(8) == 21);
    assert(fib(9) == 34);
    assert(fib(10) == 55);
    assert(fib(11) == 89);
    assert(fib(12) == 144);
    assert(fib(13) == 233);
    assert(fib(14) == 377);
    assert(fib(15) == 610);
    assert(fib(16) == 987);
    assert(fib(17) == 1597);
    assert(fib(18) == 2584);
    assert(fib(19) == 4181);
    assert(fib(20) == 6765);
    assert(fib(21) == 10946);
    assert(fib(22) == 17711);
    assert(fib(23) == 28657);
    assert(fib(24) == 46368);
    assert(fib(25) == 75025);
}

/// From the 24th on, the Fibonacci numbers are no 16-bit numbers.
proof fn lemma_fib_grows(k: nat)
    requires
        k >= 24,
    ensures
        fib(k) >= 46368,
        k >= 25 ==> fib(k) >= 75025,
    decreases k,
{
    lemma_fib_values();
    if k >= 26 {
        lemma_fib_grows((k - 1) as nat);
        lemma_fib_grows((k - 2) as nat);
    }
}

/// The Fibonacci numbers below 65536.
proof fn lemma_small_fibonacci_numbers(n: nat)
    requires
        is_fibonacci(n),
        n < 0x1_0000,
    ensures
        n == 0 || n == 1 || n == 2 || n == 3 || n == 5 || n == 8 || n == 13 || n == 21 || n == 34
            || n == 55 || n == 89 || n == 144 || n == 233 || n == 377 || n == 610 || n == 987 || n
            == 1597 || n == 2584 || n == 4181 || n == 6765 || n == 10946 || n == 17711 || n
            == 28657 || n == 46368,
{
    let k = choose|k: nat| fib(k) == n;
    lemma_fib_values();
    if k >= 25 {
        lemma_fib_grows(k);
    }
}

/// None of the primes that the allow-list is made of has a divisor below
/// 170 other than 1 and itself.
proof fn lemma_no_small_divisor(n: u32, d: u32)
    by (bit_vector)
    requires
        n == 2 || n == 3 || n == 5 || n == 7 || n == 11 || n == 13 || n == 17 || n == 29 || n == 37
            || n == 89 || n == 113 || n == 199 || n == 233 || n == 1597 || n == 28657,
        2 <= d < 170,
        d < n,
    ensures
        n % d != 0,
{
}

/// The primes that the allow-list is made of are prime.
proof fn lemma_prime(n: nat)
    requires
        n == 2 || n == 3 || n == 5 || n == 7 || n == 11 || n == 13 || n == 17 || n == 29 || n == 37
            || n == 89 || n == 113 || n == 199 || n == 233 || n == 1597 || n == 28657,
    ensures
        is_prime(n),
{
    assert forall|d: nat| 2 <= d < n implies !#[trigger] divides(d, n) by {
        if divides(d, n) {
            if d < 170 {
                lemma_no_small_divisor(n as u32, d as u32);
            } else {
                // the other factor is a divisor below 170
                let e = n / d;
                assert(n == d * e) by (nonlinear_arith)
                    requires
                        n % d == 0,
                        e == n / d,
                        d > 0,
                ;
                assert(2 <= e < 170 && e < n) by (nonlinear_arith)
                    requires
                        n == d * e,
                        170 <= d < n,
                        n <= 28657,
                ;
                assert(n % e == 0) by (nonlinear_arith)
                    requires
                        n == d * e,
                        e > 0,
                ;
                lemma_no_small_divisor(n as u32, e as u32);
            }
        }
    }
}

/// In any way of writing one of these Fibonacci numbers as a product of a
/// number up to 255 and another, one of the two has a divisor between 1 and
/// itself.
proof fn lemma_some_factor_is_composite(n: u32, a: u32)
    by (bit_vector)
    requires
        n == 8 || n == 144 || n == 610 || n == 987 || n == 2584 || n == 6765 || n == 10946 || n
            == 46368,
        2 <= a <= 255,
        n % a == 0,
    ensures
        (a % 2 == 0 && 2 < a) || (a % 3 == 0 && 3 < a) || (a % 5 == 0 && 5 < a) || (a % 7 == 0 && 7
            < a) || (a % 11 == 0 && 11 < a) || (a % 13 == 0 && 13 < a) || (a % 17 == 0 && 17 < a)
            || ((n / a) % 2 == 0 && 2 < n / a) || ((n / a) % 3 == 0 && 3 < n / a) || ((n / a) % 5
            == 0 && 5 < n / a) || ((n / a) % 7 == 0 && 7 < n / a) || ((n / a) % 11 == 0 && 11 < n
            / a) || ((n / a) % 13 == 0 && 13 < n / a) || ((n / a) % 17 == 0 && 17 < n / a),
{
}

/// A number with a divisor between 1 and itself is not prime.
proof fn lemma_composite(n: nat, d: nat)
    requires
        2 <= d < n,
        n % d == 0,
    ensures
        !is_prime(n),
{
    assert(divides(d, n));
}

/// The Fibonacci numbers below 65536 that are not on the allow-list, 0
/// aside, are neither prime nor semiprime.
proof fn lemma_not_prime_nor_semiprime(n: nat)
    requires
        n == 8 || n == 144 || n == 610 || n == 987 || n == 2584 || n == 6765 || n == 10946 || n
            == 46368,
    ensures
        !is_prime(n),
        !is_semiprime(n),
{
    if n == 987 || n == 6765 {
        lemma_composite(n, 3);
    } else {
        lemma_composite(n, 2);
    }
    assert forall|p: nat, q: nat| !#[trigger] is_product_of_primes(p, q, n) by {
        if is_product_of_primes(p, q, n) {
            let (a, b) = if p <= q {
                (p, q)
            } else {
                (q, p)
            };
            assert(a * b == n) by (nonlinear_arith)
                requires
                    p * q == n,
                    (a == p && b == q) || (a == q && b == p),
            ;
            assert(a <= 255) by (nonlinear_arith)
                requires
                    a * b == n,
                    a <= b,
                    n < 0x1_0000,
            ;
            assert(n % a == 0 && n / a == b) by (nonlinear_arith)
                requires
                    a * b == n,
                    a >= 2,
            ;
            lemma_some_factor_is_composite(n as u32, a as u32);
            if a % 2 == 0 && 2 < a {
                lemma_composite(a, 2);
            } else if a % 3 == 0 && 3 < a {
                lemma_composite(a, 3);
            } else if a % 5 == 0 && 5 < a {
                lemma_composite(a, 5);
            } else if a % 7 == 0 && 7 < a {
                lemma_composite(a, 7);
            } else if a % 11 == 0 && 11 < a {
                lemma_composite(a, 11);
            } else if a % 13 == 0 && 13 < a {
                lemma_composite(a, 13);
            } else if a % 17 == 0 && 17 < a {
                lemma_composite(a, 17);
            } else if b % 2 == 0 && 2 < b {
                lemma_composite(b, 2);
            } else if b % 3 == 0 && 3 < b {
                lemma_composite(b, 3);
            } else if b % 5 == 0 && 5 < b {
                lemma_composite(b, 5);
            } else if b % 7 == 0 && 7 < b {
                lemma_composite(b, 7);
            } else if b % 11 == 0 && 11 < b {
                lemma_composite(b, 11);
            } else if b % 13 == 0 && 13 < b {
                lemma_composite(b, 13);
            } else {
                lemma_composite(b, 17);
            }
        }
    }
}

} // verus!
