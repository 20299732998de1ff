use esoteric_vm::primes::is_fib_prime_or_semiprime_u16;

#[test]
fn allow_list_holds_exactly_fifteen_addresses() {
    let expected: [u16; 15] = [1, 2, 3, 5, 13, 21, 34, 55, 89, 233, 377, 1597, 4181, 17711, 28657];
    let mut found: Vec<u16> = Vec::new();
    for n in 0..=u16::MAX {
        if is_fib_prime_or_semiprime_u16(n) {
            found.push(n);
        }
    }
    assert_eq!(found, expected.to_vec());
}
