use fastfield::reduce::{bit_reduce_once, reduce_by_p};
use fastfield::{FieldError, FromRng, Group, Share, FE, PRIME_ORDER};

const P: u64 = PRIME_ORDER;

fn mod_pow(base: u64, mut e: u64) -> u64 {
    let m = P as u128;
    let mut b = base as u128 % m;
    let mut r: u128 = 1;
    while e > 0 {
        if e & 1 == 1 {
            r = r * b % m;
        }
        b = b * b % m;
        e >>= 1;
    }
    r as u64
}

fn mod_mul(a: u64, b: u64) -> u64 {
    ((a as u128) * (b as u128) % (P as u128)) as u64
}

#[test]
fn prime_matches_parameters() {
    assert_eq!(P, (1u64 << 42) - (1u64 << 30) - 1);
}

#[test]
fn new_of_prime_is_zero() {
    assert_eq!(FE::new(P).value(), 0);
}

#[test]
fn new_reduces_large_values() {
    assert_eq!(FE::new(u64::MAX).value(), u64::MAX % P);
    assert_eq!(FE::new(2 * P + 5).value(), 5);
    assert_eq!(FE::new(P - 1).value(), P - 1);
}

#[test]
fn divide_by_itself() {
    // 2^42 - 2^30 - 1 = 229 * 19200754451 is not prime, so a / a is
    // a^(P - 1), which is 1 for a = 1 and a = P - 1 but not for a = 5.
    assert_eq!(P, 229 * 19200754451);
    assert_eq!((FE::from(1u8) / FE::from(1u8)).value(), 1);
    assert_eq!((FE::new(P - 1) / FE::new(P - 1)).value(), 1);
    let q = (FE::from(5u8) / FE::from(5u8)).value();
    assert_eq!(q, mod_pow(5, P - 1));
    assert_ne!(q, 1);
}

#[test]
fn from_reduced_bounds() {
    assert!(FE::from_reduced(P).is_none());
    assert_eq!(FE::from_reduced(P - 1).unwrap().value(), P - 1);
    assert_eq!(FE::from_reduced(0).unwrap().value(), 0);
    assert!(FE::from_reduced(u64::MAX).is_none());
}

#[test]
fn share_of_zero_adds_to_zero() {
    let (s0, s1) = FE::from(0u8).share();
    assert_eq!((s0.value() + s1.value()) % P, 0);
    assert_eq!((s0 + s1).value(), 0);
}

#[test]
fn share_adds_up_to_secret() {
    for v in [0u64, 1, 12345, P - 1] {
        let secret = FE::from_reduced(v).unwrap();
        let (s0, s1) = secret.share();
        assert_eq!((s0 + s1).value(), v);
    }
}

#[test]
fn shares_differ_between_calls() {
    let secret = FE::from(7u8);
    let firsts: Vec<u64> = (0..16).map(|_| secret.share().0.value()).collect();
    let mut distinct = firsts.clone();
    distinct.sort();
    distinct.dedup();
    assert!(distinct.len() > 1);
}

#[test]
fn share_with_gives_difference() {
    let (s0, s1) = FE::from(10u8).share_with(FE::from(3u8));
    assert_eq!(s0.value(), 3);
    assert_eq!(s1.value(), 7);
    let (_, t1) = FE::from(3u8).share_with(FE::from(10u8));
    assert_eq!(t1.value(), P - 7);
}

#[test]
fn share_random_in_range() {
    let ((a, b), _) = FE::share_random();
    assert!(a.value() < P && b.value() < P);
    assert!(FE::random().0.value() < P);
}

#[test]
fn unbiased_rejects_out_of_range() {
    assert_eq!(FE::from_u64_unbiased(5).unwrap().value(), 5);
    assert_eq!(FE::from_u64_unbiased((1u64 << 42) + 9).unwrap().value(), 9);
    assert!(FE::from_u64_unbiased(P).is_none());
    assert!(FE::from_u64_unbiased((1u64 << 42) - 1).is_none());
    assert!(FE::from_u64_unbiased(u64::MAX).is_none());
}

#[test]
fn unbiased_acceptance_rate() {
    // Step through the low 42 bits with a stride coprime to 2^42.
    let mut x: u64 = 0x1234_5678_9abc;
    let mut accepted: u64 = 0;
    let total: u64 = 1 << 20;
    let mut rejected_bits_hit = 0u64;
    for _ in 0..total {
        x = x.wrapping_mul(6364136223846793005).wrapping_add(1442695040888963407);
        match FE::from_u64_unbiased(x) {
            Some(e) => {
                assert!(e.value() < P);
                accepted += 1;
            }
            None => rejected_bits_hit += 1,
        }
    }
    let expected = (P as f64) / ((1u64 << 42) as f64);
    let rate = accepted as f64 / total as f64;
    assert!((rate - expected).abs() < 0.001);
    assert_eq!(accepted + rejected_bits_hit, total);
}

#[test]
fn field_axioms_on_values() {
    let vals = [0u64, 1, 2, 12345678, P - 1, P - 2, u64::MAX, 1u64 << 50];
    let zero = <FE as Group>::zero();
    let one = <FE as Group>::one();
    for &x in &vals {
        let a = FE::new(x);
        assert_eq!(a + zero, a);
        assert_eq!((a + (-a)).value(), 0);
        assert_eq!(a * one, a);
        for &y in &vals {
            let b = FE::new(y);
            assert_eq!(a + b, b + a);
            assert_eq!(a * b, b * a);
            for &z in &vals[..4] {
                let c = FE::new(z);
                assert_eq!((a + b) + c, a + (b + c));
                assert_eq!((a * b) * c, a * (b * c));
                assert_eq!(a * (b + c), a * b + a * c);
            }
        }
    }
}

#[test]
fn arithmetic_exact_values() {
    let a = FE::new(P - 1);
    let b = FE::new(2);
    assert_eq!((a + b).value(), 1);
    assert_eq!((b - a).value(), 3);
    assert_eq!((a * a).value(), 1);
    assert_eq!((a * b).value(), P - 2);
    assert_eq!((-FE::from(1u8)).value(), P - 1);
    assert_eq!((-FE::new(0)).value(), 0);
    let big = FE::new(u64::MAX);
    let expect = ((u64::MAX % P) as u128 * (u64::MAX % P) as u128 % P as u128) as u64;
    assert_eq!((big * big).value(), expect);
    assert_eq!((-big).value(), P - u64::MAX % P);
}

#[test]
fn reciprocal_inverts() {
    for x in [1u64, 2, 3, 5, 12345, P - 1, P - 2, u64::MAX] {
        let a = FE::new(x);
        assert_eq!(a.recip().value(), mod_pow(a.value(), P - 2));
        assert_eq!((a * a.recip()).value(), mod_pow(a.value(), P - 1));
    }
    assert_eq!((FE::new(P - 1) * FE::new(P - 1).recip()).value(), 1);
    assert_eq!(FE::from(1u8).recip().value(), 1);
}

#[test]
fn division_consistency() {
    for (x, y) in [(7u64, 3u64), (0, 5), (P - 1, 2), (u64::MAX, 1u64 << 40)] {
        let a = FE::new(x);
        let b = FE::new(y);
        let expect = mod_mul(a.value(), mod_pow(b.value(), P - 1));
        assert_eq!(((a / b) * b).value(), expect);
    }
}

#[test]
fn remainder_is_difference_with_quotient() {
    let a = FE::from(10u8);
    let b = FE::from(5u8);
    let q = mod_mul(10, mod_pow(5, P - 2));
    assert_eq!((a % b).value(), (10 + P - q) % P);
    let one = FE::from(1u8);
    assert_eq!((FE::from(10u8) % one).value(), 0);
}

#[test]
fn value_idempotent() {
    for x in [0u64, 3, P, P + 4, u64::MAX] {
        let a = FE::new(x);
        assert_eq!(FE::new(a.value()).value(), a.value());
    }
}

#[test]
fn equality_by_residue() {
    assert_eq!(FE::new(3), FE::new(P + 3));
    assert_ne!(FE::new(3), FE::new(4));
    assert!(FE::new(P).is_zero());
    assert!(!FE::new(1).is_zero());
}

#[test]
fn conversions() {
    assert_eq!(FE::from(200u8).value(), 200);
    assert_eq!(FE::from(60000u16).value(), 60000);
    assert_eq!(FE::from(u32::MAX).value(), u32::MAX as u64);
    assert_eq!(u64::from(FE::new(P + 11)), 11);
    assert_eq!(FE::default().value(), 0);
}

#[test]
fn assign_operators() {
    let mut a = FE::from(10u8);
    a += FE::from(5u8);
    assert_eq!(a.value(), 15);
    a -= FE::from(20u8);
    assert_eq!(a.value(), P - 5);
    a *= FE::from(2u8);
    assert_eq!(a.value(), P - 10);
    a /= FE::from(2u8);
    assert_eq!(a.value(), mod_mul(P - 10, mod_pow(2, P - 2)));
    let mut b = FE::from(10u8);
    b %= FE::from(1u8);
    assert_eq!(b.value(), 0);
}

#[test]
fn group_operations() {
    let mut a = <FE as Group>::one();
    Group::add(&mut a, &FE::from(4u8));
    assert_eq!(a.value(), 5);
    Group::mul(&mut a, &FE::from(3u8));
    assert_eq!(a.value(), 15);
    Group::sub(&mut a, &FE::from(16u8));
    assert_eq!(a.value(), P - 1);
    a.negate();
    assert_eq!(a.value(), 1);
    Group::add_lazy(&mut a, &FE::from(1u8));
    Group::mul_lazy(&mut a, &FE::from(7u8));
    a.reduce();
    assert_eq!(a.value(), 14);
    assert_eq!(<FE as Group>::zero().value(), 0);
}

#[test]
fn randomize_in_range() {
    let mut a = FE::from(3u8);
    a.randomize();
    assert!(a.value() < P);
    let mut rng = rand::thread_rng();
    let mut b = FE::default();
    b.from_rng(&mut rng);
    assert!(b.value() < P);
}

#[test]
fn parse_radix() {
    assert_eq!(FE::from_str_radix("ff", 16).unwrap().value(), 255);
    assert_eq!(FE::from_str_radix("123", 10).unwrap().value(), 123);
    assert_eq!(FE::from_str_radix("zz", 10), Err(FieldError::InvalidDigits));
    assert_eq!(FE::from_str_radix("", 10), Err(FieldError::InvalidDigits));
    assert_eq!(FE::from_str_radix(&P.to_string(), 10), Err(FieldError::OutOfRange));
    assert_eq!(FE::from_str_radix(&(P - 1).to_string(), 10).unwrap().value(), P - 1);
    assert_eq!(FE::from_parsed(Some(P)), Err(FieldError::OutOfRange));
    assert_eq!(FE::from_parsed(None), Err(FieldError::InvalidDigits));
    assert_eq!(FE::from_parsed(Some(9)).unwrap().value(), 9);
}

#[test]
fn wire_form() {
    assert_eq!(FE::new(P + 1).to_wire(), 1);
    assert_eq!(FE::from_wire(P), Err(FieldError::InvalidEncoding));
    assert_eq!(FE::from_wire(42).unwrap().value(), 42);
}

#[test]
fn reduction_primitives() {
    assert_eq!(bit_reduce_once(1u64 << 42), (1u64 << 30) + 1);
    assert_eq!(bit_reduce_once(5), 5);
    let once = bit_reduce_once(u64::MAX);
    assert!(once <= 4507996604334078);
    assert!(bit_reduce_once(once) < 2 * P);
    assert_eq!(reduce_by_p(P), 0);
    assert_eq!(reduce_by_p(P - 1), P - 1);
    assert_eq!(reduce_by_p(2 * P - 1), P - 1);
    assert_eq!(reduce_by_p(0), 0);
}

#[test]
fn reference_operators() {
    let a = FE::from(9u8);
    let b = FE::from(4u8);
    assert_eq!((a + &b).value(), 13);
    assert_eq!((a - &b).value(), 5);
    assert_eq!((&b - &a).value(), P - 5);
    assert_eq!((a * &b).value(), 36);
    assert_eq!((a / &FE::from(1u8)).value(), 9);
    assert_eq!((a % &FE::from(1u8)).value(), 0);
    assert_eq!((a / &b).value(), mod_mul(9, mod_pow(4, P - 2)));
}

#[test]
fn parse_signs_and_cases() {
    assert_eq!(FE::from_str_radix("+12", 10).unwrap().value(), 12);
    assert_eq!(FE::from_str_radix("-7", 10), Err(FieldError::InvalidDigits));
    assert_eq!(FE::from_str_radix("+", 10), Err(FieldError::InvalidDigits));
    assert_eq!(FE::from_str_radix("Ff", 16).unwrap().value(), 255);
    assert_eq!(FE::from_str_radix(" 1", 10), Err(FieldError::InvalidDigits));
    assert_eq!(FE::from_str_radix("12", 2), Err(FieldError::InvalidDigits));
    assert_eq!(
        FE::from_str_radix("18446744073709551616", 10),
        Err(FieldError::InvalidDigits)
    );
    assert_eq!(
        FE::from_str_radix("18446744073709551615", 10),
        Err(FieldError::OutOfRange)
    );
}
