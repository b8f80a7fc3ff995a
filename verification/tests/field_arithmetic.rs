use fib_air::field::{NativeField, BABY_BEAR_MODULUS, MERSENNE_31_MODULUS};

const FIELDS: [NativeField; 2] = [NativeField::BabyBear, NativeField::Mersenne31];

#[test]
fn moduli_are_the_two_primes() {
    assert_eq!(BABY_BEAR_MODULUS, (1u32 << 31) - (1u32 << 27) + 1);
    assert_eq!(MERSENNE_31_MODULUS, (1u32 << 31) - 1);
    assert_eq!(NativeField::BabyBear.modulus(), 2013265921);
    assert_eq!(NativeField::Mersenne31.modulus(), 2147483647);
}

#[test]
fn canonical_representatives_lie_below_the_modulus() {
    for field in FIELDS {
        let p = field.modulus();
        assert!(field.contains(0));
        assert!(field.contains(p - 1));
        assert!(!field.contains(p));
        assert!(!field.contains(u32::MAX));
    }
}

#[test]
fn sum_of_small_elements_is_the_integer_sum() {
    for field in FIELDS {
        assert_eq!(field.sum(0, 0), 0);
        assert_eq!(field.sum(0, 1), 1);
        assert_eq!(field.sum(13, 8), 21);
        assert_eq!(field.sum(1_000_000, 2_000_000), 3_000_000);
    }
}

#[test]
fn sum_wraps_at_the_modulus() {
    for field in FIELDS {
        let p = field.modulus();
        assert_eq!(field.sum(p - 1, 1), 0);
        assert_eq!(field.sum(p - 1, 2), 1);
        assert_eq!(field.sum(p - 1, p - 1), p - 2);
        assert_eq!(field.sum(1, p - 1), 0);
    }
    assert_eq!(NativeField::BabyBear.sum(1 << 30, 1 << 30), (1u32 << 31) - 2013265921);
    assert_eq!(NativeField::Mersenne31.sum(1 << 30, 1 << 30), 1);
}

#[test]
fn sum_agrees_with_integer_arithmetic() {
    for field in FIELDS {
        let p = field.modulus() as u64;
        // A fixed walk through the field, by a linear congruential step.
        let mut state = 0x9e3779b97f4a7c15u64;
        for _ in 0..10_000 {
            state = state.wrapping_mul(6364136223846793005).wrapping_add(1442695040888963407);
            let a = (state >> 16) % p;
            state = state.wrapping_mul(6364136223846793005).wrapping_add(1442695040888963407);
            let b = (state >> 16) % p;
            assert_eq!(field.sum(a as u32, b as u32) as u64, (a + b) % p);
        }
    }
}

#[test]
fn sum_is_commutative_and_has_zero_as_its_neutral_element() {
    for field in FIELDS {
        let p = field.modulus();
        for a in [0, 1, 2, 21, 1 << 30, p / 2, p / 2 + 1, p - 2, p - 1] {
            assert_eq!(field.sum(a, 0), a);
            assert_eq!(field.sum(0, a), a);
            for b in [0, 1, 99, 1 << 30, p / 2, p - 1] {
                assert_eq!(field.sum(a, b), field.sum(b, a));
                assert!(field.contains(field.sum(a, b)));
            }
        }
    }
}
