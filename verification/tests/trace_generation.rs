use fib_air::field::NativeField;
use fib_air::generate_fibonacci_trace;
use p3_matrix::Matrix;

const FIELDS: [NativeField; 2] = [NativeField::BabyBear, NativeField::Mersenne31];

/// The recurrence in plain integer arithmetic, reduced at every step.
fn terms_mod(modulus: u64, count: usize) -> Vec<u32> {
    let mut terms = Vec::with_capacity(count);
    let (mut a, mut b) = (0u64, 1u64);
    for _ in 0..count {
        terms.push(a as u32);
        let c = (a + b) % modulus;
        a = b;
        b = c;
    }
    terms
}

#[test]
fn reference_trace_of_eight_steps() {
    for field in FIELDS {
        let trace = generate_fibonacci_trace(field, 8);
        assert_eq!(trace.width(), 2);
        assert_eq!(trace.height(), 8);
        assert_eq!(trace.values, vec![0, 1, 1, 1, 1, 2, 2, 3, 3, 5, 5, 8, 8, 13, 13, 21]);
    }
}

#[test]
fn minimal_trace_of_two_steps() {
    for field in FIELDS {
        let trace = generate_fibonacci_trace(field, 2);
        assert_eq!(trace.width(), 2);
        assert_eq!(trace.height(), 2);
        assert_eq!(trace.values, vec![0, 1, 1, 1]);
    }
}

#[test]
fn trace_of_one_step_is_the_seed_row() {
    for field in FIELDS {
        let trace = generate_fibonacci_trace(field, 1);
        assert_eq!(trace.width(), 2);
        assert_eq!(trace.height(), 1);
        assert_eq!(trace.values, vec![0, 1]);
    }
}

#[test]
fn trace_of_no_steps_is_empty() {
    for field in FIELDS {
        let trace = generate_fibonacci_trace(field, 0);
        assert_eq!(trace.width(), 2);
        assert_eq!(trace.height(), 0);
        assert!(trace.values.is_empty());
    }
}

#[test]
fn rows_follow_the_recurrence() {
    for field in FIELDS {
        let trace = generate_fibonacci_trace(field, 16);
        assert_eq!((trace.get(0, 0), trace.get(0, 1)), (0, 1));
        for row in 1..16 {
            assert_eq!(trace.get(row, 0), trace.get(row - 1, 1));
            assert_eq!(trace.get(row, 1), trace.get(row - 1, 0) + trace.get(row - 1, 1));
        }
        assert_eq!(trace.get(15, 1), 987);
    }
}

#[test]
fn terms_wrap_modulo_the_baby_bear_prime() {
    let trace = generate_fibonacci_trace(NativeField::BabyBear, 64);
    assert_eq!(trace.height(), 64);
    // The 46th term, 1836311903, is the last below the prime.
    assert_eq!(trace.get(46, 0), 1836311903);
    // The 47th, 2971215073, is the first to wrap.
    assert_eq!(trace.get(46, 1), 957949152);
    assert_eq!(trace.get(47, 0), 957949152);
    assert_eq!(trace.get(47, 1), (1836311903u64 + 957949152 - 2013265921) as u32);
}

#[test]
fn terms_wrap_modulo_the_mersenne_prime() {
    let trace = generate_fibonacci_trace(NativeField::Mersenne31, 64);
    assert_eq!(trace.height(), 64);
    assert_eq!(trace.get(46, 0), 1836311903);
    assert_eq!(trace.get(46, 1), 823731426);
    assert_eq!(trace.get(47, 0), 823731426);
    assert_eq!(trace.get(47, 1), (1836311903u64 + 823731426 - 2147483647) as u32);
}

#[test]
fn long_trace_matches_integer_arithmetic() {
    for field in FIELDS {
        let steps = 1000;
        let trace = generate_fibonacci_trace(field, steps);
        let terms = terms_mod(field.modulus() as u64, steps + 1);
        assert_eq!(trace.height(), steps);
        for row in 0..steps {
            assert_eq!(trace.get(row, 0), terms[row]);
            assert_eq!(trace.get(row, 1), terms[row + 1]);
            assert!(field.contains(trace.get(row, 0)));
            assert!(field.contains(trace.get(row, 1)));
        }
    }
}

#[test]
fn the_two_fields_part_ways_once_terms_wrap() {
    let baby_bear = generate_fibonacci_trace(NativeField::BabyBear, 64);
    let mersenne = generate_fibonacci_trace(NativeField::Mersenne31, 64);
    assert_eq!(baby_bear.values[..2 * 46 + 1], mersenne.values[..2 * 46 + 1]);
    assert_ne!(baby_bear.get(46, 1), mersenne.get(46, 1));
}

#[test]
fn generation_is_deterministic() {
    for field in FIELDS {
        for steps in [0usize, 1, 2, 8, 64, 257] {
            let first = generate_fibonacci_trace(field, steps);
            let second = generate_fibonacci_trace(field, steps);
            assert_eq!(first, second);
            assert_eq!(first.values, second.values);
            assert_eq!(first.width, second.width);
        }
    }
}
