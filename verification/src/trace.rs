//! The trace generator: the execution trace of the Fibonacci recurrence.

use crate::field::NativeField;
use crate::matrix::{matrix_height, matrix_values, matrix_width, new_matrix};
use p3_matrix::dense::RowMajorMatrix;
use vstd::arithmetic::div_mod::{lemma_add_mod_noop, lemma_small_mod};
use vstd::prelude::*;

verus! {

/// The Fibonacci numbers over the naturals: 0, 1, 1, 2, 3, 5, ...
pub open spec fn fib(n: nat) -> nat
    decreases n,
{
    if n == 0 {
        0
    } else if n == 1 {
        1
    } else {
        fib((n - 1) as nat) + fib((n - 2) as nat)
    }
}

/// The `n`-th term of the recurrence in the arithmetic of `field`, as a
/// canonical representative.
pub open spec fn fibonacci_term(field: NativeField, n: nat) -> u32 {
    (fib(n) % field.spec_modulus()) as u32
}

/// The cells of the trace of `num_steps` rows, in row-major order: row `i`
/// holds the terms `i` and `i + 1`.
pub open spec fn fibonacci_trace_values(field: NativeField, num_steps: nat) -> Seq<u32> {
    Seq::new(2 * num_steps, |k: int| fibonacci_term(field, (k / 2 + k % 2) as nat))
}

/// Whether `trace` is the trace of `num_steps` rows over `field`: width 2,
/// and the cells of the recurrence in row-major order.
pub open spec fn is_fibonacci_trace(
    trace: RowMajorMatrix<u32>,
    field: NativeField,
    num_steps: usize,
) -> bool {
    &&& matrix_width(trace) == 2
    &&& matrix_values(trace) == fibonacci_trace_values(field, num_steps as nat)
}

/// Each term is the field's sum of the two before it.
pub proof fn lemma_term_step(field: NativeField, n: nat)
    ensures
        fibonacci_term(field, n + 2) as nat == field.spec_sum(
            fibonacci_term(field, n),
            fibonacci_term(field, n + 1),
        ),
        field.spec_contains(fibonacci_term(field, n)),
{
    let p = field.spec_modulus() as int;
    lemma_add_mod_noop(fib(n) as int, fib(n + 1) as int, p);
    assert(fib(n + 2) == fib(n + 1) + fib(n));
}

/// Generates the trace of the recurrence: `num_steps` rows of width 2 that
/// start at `(0, 1)`, each row `(a, b)` followed by `(b, a + b)` in the
/// field's arithmetic.
pub fn generate_fibonacci_trace(
    field: NativeField,
    num_steps: usize,
) -> (trace: RowMajorMatrix<u32>)
    requires
        2 * num_steps <= usize::MAX,
    ensures
        is_fibonacci_trace(trace, field, num_steps),
        matrix_height(trace) == num_steps as nat,
{
    let mut values: Vec<u32> = Vec::with_capacity(num_steps * 2);
    let mut a: u32 = 0;
    let mut b: u32 = 1;
    let mut i: usize = 0;
    proof {
        lemma_small_mod(0, field.spec_modulus());
        lemma_small_mod(1, field.spec_modulus());
    }
    while i < num_steps
        invariant
            i <= num_steps,
            2 * num_steps <= usize::MAX,
            a == fibonacci_term(field, i as nat),
            b == fibonacci_term(field, (i + 1) as nat),
            values@ == fibonacci_trace_values(field, i as nat),
        decreases num_steps - i,
    {
        proof {
            lemma_term_step(field, i as nat);
            lemma_term_step(field, (i + 1) as nat);
        }
        values.push(a);
        values.push(b);
        let c = field.sum(a, b);
        a = b;
        b = c;
        i += 1;
        assert(values@ =~= fibonacci_trace_values(field, i as nat));
    }
    new_matrix(values, 2)
}

} // verus!
