//! What the constraints of the Fibonacci AIR say about a trace: they admit
//! the generated trace and no other.

use crate::air::FibonacciAir;
use crate::field::NativeField;
use crate::matrix::{matrix_values, matrix_width};
use crate::satisfaction::{
    cells_in_field, holds_at, row_count, satisfies, spec_check_trace, well_formed,
};
use crate::trace::{fibonacci_term, fibonacci_trace_values, is_fibonacci_trace, lemma_term_step};
use p3_matrix::dense::RowMajorMatrix;
use vstd::arithmetic::div_mod::lemma_small_mod;
use vstd::prelude::*;

verus! {

/// Row `row` of the generated trace holds the terms `row` and `row + 1`.
proof fn lemma_generated_row(field: NativeField, num_steps: nat, row: int)
    requires
        0 <= row < num_steps,
    ensures
        fibonacci_trace_values(field, num_steps).len() == 2 * num_steps,
        row_count(fibonacci_trace_values(field, num_steps), 2) == num_steps,
        fibonacci_trace_values(field, num_steps)[row * 2] == fibonacci_term(field, row as nat),
        fibonacci_trace_values(field, num_steps)[row * 2 + 1] == fibonacci_term(
            field,
            (row + 1) as nat,
        ),
{
}

/// The first two terms are 0 and 1 in every field.
proof fn lemma_first_terms(field: NativeField)
    ensures
        fibonacci_term(field, 0) == 0,
        fibonacci_term(field, 1) == 1,
{
    lemma_small_mod(0, field.spec_modulus());
    lemma_small_mod(1, field.spec_modulus());
}

/// The generated trace always meets the first-row and the transition
/// constraints, which are the first four, and it meets the last-row
/// constraint, and so the AIR, exactly when `final_value` is the
/// `num_steps`-th term of the recurrence in the field's arithmetic.
pub proof fn lemma_generated_trace_meets_air(air: FibonacciAir, field: NativeField)
    requires
        air.num_steps >= 1,
    ensures
        forall|row: int, i: int|
            0 <= row < air.num_steps && 0 <= i < 4 ==> #[trigger] holds_at(
                air.spec_constraints()[i],
                field,
                fibonacci_trace_values(field, air.num_steps as nat),
                2,
                row,
            ),
        satisfies(
            air.spec_constraints(),
            field,
            fibonacci_trace_values(field, air.num_steps as nat),
            2,
        ) <==> air.final_value == fibonacci_term(field, air.num_steps as nat),
{
    let n = air.num_steps as nat;
    let values = fibonacci_trace_values(field, n);
    let constraints = air.spec_constraints();
    lemma_first_terms(field);
    lemma_generated_row(field, n, n - 1);
    assert forall|row: int, i: int| 0 <= row < n && 0 <= i < 4 implies #[trigger] holds_at(
        constraints[i],
        field,
        values,
        2,
        row,
    ) by {
        lemma_generated_row(field, n, row);
        lemma_term_step(field, row as nat);
        if row + 1 < n {
            lemma_generated_row(field, n, row + 1);
        }
    }
    if air.final_value == fibonacci_term(field, n) {
        assert forall|row: int, i: int|
            0 <= row < row_count(values, 2) && 0 <= i < constraints.len() implies #[trigger] holds_at(
            constraints[i],
            field,
            values,
            2,
            row,
        ) by {
            lemma_generated_row(field, n, row);
        }
    } else {
        assert(!holds_at(constraints[4], field, values, 2, n - 1));
    }
}

/// In a trace that meets the constraints, row `row` holds the terms `row`
/// and `row + 1`.
proof fn lemma_row_is_pinned(air: FibonacciAir, field: NativeField, values: Seq<u32>, row: nat)
    requires
        values.len() == 2 * air.num_steps,
        satisfies(air.spec_constraints(), field, values, 2),
        row < air.num_steps,
    ensures
        values[row as int * 2] == fibonacci_term(field, row),
        values[row as int * 2 + 1] == fibonacci_term(field, row + 1),
    decreases row,
{
    let constraints = air.spec_constraints();
    assert(row_count(values, 2) == air.num_steps);
    if row == 0 {
        lemma_first_terms(field);
        assert(holds_at(constraints[0], field, values, 2, 0));
        assert(holds_at(constraints[1], field, values, 2, 0));
    } else {
        let before = (row - 1) as nat;
        lemma_row_is_pinned(air, field, values, before);
        lemma_term_step(field, before);
        assert(holds_at(constraints[2], field, values, 2, before as int));
        assert(holds_at(constraints[3], field, values, 2, before as int));
    }
}

/// The constraints pin the trace down: a trace of `num_steps` rows of width 2
/// that meets them is the generated trace, cell for cell, and `final_value`
/// is the `num_steps`-th term of the recurrence.
pub proof fn lemma_air_pins_trace(air: FibonacciAir, field: NativeField, values: Seq<u32>)
    requires
        air.num_steps >= 1,
        values.len() == 2 * air.num_steps,
        satisfies(air.spec_constraints(), field, values, 2),
    ensures
        values == fibonacci_trace_values(field, air.num_steps as nat),
        air.final_value == fibonacci_term(field, air.num_steps as nat),
{
    let n = air.num_steps as nat;
    let generated = fibonacci_trace_values(field, n);
    assert forall|k: int| 0 <= k < values.len() implies values[k] == generated[k] by {
        lemma_row_is_pinned(air, field, values, (k / 2) as nat);
    }
    assert(values =~= generated);
    lemma_generated_trace_meets_air(air, field);
}

/// No cell of the generated trace can be changed without breaking a
/// constraint, whatever the new value and whatever `final_value` is.
pub proof fn lemma_changed_cell_breaks_air(
    air: FibonacciAir,
    field: NativeField,
    index: int,
    value: u32,
)
    requires
        air.num_steps >= 1,
        0 <= index < 2 * air.num_steps,
        value != fibonacci_trace_values(field, air.num_steps as nat)[index],
    ensures
        !satisfies(
            air.spec_constraints(),
            field,
            fibonacci_trace_values(field, air.num_steps as nat).update(index, value),
            2,
        ),
{
    let generated = fibonacci_trace_values(field, air.num_steps as nat);
    let changed = generated.update(index, value);
    if satisfies(air.spec_constraints(), field, changed, 2) {
        lemma_air_pins_trace(air, field, changed);
        assert(changed[index] == generated[index]);
    }
}

/// Every cell of the generated trace is an element of the field.
pub proof fn lemma_generated_cells_in_field(field: NativeField, num_steps: nat)
    ensures
        cells_in_field(fibonacci_trace_values(field, num_steps), field),
{
    let values = fibonacci_trace_values(field, num_steps);
    assert forall|k: int| 0 <= k < values.len() implies field.spec_contains(
        #[trigger] values[k],
    ) by {
        lemma_term_step(field, (k / 2 + k % 2) as nat);
    }
}

/// The check accepts the generated trace with the true final value, and
/// nothing else: whatever other trace or final value it is handed, it reports
/// a malformed trace or a constraint violation.
pub proof fn lemma_check_accepts_only_the_generated_trace(
    air: FibonacciAir,
    field: NativeField,
    trace: RowMajorMatrix<u32>,
)
    requires
        air.num_steps >= 1,
    ensures
        spec_check_trace(air, field, trace) is Ok <==> is_fibonacci_trace(
            trace,
            field,
            air.num_steps,
        ) && air.final_value == fibonacci_term(field, air.num_steps as nat),
{
    let n = air.num_steps as nat;
    if spec_check_trace(air, field, trace) is Ok {
        assert(well_formed(air, field, trace));
        lemma_air_pins_trace(air, field, matrix_values(trace));
    }
    if is_fibonacci_trace(trace, field, air.num_steps) && air.final_value == fibonacci_term(
        field,
        n,
    ) {
        lemma_generated_cells_in_field(field, n);
        lemma_generated_trace_meets_air(air, field);
    }
}

/// Generation is a function of the field and the number of steps: two traces
/// generated for the same field and number of steps agree in width and in
/// every cell.
pub proof fn lemma_generation_is_deterministic(
    field: NativeField,
    num_steps: usize,
    first: RowMajorMatrix<u32>,
    second: RowMajorMatrix<u32>,
)
    requires
        is_fibonacci_trace(first, field, num_steps),
        is_fibonacci_trace(second, field, num_steps),
    ensures
        matrix_width(first) == matrix_width(second),
        matrix_values(first) == matrix_values(second),
{
}

} // verus!
