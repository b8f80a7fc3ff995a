//! What it means for a trace to satisfy an AIR, and the check that decides
//! it.
//!
//! A constraint sees a window of two rows, the current one and the one after
//! it. First-row constraints are enforced with the window at the first row,
//! last-row constraints with the window at the last row, and transition
//! constraints at every row but the last. A trace satisfies the AIR when
//! both sides of every constraint agree wherever the constraint is enforced.

use crate::air::{Constraint, ConstraintBuilder, Expr, FibonacciAir, RowClass, Var};
use crate::error::ProofInvalid;
use crate::field::NativeField;
use crate::matrix::{matrix_values, matrix_width, values_of, width_of};
use p3_matrix::dense::RowMajorMatrix;
use vstd::arithmetic::div_mod::{lemma_fundamental_div_mod, lemma_mod_bound};
use vstd::prelude::*;

verus! {

/// The number of complete rows in `values` at the given width.
pub open spec fn row_count(values: Seq<u32>, width: nat) -> nat {
    if width == 0 {
        0
    } else {
        values.len() / width
    }
}

/// The row after `row` in a trace of `height` rows, wrapping to the first.
pub open spec fn next_row(row: int, height: nat) -> int {
    if row + 1 == height {
        0
    } else {
        row + 1
    }
}

/// The column that a window cell refers to.
pub open spec fn var_column(v: Var) -> usize {
    match v {
        Var::Local(c) => c,
        Var::Next(c) => c,
    }
}

/// The value of a window cell when the window stands at `row`.
pub open spec fn var_value(v: Var, values: Seq<u32>, width: nat, row: int) -> u32 {
    match v {
        Var::Local(c) => values[row * width + c],
        Var::Next(c) => values[next_row(row, row_count(values, width)) * width + c],
    }
}

/// The value of an expression when the window stands at `row`.
pub open spec fn expr_value(
    e: Expr,
    field: NativeField,
    values: Seq<u32>,
    width: nat,
    row: int,
) -> nat {
    match e {
        Expr::Var(v) => var_value(v, values, width, row) as nat,
        Expr::Constant(k) => k as nat,
        Expr::Sum(a, b) => field.spec_sum(
            var_value(a, values, width, row),
            var_value(b, values, width, row),
        ),
    }
}

/// Whether constraints of class `when` are enforced on `row`.
pub open spec fn applies(when: RowClass, row: int, height: nat) -> bool {
    match when {
        RowClass::FirstRow => row == 0,
        RowClass::Transition => row + 1 < height,
        RowClass::LastRow => row + 1 == height,
    }
}

/// Whether the trace meets constraint `c` at `row`: where the constraint is
/// enforced, both sides have the same value.
pub open spec fn holds_at(
    c: Constraint,
    field: NativeField,
    values: Seq<u32>,
    width: nat,
    row: int,
) -> bool {
    applies(c.when, row, row_count(values, width)) ==> expr_value(
        c.lhs,
        field,
        values,
        width,
        row,
    ) == expr_value(c.rhs, field, values, width, row)
}

/// Whether the trace meets every constraint at every row.
pub open spec fn satisfies(
    constraints: Seq<Constraint>,
    field: NativeField,
    values: Seq<u32>,
    width: nat,
) -> bool {
    forall|row: int, i: int|
        0 <= row < row_count(values, width) && 0 <= i < constraints.len() ==> #[trigger] holds_at(
            constraints[i],
            field,
            values,
            width,
            row,
        )
}

/// Whether every cell that an expression reads lies within `width` columns.
pub open spec fn expr_within(e: Expr, width: nat) -> bool {
    match e {
        Expr::Var(v) => var_column(v) < width,
        Expr::Constant(_) => true,
        Expr::Sum(a, b) => var_column(a) < width && var_column(b) < width,
    }
}

/// Whether every cell that the constraints read lies within `width` columns.
pub open spec fn columns_within(constraints: Seq<Constraint>, width: nat) -> bool {
    forall|i: int|
        0 <= i < constraints.len() ==> expr_within(#[trigger] constraints[i].lhs, width)
            && expr_within(constraints[i].rhs, width)
}

/// Whether every cell is the canonical representative of an element of
/// `field`.
pub open spec fn cells_in_field(values: Seq<u32>, field: NativeField) -> bool {
    forall|k: int| 0 <= k < values.len() ==> field.spec_contains(#[trigger] values[k])
}

/// A constraint that a trace fails, and the row at which it fails.
#[derive(Clone, Copy, Debug, PartialEq, Eq, Structural)]
pub struct Violation {
    /// The row at which the window stands.
    pub row: usize,
    /// The index of the constraint among those registered.
    pub constraint: usize,
}

/// Whether `(row, i)` comes before `(at_row, at_i)` when the constraints are
/// walked row by row.
pub open spec fn comes_before(row: int, i: int, at_row: int, at_i: int) -> bool {
    row < at_row || (row == at_row && i < at_i)
}

proof fn lemma_cell_in_range(len: int, width: int, row: int, col: int)
    requires
        width > 0,
        0 <= row < len / width,
        0 <= col < width,
    ensures
        0 <= row * width,
        row * width + col < len,
{
    let height = len / width;
    lemma_fundamental_div_mod(len, width);
    lemma_mod_bound(len, width);
    assert(row * width + width <= height * width) by (nonlinear_arith)
        requires
            row + 1 <= height,
            width > 0,
    ;
    assert(row * width >= 0) by (nonlinear_arith)
        requires
            row >= 0,
            width > 0,
    ;
    assert(width * height == height * width) by (nonlinear_arith);
}

fn cell_at(values: &Vec<u32>, width: usize, row: usize, col: usize) -> (v: u32)
    requires
        width > 0,
        row < values@.len() / (width as nat),
        col < width,
    ensures
        0 <= row * width + col < values@.len(),
        v == values@[row * width + col],
{
    proof {
        assert(values.len() == values@.len());
        lemma_cell_in_range(values@.len() as int, width as int, row as int, col as int);
    }
    values[row * width + col]
}

fn var_at(v: Var, values: &Vec<u32>, width: usize, row: usize) -> (r: u32)
    requires
        width > 0,
        row < row_count(values@, width as nat),
        var_column(v) < width,
    ensures
        r == var_value(v, values@, width as nat, row as int),
{
    match v {
        Var::Local(c) => cell_at(values, width, row, c),
        Var::Next(c) => {
            let height = values.len() / width;
            let after = if row + 1 == height {
                0
            } else {
                row + 1
            };
            cell_at(values, width, after, c)
        },
    }
}

fn expr_at(e: Expr, field: NativeField, values: &Vec<u32>, width: usize, row: usize) -> (r: u32)
    requires
        width > 0,
        row < row_count(values@, width as nat),
        expr_within(e, width as nat),
        cells_in_field(values@, field),
    ensures
        r as nat == expr_value(e, field, values@, width as nat, row as int),
{
    match e {
        Expr::Var(v) => var_at(v, values, width, row),
        Expr::Constant(k) => k,
        Expr::Sum(a, b) => {
            let x = var_at(a, values, width, row);
            let y = var_at(b, values, width, row);
            proof {
                let height = row_count(values@, width as nat);
                let len = values@.len() as int;
                let after = next_row(row as int, height);
                lemma_cell_in_range(len, width as int, row as int, var_column(a) as int);
                lemma_cell_in_range(len, width as int, row as int, var_column(b) as int);
                lemma_cell_in_range(len, width as int, after, var_column(a) as int);
                lemma_cell_in_range(len, width as int, after, var_column(b) as int);
            }
            field.sum(x, y)
        },
    }
}

fn class_applies(when: RowClass, row: usize, height: usize) -> (b: bool)
    requires
        row < height,
    ensures
        b == applies(when, row as int, height as nat),
{
    match when {
        RowClass::FirstRow => row == 0,
        RowClass::Transition => row + 1 < height,
        RowClass::LastRow => row + 1 == height,
    }
}

fn constraint_holds(
    c: &Constraint,
    field: NativeField,
    values: &Vec<u32>,
    width: usize,
    row: usize,
) -> (b: bool)
    requires
        width > 0,
        row < row_count(values@, width as nat),
        expr_within(c.lhs, width as nat),
        expr_within(c.rhs, width as nat),
        cells_in_field(values@, field),
    ensures
        b == holds_at(*c, field, values@, width as nat, row as int),
{
    if class_applies(c.when, row, values.len() / width) {
        let lhs = expr_at(c.lhs, field, values, width, row);
        let rhs = expr_at(c.rhs, field, values, width, row);
        lhs == rhs
    } else {
        true
    }
}

/// Walks the trace row by row and, at each row, the constraints in order,
/// and returns the first place at which a constraint fails.
pub fn find_violation(
    constraints: &Vec<Constraint>,
    field: NativeField,
    values: &Vec<u32>,
    width: usize,
) -> (found: Option<Violation>)
    requires
        width > 0,
        columns_within(constraints@, width as nat),
        cells_in_field(values@, field),
    ensures
        found is None <==> satisfies(constraints@, field, values@, width as nat),
        found matches Some(v) ==> {
            &&& v.row < row_count(values@, width as nat)
            &&& v.constraint < constraints@.len()
            &&& !holds_at(constraints@[v.constraint as int], field, values@, width as nat, v.row as int)
            &&& forall|row: int, i: int|
                0 <= row < row_count(values@, width as nat) && 0 <= i < constraints@.len()
                    && comes_before(row, i, v.row as int, v.constraint as int)
                    ==> #[trigger] holds_at(constraints@[i], field, values@, width as nat, row)
        },
{
    let height = values.len() / width;
    let mut row: usize = 0;
    while row < height
        invariant
            width > 0,
            height == row_count(values@, width as nat),
            row <= height,
            columns_within(constraints@, width as nat),
            cells_in_field(values@, field),
            forall|r: int, i: int|
                0 <= r < row && 0 <= i < constraints@.len() ==> #[trigger] holds_at(
                    constraints@[i],
                    field,
                    values@,
                    width as nat,
                    r,
                ),
        decreases height - row,
    {
        let mut i: usize = 0;
        while i < constraints.len()
            invariant
                width > 0,
                height == row_count(values@, width as nat),
                row < height,
                i <= constraints@.len(),
                columns_within(constraints@, width as nat),
                cells_in_field(values@, field),
                forall|r: int, j: int|
                    0 <= r < row && 0 <= j < constraints@.len() ==> #[trigger] holds_at(
                        constraints@[j],
                        field,
                        values@,
                        width as nat,
                        r,
                    ),
                forall|j: int|
                    0 <= j < i ==> #[trigger] holds_at(
                        constraints@[j],
                        field,
                        values@,
                        width as nat,
                        row as int,
                    ),
            decreases constraints@.len() - i,
        {
            if !constraint_holds(&constraints[i], field, values, width, row) {
                return Some(Violation { row, constraint: i });
            }
            i += 1;
        }
        row += 1;
    }
    None
}

/// What a check of `trace` against `air` over `field` comes to: a trace of
/// the wrong shape, or with a cell outside the field, is malformed; a
/// well-formed one must meet every constraint.
pub open spec fn spec_check_trace(
    air: FibonacciAir,
    field: NativeField,
    trace: RowMajorMatrix<u32>,
) -> Result<(), ProofInvalid> {
    if !well_formed(air, field, trace) {
        Err(ProofInvalid::MalformedTrace)
    } else if !satisfies(air.spec_constraints(), field, matrix_values(trace), 2) {
        Err(ProofInvalid::ConstraintViolation)
    } else {
        Ok(())
    }
}

/// Whether `trace` has the width that `air` declares and the number of rows
/// that it asks for, with no cell left over and every cell in `field`.
pub open spec fn well_formed(
    air: FibonacciAir,
    field: NativeField,
    trace: RowMajorMatrix<u32>,
) -> bool {
    &&& matrix_width(trace) == 2
    &&& matrix_values(trace).len() == 2 * air.num_steps
    &&& cells_in_field(matrix_values(trace), field)
}

fn all_in_field(values: &Vec<u32>, field: NativeField) -> (b: bool)
    ensures
        b == cells_in_field(values@, field),
{
    let mut k: usize = 0;
    while k < values.len()
        invariant
            k <= values@.len(),
            forall|j: int| 0 <= j < k ==> field.spec_contains(#[trigger] values@[j]),
        decreases values@.len() - k,
    {
        if !field.contains(values[k]) {
            return false;
        }
        k += 1;
    }
    true
}

/// Checks `trace` against `air` over `field`, first its shape and then every
/// constraint at every row.
pub fn check_trace(
    air: &FibonacciAir,
    field: NativeField,
    trace: &RowMajorMatrix<u32>,
) -> (checked: Result<(), ProofInvalid>)
    ensures
        checked == spec_check_trace(*air, field, *trace),
{
    let width = width_of(trace);
    let values = values_of(trace);
    if width != air.width() || values.len() % 2 != 0 || values.len() / 2 != air.num_steps {
        return Err(ProofInvalid::MalformedTrace);
    }
    if !all_in_field(values, field) {
        return Err(ProofInvalid::MalformedTrace);
    }
    let mut builder = ConstraintBuilder::new();
    air.eval(&mut builder);
    assert(builder@ =~= air.spec_constraints());
    match find_violation(builder.constraints(), field, values, width) {
        Some(_) => Err(ProofInvalid::ConstraintViolation),
        None => Ok(()),
    }
}

} // verus!
