//! The AIR of the Fibonacci recurrence: its width, and the constraints that
//! it registers with a builder.

use crate::field::NativeField;
use vstd::prelude::*;

verus! {

/// The rows on which a constraint is enforced.
#[derive(Clone, Copy, Debug, PartialEq, Eq, Structural)]
pub enum RowClass {
    /// The first row only.
    FirstRow,
    /// Every row but the last, together with the row after it.
    Transition,
    /// The last row only.
    LastRow,
}

/// A cell of the two-row window that a constraint sees, by its column.
#[derive(Clone, Copy, Debug, PartialEq, Eq, Structural)]
pub enum Var {
    /// A cell of the current row.
    Local(usize),
    /// A cell of the row after the current one; after the last row comes the
    /// first.
    Next(usize),
}

/// One side of a constraint.
#[derive(Clone, Copy, Debug, PartialEq, Eq, Structural)]
pub enum Expr {
    /// A cell of the window.
    Var(Var),
    /// A field constant, by its canonical representative.
    Constant(u32),
    /// The field's sum of two cells of the window.
    Sum(Var, Var),
}

/// A polynomial equality over the window, enforced on one class of rows.
#[derive(Clone, Copy, Debug, PartialEq, Eq, Structural)]
pub struct Constraint {
    pub when: RowClass,
    pub lhs: Expr,
    pub rhs: Expr,
}

/// The constraint that `lhs` equals `rhs` on the rows of class `when`.
pub open spec fn constraint(when: RowClass, lhs: Expr, rhs: Expr) -> Constraint {
    Constraint { when, lhs, rhs }
}

/// Collects the constraints that an AIR registers, in the order in which it
/// registers them.
pub struct ConstraintBuilder {
    constraints: Vec<Constraint>,
}

impl View for ConstraintBuilder {
    type V = Seq<Constraint>;

    closed spec fn view(&self) -> Seq<Constraint> {
        self.constraints@
    }
}

impl ConstraintBuilder {
    /// A builder with nothing registered.
    pub fn new() -> (builder: Self)
        ensures
            builder@ == Seq::<Constraint>::empty(),
    {
        ConstraintBuilder { constraints: Vec::new() }
    }

    /// Registers the constraint that `lhs` equals `rhs` on the rows of class
    /// `when`.
    pub fn assert_eq(&mut self, when: RowClass, lhs: Expr, rhs: Expr)
        ensures
            final(self)@ == old(self)@.push(constraint(when, lhs, rhs)),
    {
        self.constraints.push(Constraint { when, lhs, rhs });
    }

    /// What has been registered so far.
    pub fn constraints(&self) -> (registered: &Vec<Constraint>)
        ensures
            registered@ == self@,
    {
        &self.constraints
    }
}

/// The AIR of the Fibonacci recurrence over `num_steps` rows, whose last row
/// must end in `final_value`.
#[derive(Clone, Copy, Debug, PartialEq, Eq, Structural)]
pub struct FibonacciAir {
    /// The number of rows of the trace.
    pub num_steps: usize,
    /// The claimed `num_steps`-th term, as a canonical representative.
    pub final_value: u32,
}

impl FibonacciAir {
    /// The parameters that the AIR is defined for: at least two rows, and a
    /// final value that is an element of `field`.
    pub open spec fn spec_is_valid(&self, field: NativeField) -> bool {
        self.num_steps >= 2 && field.spec_contains(self.final_value)
    }

    /// The constraints of the AIR, in the order in which `eval` registers
    /// them.
    pub open spec fn spec_constraints(&self) -> Seq<Constraint> {
        seq![
            constraint(RowClass::FirstRow, Expr::Var(Var::Local(0)), Expr::Constant(0)),
            constraint(RowClass::FirstRow, Expr::Var(Var::Local(1)), Expr::Constant(1)),
            constraint(RowClass::Transition, Expr::Var(Var::Next(0)), Expr::Var(Var::Local(1))),
            constraint(
                RowClass::Transition,
                Expr::Var(Var::Next(1)),
                Expr::Sum(Var::Local(0), Var::Local(1)),
            ),
            constraint(
                RowClass::LastRow,
                Expr::Var(Var::Local(1)),
                Expr::Constant(self.final_value),
            ),
        ]
    }

    /// The public inputs of the AIR: it has none.
    pub open spec fn spec_public_inputs(&self) -> Seq<u32> {
        Seq::empty()
    }

    /// Whether the AIR is defined for these parameters over `field`.
    #[verifier::when_used_as_spec(spec_is_valid)]
    pub fn is_valid(&self, field: NativeField) -> (valid: bool)
        ensures
            valid == self.spec_is_valid(field),
    {
        self.num_steps >= 2 && field.contains(self.final_value)
    }

    /// The number of columns of the trace.
    pub fn width(&self) -> (w: usize)
        ensures
            w == 2,
    {
        2
    }

    /// The public inputs that prover and verifier are handed, as canonical
    /// representatives.
    pub fn public_inputs(&self) -> (inputs: Vec<u32>)
        ensures
            inputs@ == self.spec_public_inputs(),
    {
        Vec::new()
    }

    /// Registers the constraints of the AIR with `builder`.
    pub fn eval(&self, builder: &mut ConstraintBuilder)
        ensures
            final(builder)@ == old(builder)@ + self.spec_constraints(),
    {
        // Enforce the starting values.
        builder.assert_eq(RowClass::FirstRow, Expr::Var(Var::Local(0)), Expr::Constant(0));
        builder.assert_eq(RowClass::FirstRow, Expr::Var(Var::Local(1)), Expr::Constant(1));

        // Enforce the state transition.
        builder.assert_eq(RowClass::Transition, Expr::Var(Var::Next(0)), Expr::Var(Var::Local(1)));
        builder.assert_eq(
            RowClass::Transition,
            Expr::Var(Var::Next(1)),
            Expr::Sum(Var::Local(0), Var::Local(1)),
        );

        // Constrain the final value.
        builder.assert_eq(
            RowClass::LastRow,
            Expr::Var(Var::Local(1)),
            Expr::Constant(self.final_value),
        );
        assert(builder@ =~= old(builder)@ + self.spec_constraints());
    }
}

} // verus!
