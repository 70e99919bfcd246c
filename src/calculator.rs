//! Integer calculator over `i32` with four named operations.
//!
//! Overflow policy: addition, subtraction, multiplication and division wrap
//! around modulo 2^32, as Rust's `wrapping_*` operations do. The only
//! quotient that overflows is `i32::MIN / -1`, which wraps to `i32::MIN`.

use vstd::prelude::*;

use crate::text::same_text;

verus! {

/// One of the four operations that the calculator knows by name.
#[derive(PartialEq, Eq, Structural, Clone, Copy, Debug)]
pub enum Operation {
    Add,
    Subtract,
    Multiply,
    Divide,
}

/// Why a calculation failed.
#[derive(PartialEq, Eq, Structural, Clone, Copy, Debug)]
pub enum CalcError {
    DivisionByZero,
    UnknownOperation,
}

/// The operation that a name selects, if any.
pub open spec fn operation_named(name: Seq<char>) -> Option<Operation> {
    if name == "add"@ {
        Some(Operation::Add)
    } else if name == "subtract"@ {
        Some(Operation::Subtract)
    } else if name == "multiply"@ {
        Some(Operation::Multiply)
    } else if name == "divide"@ {
        Some(Operation::Divide)
    } else {
        None
    }
}

/// The `i32` that is congruent to `x` modulo 2^32.
pub open spec fn wrap_i32(x: int) -> i32 {
    let m = x % 0x1_0000_0000;
    if m > i32::MAX {
        (m - 0x1_0000_0000) as i32
    } else {
        m as i32
    }
}

/// The absolute value of `x`.
pub open spec fn abs(x: int) -> int {
    if x < 0 {
        -x
    } else {
        x
    }
}

/// Integer quotient rounded toward zero (`b != 0`).
pub open spec fn truncated_quotient(a: int, b: int) -> int {
    if (a < 0) == (b < 0) {
        abs(a) / abs(b)
    } else {
        -(abs(a) / abs(b))
    }
}

/// What applying `op` to `a` and `b` yields.
pub open spec fn outcome(op: Operation, a: i32, b: i32) -> Result<i32, CalcError> {
    match op {
        Operation::Add => Ok(wrap_i32(a + b)),
        Operation::Subtract => Ok(wrap_i32(a - b)),
        Operation::Multiply => Ok(wrap_i32(a * b)),
        Operation::Divide => if b == 0 {
            Err(CalcError::DivisionByZero)
        } else {
            Ok(wrap_i32(truncated_quotient(a as int, b as int)))
        },
    }
}

/// What the calculator yields for two operands and an operation name.
pub open spec fn calculation(a: i32, b: i32, name: Seq<char>) -> Result<i32, CalcError> {
    match operation_named(name) {
        Some(op) => outcome(op, a, b),
        None => Err(CalcError::UnknownOperation),
    }
}

impl CalcError {
    /// The human-readable message of the error.
    pub open spec fn description(self) -> Seq<char> {
        match self {
            CalcError::DivisionByZero => "Division by zero"@,
            CalcError::UnknownOperation => "Unknown operation"@,
        }
    }

    pub fn message(&self) -> (m: String)
        ensures
            m@ == self.description(),
    {
        match self {
            CalcError::DivisionByZero => String::from_str("Division by zero"),
            CalcError::UnknownOperation => String::from_str("Unknown operation"),
        }
    }
}

impl Operation {
    /// Looks an operation up by its name.
    pub fn from_name(name: &str) -> (r: Option<Operation>)
        ensures
            r == operation_named(name@),
    {
        if same_text(name, "add") {
            Some(Operation::Add)
        } else if same_text(name, "subtract") {
            Some(Operation::Subtract)
        } else if same_text(name, "multiply") {
            Some(Operation::Multiply)
        } else if same_text(name, "divide") {
            Some(Operation::Divide)
        } else {
            None
        }
    }
}

proof fn lemma_wrapping_add(a: i32, b: i32)
    ensures
        vstd::wrapping::i32_specs::wrapping_add(a, b) == wrap_i32(a + b),
{
}

proof fn lemma_wrapping_sub(a: i32, b: i32)
    ensures
        vstd::wrapping::i32_specs::wrapping_sub(a, b) == wrap_i32(a - b),
{
}

proof fn lemma_quotient_bounded(p: int, q: int)
    requires
        0 <= p,
        1 <= q,
    ensures
        0 <= p / q <= p,
{
    assert(0 <= p / q <= p) by (nonlinear_arith)
        requires
            0 <= p,
            1 <= q,
    ;
}

/// Applies an operation to two operands.
pub fn evaluate(op: Operation, a: i32, b: i32) -> (r: Result<i32, CalcError>)
    ensures
        r == outcome(op, a, b),
{
    match op {
        Operation::Add => {
            proof {
                lemma_wrapping_add(a, b);
            }
            Ok(a.wrapping_add(b))
        },
        Operation::Subtract => {
            proof {
                lemma_wrapping_sub(a, b);
            }
            Ok(a.wrapping_sub(b))
        },
        Operation::Multiply => Ok(a.wrapping_mul(b)),
        Operation::Divide => {
            if b == 0 {
                Err(CalcError::DivisionByZero)
            } else {
                proof {
                    lemma_quotient_bounded(abs(a as int), abs(b as int));
                }
                match a.checked_div(b) {
                    Some(q) => Ok(q),
                    None => Ok(i32::MIN),
                }
            }
        },
    }
}

/// Applies the operation that `operation` names to `a` and `b`: `Ok` with
/// the (wrapped) result, or `Err` with the message of the failure.
pub fn calculate(a: i32, b: i32, operation: &str) -> (r: Result<i32, String>)
    ensures
        match calculation(a, b, operation@) {
            Ok(v) => r matches Ok(x) && x == v,
            Err(e) => r matches Err(m) && m@ == e.description(),
        },
{
    let result = match Operation::from_name(operation) {
        Some(op) => evaluate(op, a, b),
        None => Err(CalcError::UnknownOperation),
    };
    match result {
        Ok(v) => Ok(v),
        Err(e) => Err(e.message()),
    }
}

/// The names of the operations, and "modulo", are pairwise distinct.
proof fn lemma_names_distinct()
    ensures
        "add"@ != "subtract"@,
        "add"@ != "multiply"@,
        "add"@ != "divide"@,
        "add"@ != "modulo"@,
        "subtract"@ != "multiply"@,
        "subtract"@ != "divide"@,
        "subtract"@ != "modulo"@,
        "multiply"@ != "divide"@,
        "multiply"@ != "modulo"@,
        "divide"@ != "modulo"@,
{
    reveal_strlit("add");
    reveal_strlit("subtract");
    reveal_strlit("multiply");
    reveal_strlit("divide");
    reveal_strlit("modulo");
    assert("add"@.len() == 3);
    assert("subtract"@.len() == 8);
    assert("multiply"@.len() == 8);
    assert("divide"@.len() == 6);
    assert("modulo"@.len() == 6);
    assert("subtract"@[0] != "multiply"@[0]);
    assert("divide"@[0] != "modulo"@[0]);
}

/// Addition, subtraction and multiplication give the exact mathematical
/// result whenever it fits in an `i32`, and otherwise that result wrapped
/// modulo 2^32.
pub proof fn law_arithmetic_is_exact(a: i32, b: i32)
    ensures
        calculation(a, b, "add"@) == Ok::<i32, CalcError>(wrap_i32(a + b)),
        calculation(a, b, "subtract"@) == Ok::<i32, CalcError>(wrap_i32(a - b)),
        calculation(a, b, "multiply"@) == Ok::<i32, CalcError>(wrap_i32(a * b)),
        i32::MIN <= a + b <= i32::MAX ==> calculation(a, b, "add"@) == Ok::<i32, CalcError>(
            (a + b) as i32,
        ),
        i32::MIN <= a - b <= i32::MAX ==> calculation(a, b, "subtract"@) == Ok::<i32, CalcError>(
            (a - b) as i32,
        ),
        i32::MIN <= a * b <= i32::MAX ==> calculation(a, b, "multiply"@) == Ok::<i32, CalcError>(
            (a * b) as i32,
        ),
{
    lemma_names_distinct();
}

/// Dividing any number by zero fails with the message "Division by zero".
pub proof fn law_divide_by_zero_fails(a: i32)
    ensures
        calculation(a, 0, "divide"@) == Err::<i32, CalcError>(CalcError::DivisionByZero),
        CalcError::DivisionByZero.description() == "Division by zero"@,
{
    lemma_names_distinct();
}

/// "modulo" is no operation of the calculator: it fails with the message
/// "Unknown operation", whatever the operands.
pub proof fn law_modulo_is_unknown(a: i32, b: i32)
    ensures
        calculation(a, b, "modulo"@) == Err::<i32, CalcError>(CalcError::UnknownOperation),
        CalcError::UnknownOperation.description() == "Unknown operation"@,
{
    lemma_names_distinct();
}

} // verus!
