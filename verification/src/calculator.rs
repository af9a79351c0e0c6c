//! The calculator tool: it adds or subtracts two numbers, as the request's
//! operation name asks.
//!
//! The tool is written once for every number type that has `+` and `-`. What
//! it promises of the result is what that type's own operator promises.

use vstd::prelude::*;
use core::ops::{Add, Sub};
use crate::error::tool_error;
use crate::text::{lemma_mentions_at, mentions, same_text};
use vstd::std_specs::ops::{AddSpec, SubSpec};
use yart::ToolError;

verus! {

/// What the calculator says of an operation that it does not perform.
pub const INVALID_OPERATION: &'static str = "Invalid operation: must be 'add' or 'subtract'";

/// A request to the calculator: the name of an operation and its two operands.
#[derive(Debug, PartialEq)]
pub struct CalcArgs<N> {
    /// `"add"` or `"subtract"`.
    pub operation: String,
    pub a: N,
    pub b: N,
}

/// The calculator's answer.
#[derive(Debug, PartialEq)]
pub struct CalcOutput<N> {
    pub result: N,
}

/// The operations that the calculator performs.
#[derive(Clone, Copy, Debug, PartialEq, Eq, Structural)]
pub enum Operation {
    Add,
    Subtract,
}

impl Operation {
    /// The operation that a name stands for. Names are matched letter for
    /// letter: `"Add"` and `" add"` stand for nothing.
    pub open spec fn named(name: Seq<char>) -> Option<Operation> {
        if name == "add"@ {
            Some(Operation::Add)
        } else if name == "subtract"@ {
            Some(Operation::Subtract)
        } else {
            None
        }
    }

    /// Whether the operation may be asked for on `a` and `b`: whether the
    /// number type's operator accepts them. For the machine integers this
    /// says that the result fits.
    pub open spec fn accepts<N: Add<Output = N> + Sub<Output = N>>(self, a: N, b: N) -> bool {
        match self {
            Operation::Add => call_requires(N::add, (a, b)),
            Operation::Subtract => call_requires(N::sub, (a, b)),
        }
    }

    /// Whether `result` is what the operation gives on `a` and `b`: the
    /// value of `a + b` for `Add`, of `a - b` for `Subtract`, as the number
    /// type defines them.
    pub open spec fn gives<N: Add<Output = N> + Sub<Output = N>>(
        self,
        a: N,
        b: N,
        result: N,
    ) -> bool {
        match self {
            Operation::Add => call_ensures(N::add, (a, b), result),
            Operation::Subtract => call_ensures(N::sub, (a, b), result),
        }
    }

    /// Reads an operation's name. A name that stands for no operation is
    /// answered with an error that lists the names that do.
    pub fn parse(name: &str) -> (parsed: Result<Operation, ToolError>)
        ensures
            match Operation::named(name@) {
                Some(operation) => parsed matches Ok(found) && found == operation,
                None => parsed matches Err(error) && error.0@ == INVALID_OPERATION@,
            },
    {
        if same_text(name, "add") {
            Ok(Operation::Add)
        } else if same_text(name, "subtract") {
            Ok(Operation::Subtract)
        } else {
            Err(tool_error(INVALID_OPERATION))
        }
    }

    /// Performs the operation on two numbers.
    pub fn apply<N: Add<Output = N> + Sub<Output = N>>(self, a: N, b: N) -> (result: N)
        requires
            self.accepts(a, b),
        ensures
            self.gives(a, b, result),
    {
        match self {
            Operation::Add => a + b,
            Operation::Subtract => a - b,
        }
    }
}

/// The two operation names are different names.
pub proof fn lemma_names_differ()
    ensures
        "add"@ != "subtract"@,
        Operation::named("add"@) == Some(Operation::Add),
        Operation::named("subtract"@) == Some(Operation::Subtract),
{
    reveal_strlit("add");
    reveal_strlit("subtract");
    assert("add"@.len() != "subtract"@.len());
}

/// Where a number type's `+` and `-` are functions of their operands, what
/// an operation gives is that function's value: the sum for `Add`, the
/// difference for `Subtract`.
pub proof fn lemma_gives_sum_or_difference<N: Add<Output = N> + Sub<Output = N>>(
    operation: Operation,
    a: N,
    b: N,
    result: N,
)
    requires
        operation.gives(a, b, result),
    ensures
        operation == Operation::Add && N::obeys_add_spec() ==> result == a.add_spec(b),
        operation == Operation::Subtract && N::obeys_sub_spec() ==> result == a.sub_spec(b),
{
}

/// The calculator's refusal names the fault, and both operations that the
/// request could have asked for instead.
pub proof fn lemma_refusal_is_actionable()
    ensures
        mentions(INVALID_OPERATION@, "Invalid operation"@),
        mentions(INVALID_OPERATION@, "add"@),
        mentions(INVALID_OPERATION@, "subtract"@),
{
    reveal_strlit("Invalid operation: must be 'add' or 'subtract'");
    reveal_strlit("Invalid operation");
    reveal_strlit("add");
    reveal_strlit("subtract");
    let refusal = INVALID_OPERATION@;
    assert(refusal.subrange(0, 17) =~= "Invalid operation"@);
    lemma_mentions_at(refusal, "Invalid operation"@, 0);
    assert(refusal.subrange(28, 31) =~= "add"@);
    lemma_mentions_at(refusal, "add"@, 28);
    assert(refusal.subrange(37, 45) =~= "subtract"@);
    lemma_mentions_at(refusal, "subtract"@, 37);
}

/// The calculator tool. `"add"` gives the sum of the two operands and
/// `"subtract"` the first less the second, neither rounded nor checked
/// beyond what the number type itself does. Any other operation is refused,
/// with an error that names the two that exist.
pub fn calculator<N: Add<Output = N> + Sub<Output = N>>(args: CalcArgs<N>) -> (answer: Result<
    CalcOutput<N>,
    ToolError,
>)
    requires
        args.operation@ == "add"@ ==> call_requires(N::add, (args.a, args.b)),
        args.operation@ == "subtract"@ ==> call_requires(N::sub, (args.a, args.b)),
    ensures
        args.operation@ == "add"@ ==> (answer matches Ok(output) && call_ensures(
            N::add,
            (args.a, args.b),
            output.result,
        )),
        args.operation@ == "subtract"@ ==> (answer matches Ok(output) && call_ensures(
            N::sub,
            (args.a, args.b),
            output.result,
        )),
        args.operation@ != "add"@ && args.operation@ != "subtract"@ ==> (answer matches Err(error)
            && error.0@ == INVALID_OPERATION@ && mentions(error.0@, "Invalid operation"@)),
{
    proof {
        lemma_names_differ();
        lemma_refusal_is_actionable();
    }
    match Operation::parse(args.operation.as_str()) {
        Ok(operation) => Ok(CalcOutput { result: operation.apply(args.a, args.b) }),
        Err(error) => Err(error),
    }
}

} // verus!
