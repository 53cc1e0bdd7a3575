//! Arithmetic questions: their kinds, how one is built, shown and checked,
//! and how fresh ones are drawn at random.

use crate::text::{decimal, push_decimal, same_text};
use rand::rngs::ThreadRng;
use rand::Rng;
use vstd::prelude::*;
use vstd::string::*;

verus! {

/// The kind of arithmetic a question asks for.
#[derive(Debug, Clone, Copy, PartialEq, Eq, Structural)]
pub enum OperationType {
    Addition,
    Multiplication,
}

impl OperationType {
    /// The name under which the kind is stored.
    pub open spec fn name(self) -> Seq<char> {
        match self {
            OperationType::Addition => "ADD"@,
            OperationType::Multiplication => "MULTIPLY"@,
        }
    }

    /// The sign that is shown between the operands.
    pub open spec fn sign(self) -> Seq<char> {
        match self {
            OperationType::Addition => "+"@,
            OperationType::Multiplication => "×"@,
        }
    }

    /// The kind that is stored under `name`, if there is one.
    pub open spec fn named(name: Seq<char>) -> Option<OperationType> {
        if name == OperationType::Addition.name() {
            Some(OperationType::Addition)
        } else if name == OperationType::Multiplication.name() {
            Some(OperationType::Multiplication)
        } else {
            None
        }
    }

    /// The exact value of applying the operation to two operands.
    pub open spec fn apply(self, operand1: int, operand2: int) -> int {
        match self {
            OperationType::Addition => operand1 + operand2,
            OperationType::Multiplication => operand1 * operand2,
        }
    }

    pub fn as_str(&self) -> (s: &str)
        ensures
            s@ == self.name(),
    {
        match self {
            OperationType::Addition => "ADD",
            OperationType::Multiplication => "MULTIPLY",
        }
    }

    pub fn symbol(&self) -> (s: &str)
        ensures
            s@ == self.sign(),
    {
        match self {
            OperationType::Addition => "+",
            OperationType::Multiplication => "×",
        }
    }

    /// Reads a stored name back; any other text names no kind.
    pub fn from_str(s: &str) -> (kind: Option<OperationType>)
        ensures
            kind == OperationType::named(s@),
    {
        if same_text(s, "ADD") {
            Some(OperationType::Addition)
        } else if same_text(s, "MULTIPLY") {
            Some(OperationType::Multiplication)
        } else {
            None
        }
    }
}

/// The two names differ, so a stored name is read back as the kind that wrote it.
pub proof fn lemma_name_round_trip(kind: OperationType)
    ensures
        OperationType::named(kind.name()) == Some(kind),
{
    reveal_strlit("ADD");
    reveal_strlit("MULTIPLY");
    assert("ADD"@.len() != "MULTIPLY"@.len());
}

/// One question: two operands, the operation between them and its value.
#[derive(Debug, Clone, Copy)]
pub struct Operation {
    /// The id under which the question is stored; `None` for one that was
    /// never stored.
    pub id: Option<i64>,
    pub operation_type: OperationType,
    pub operand1: i32,
    pub operand2: i32,
    pub result: i32,
}

/// Whether the exact value of the operation can be held in an `i32`.
pub open spec fn result_fits(operation_type: OperationType, operand1: int, operand2: int) -> bool {
    i32::MIN <= operation_type.apply(operand1, operand2) <= i32::MAX
}

impl Operation {
    /// The question's `result` is the value of its operation.
    pub open spec fn is_consistent(self) -> bool {
        self.result == self.operation_type.apply(self.operand1 as int, self.operand2 as int)
    }

    /// What a freshly drawn question looks like: never stored, both
    /// operands of one or two digits, and consistent.
    pub open spec fn is_fresh(self) -> bool {
        &&& self.id is None
        &&& 1 <= self.operand1 < 100
        &&& 1 <= self.operand2 < 100
        &&& self.is_consistent()
    }

    /// The text shown to the learner.
    pub open spec fn prompt(self) -> Seq<char> {
        decimal(self.operand1 as int) + " "@ + self.operation_type.sign() + " "@ + decimal(
            self.operand2 as int,
        ) + " = ?"@
    }

    /// Builds an unstored question and computes its value.
    pub fn new(operation_type: OperationType, operand1: i32, operand2: i32) -> (op: Operation)
        requires
            result_fits(operation_type, operand1 as int, operand2 as int),
        ensures
            op.id is None,
            op.operation_type == operation_type,
            op.operand1 == operand1,
            op.operand2 == operand2,
            op.result == operation_type.apply(operand1 as int, operand2 as int),
    {
        let result = match operation_type {
            OperationType::Addition => operand1 + operand2,
            OperationType::Multiplication => operand1 * operand2,
        };
        Operation { id: None, operation_type, operand1, operand2, result }
    }

    /// Like `new`, but answers `None` where the value does not fit an `i32`.
    pub fn checked_new(operation_type: OperationType, operand1: i32, operand2: i32) -> (op: Option<
        Operation,
    >)
        ensures
            op is Some <==> result_fits(operation_type, operand1 as int, operand2 as int),
            op matches Some(o) ==> {
                &&& o.id is None
                &&& o.operation_type == operation_type
                &&& o.operand1 == operand1
                &&& o.operand2 == operand2
                &&& o.is_consistent()
            },
    {
        let wide: i64 = match operation_type {
            OperationType::Addition => operand1 as i64 + operand2 as i64,
            OperationType::Multiplication => {
                assert(-0x4000_0000_0000_0000 <= (operand1 as int) * (operand2 as int)
                    <= 0x4000_0000_0000_0000) by (nonlinear_arith)
                    requires
                        -0x8000_0000 <= operand1 as int <= 0x7fff_ffff,
                        -0x8000_0000 <= operand2 as int <= 0x7fff_ffff,
                ;
                operand1 as i64 * operand2 as i64
            },
        };
        if wide < -2147483648 || wide > 2147483647 {
            None
        } else {
            Some(Operation::new(operation_type, operand1, operand2))
        }
    }

    /// Draws a question with operands from 1 to 99 and either operation.
    pub fn generate_random() -> (op: Operation)
        ensures
            op.is_fresh(),
    {
        let mut rng = rand::thread_rng();
        let operand1 = random_in_range(&mut rng, 1, 100);
        let operand2 = random_in_range(&mut rng, 1, 100);
        let operation_type = if random_ratio(&mut rng, 1, 2) {
            OperationType::Addition
        } else {
            OperationType::Multiplication
        };
        assert(1 <= (operand1 as int) * (operand2 as int) <= 9801) by (nonlinear_arith)
            requires
                1 <= operand1 < 100,
                1 <= operand2 < 100,
        ;
        Operation::new(operation_type, operand1, operand2)
    }

    pub fn to_string(&self) -> (s: String)
        ensures
            s@ == self.prompt(),
    {
        let mut s = String::new();
        push_decimal(&mut s, self.operand1 as i64);
        s.append(" ");
        s.append(self.operation_type.symbol());
        s.append(" ");
        push_decimal(&mut s, self.operand2 as i64);
        s.append(" = ?");
        s
    }

    pub fn check_answer(&self, answer: i32) -> (correct: bool)
        ensures
            correct == (self.result == answer),
    {
        self.result == answer
    }
}

/// Draws `count` fresh questions.
pub fn generate_question_block(count: usize) -> (block: Vec<Operation>)
    ensures
        block.len() == count,
        forall|i: int| 0 <= i < count ==> (#[trigger] block[i]).is_fresh(),
{
    let mut block: Vec<Operation> = Vec::new();
    let mut made: usize = 0;
    while made < count
        invariant
            made <= count,
            block.len() == made,
            forall|i: int| 0 <= i < made ==> (#[trigger] block[i]).is_fresh(),
        decreases count - made,
    {
        block.push(Operation::generate_random());
        made = made + 1;
    }
    block
}

/// The handle of the calling thread's random number generator, an opaque
/// value of the `rand` crate.
#[verifier::external_type_specification]
#[verifier::external_body]
pub struct ExThreadRng(ThreadRng);

/// `rand::thread_rng` hands out the thread's generator; nothing is claimed
/// of it.
pub assume_specification[ rand::thread_rng ]() -> ThreadRng
;

/// `Rng::gen_range` on the half-open range `low..high`. The crate panics on
/// an empty range, which the precondition excludes, and otherwise samples a
/// value inside the range; which one is left open.
#[verifier::external_body]
fn random_in_range(rng: &mut ThreadRng, low: i32, high: i32) -> (n: i32)
    requires
        low < high,
    ensures
        low <= n < high,
{
    rng.gen_range(low..high)
}

/// `Rng::gen_ratio`: a coin that shows `true` with the given odds. The crate
/// panics on a zero denominator or a numerator above it, which the
/// precondition excludes; nothing is claimed of the outcome.
#[verifier::external_body]
fn random_ratio(rng: &mut ThreadRng, numerator: u32, denominator: u32) -> bool
    requires
        0 < denominator,
        numerator <= denominator,
{
    rng.gen_ratio(numerator, denominator)
}

} // verus!
