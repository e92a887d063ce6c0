//! Messages, numbers in text, and a cell that reminds of unwinding.

use vstd::prelude::*;
use vstd::string::*;

verus! {

/// What a caught panic carried.
#[derive(Clone, Debug, PartialEq, Eq)]
pub enum PanicPayload {
    /// The message of a panic without formatting arguments.
    Literal(&'static str),
    /// The message of a panic with formatting arguments.
    Formatted(String),
    /// A payload of any other type.
    Opaque,
}

/// Stands in for the message of a panic that carries none.
pub const OPAQUE_PANIC: &'static str = "(break on rust_panic to debug)";

/// The message of a panic.
pub open spec fn panic_message(payload: PanicPayload) -> Seq<char> {
    match payload {
        PanicPayload::Literal(message) => message@,
        PanicPayload::Formatted(message) => message@,
        PanicPayload::Opaque => OPAQUE_PANIC@,
    }
}

/// Describes a caught panic by its message.
pub fn describe_any(any: &PanicPayload) -> (description: String)
    ensures
        description@ == panic_message(*any),
{
    match any {
        PanicPayload::Literal(message) => (*message).to_owned(),
        PanicPayload::Formatted(message) => message.clone(),
        PanicPayload::Opaque => OPAQUE_PANIC.to_owned(),
    }
}

/// Two texts, one after the other.
pub(crate) fn concatenated(first: &str, second: &str) -> (text: String)
    ensures
        text@ == first@ + second@,
{
    let mut text: String = first.to_owned();
    text.append(second);
    text
}

/// Tells of an error by its message.
pub open spec fn error_message(message: Seq<char>) -> Seq<char> {
    "error: "@ + message
}

/// Tells of an error by its message.
pub fn error_text(message: &str) -> (text: String)
    ensures
        text@ == error_message(message@),
{
    concatenated("error: ", message)
}

/// The lower-case hexadecimal digit for `digit`.
pub open spec fn hex_digit(digit: int) -> char {
    if digit < 10 {
        (('0' as int) + digit) as char
    } else {
        (('a' as int) + digit - 10) as char
    }
}

/// `number` in lower-case hexadecimal, without leading zeros.
pub open spec fn hex(number: nat) -> Seq<char>
    decreases number,
{
    if number < 16 {
        seq![hex_digit(number as int)]
    } else {
        hex(number / 16).push(hex_digit((number % 16) as int))
    }
}

fn hex_digit_text(digit: usize) -> (text: &'static str)
    requires
        digit < 16,
    ensures
        text@ == seq![hex_digit(digit as int)],
{
    proof {
        reveal_strlit("0");
        reveal_strlit("1");
        reveal_strlit("2");
        reveal_strlit("3");
        reveal_strlit("4");
        reveal_strlit("5");
        reveal_strlit("6");
        reveal_strlit("7");
        reveal_strlit("8");
        reveal_strlit("9");
        reveal_strlit("a");
        reveal_strlit("b");
        reveal_strlit("c");
        reveal_strlit("d");
        reveal_strlit("e");
        reveal_strlit("f");
    }
    match digit {
        0 => "0",
        1 => "1",
        2 => "2",
        3 => "3",
        4 => "4",
        5 => "5",
        6 => "6",
        7 => "7",
        8 => "8",
        9 => "9",
        10 => "a",
        11 => "b",
        12 => "c",
        13 => "d",
        14 => "e",
        _ => "f",
    }
}

/// Writes `number` in lower-case hexadecimal.
pub fn hex_text(number: usize) -> (text: String)
    ensures
        text@ == hex(number as nat),
    decreases number,
{
    let last: &'static str = hex_digit_text(number % 16);
    if number < 16 {
        last.to_owned()
    } else {
        let mut text: String = hex_text(number / 16);
        text.append(last);
        text
    }
}

/// Different numbers are written differently.
pub proof fn hex_injective(a: nat, b: nat)
    requires
        hex(a) == hex(b),
    ensures
        a == b,
    decreases a,
{
    assert(hex(a).last() == hex_digit((a % 16) as int));
    assert(hex(b).last() == hex_digit((b % 16) as int));
    assert(a % 16 == b % 16);
    hex_not_empty(a / 16);
    hex_not_empty(b / 16);
    if a >= 16 && b >= 16 {
        assert(hex(a).drop_last() =~= hex(a / 16));
        assert(hex(b).drop_last() =~= hex(b / 16));
        hex_injective(a / 16, b / 16);
    }
}

proof fn hex_not_empty(number: nat)
    ensures
        hex(number).len() > 0,
{
}

/// A cell that asks its users to keep its value consistent at every point of an update.
///
/// An update that panics half-way leaves the value as it then is, so an update should do
/// no work that can panic. A shared borrow excludes every update for as long as it lives.
pub struct UnwindSafetyRefCell<T> {
    cell: T,
}

impl<T> View for UnwindSafetyRefCell<T> {
    type V = T;

    closed spec fn view(&self) -> T {
        self.cell
    }
}

impl<T> UnwindSafetyRefCell<T> {
    /// Creates a new cell containing `value`.
    pub fn new(value: T) -> (cell: Self)
        ensures
            cell@ == value,
    {
        UnwindSafetyRefCell { cell: value }
    }

    /// Immutably borrows the wrapped value.
    pub fn borrow(&self) -> (value: &T)
        ensures
            *value == self@,
    {
        &self.cell
    }

    /// Mutates the wrapped value.
    pub fn update<R, F: FnOnce(&mut T) -> R>(&mut self, f: F) -> (result: R)
        requires
            forall|value: &mut T| *value == old(self)@ ==> call_requires(f, (value,)),
        ensures
            exists|value: &mut T|
                *value == old(self)@ && *final(value) == final(self)@ && call_ensures(
                    f,
                    (value,),
                    result,
                ),
    {
        f(&mut self.cell)
    }

    /// Gets the address of the cell, opaquely.
    ///
    /// Meant as an identity: cells of some size that exist together differ in it. That is not
    /// stated, nor which number it is; both rest on the machine. It is the address of a place
    /// where the cell can be: it is not null, it is aligned, and the cell fits in behind it.
    pub fn as_address(&self) -> (address: usize)
        ensures
            address != 0,
            address as nat % vstd::layout::align_of::<Self>() == 0,
            address + vstd::layout::size_of::<Self>() <= usize::MAX + 1,
    {
        address_of(self)
    }
}

/// Wraps `core::ptr::from_ref`, and reads the address of the pointer it makes.
///
/// Claims that a reference is never null, that it is aligned for its type, and that what it
/// refers to does not reach beyond the end of the address space. The address itself rests on
/// the machine.
#[verifier::external_body]
fn address_of<T>(value: &T) -> (address: usize)
    ensures
        address != 0,
        address as nat % vstd::layout::align_of::<T>() == 0,
        address + vstd::layout::size_of::<T>() <= usize::MAX + 1,
{
    core::ptr::from_ref(value).addr()
}

/// The value of a hexadecimal digit, or a negative number for any other character.
pub open spec fn digit_value(digit: char) -> int {
    if '0' <= digit <= '9' {
        digit as int - '0' as int
    } else if 'a' <= digit <= 'f' {
        digit as int - 'a' as int + 10
    } else {
        -1
    }
}

/// The number that lower-case hexadecimal digits stand for, the first one counting most.
pub open spec fn hex_value(digits: Seq<char>) -> int
    decreases digits.len(),
{
    if digits.len() == 0 {
        0
    } else {
        16 * hex_value(digits.drop_last()) + digit_value(digits.last())
    }
}

/// A number that was written in hexadecimal is read back as itself. It is written with digits
/// only, and without a leading zero unless it is zero.
pub proof fn hex_reads_back(number: nat)
    ensures
        hex_value(hex(number)) == number,
        hex(number).len() > 0,
        forall|i: int|
            0 <= i < hex(number).len() ==> 0 <= digit_value(#[trigger] hex(number)[i]) < 16,
        digit_value(hex(number)[0]) == 0 ==> number == 0 && hex(number).len() == 1,
    decreases number,
{
    let digit = number % 16;
    assert(digit_value(hex_digit(digit as int)) == digit);
    assert(hex(number).last() == hex_digit(digit as int));
    if number >= 16 {
        hex_reads_back(number / 16);
        assert(hex(number).drop_last() =~= hex(number / 16));
        assert forall|i: int| 0 <= i < hex(number).len() implies 0 <= digit_value(
            #[trigger] hex(number)[i],
        ) < 16 by {
            if i < hex(number).len() - 1 {
                assert(hex(number)[i] == hex(number / 16)[i]);
            }
        }
        assert(hex(number)[0] == hex(number / 16)[0]);
    } else {
        assert(hex(number).drop_last() =~= Seq::<char>::empty());
        assert(hex_value(hex(number).drop_last()) == 0);
    }
}

/// A panic is described by the message that it carries, and by a fixed text if it carries none.
pub proof fn panics_are_described_by_what_they_carry(literal: &'static str, formatted: String)
    ensures
        panic_message(PanicPayload::Literal(literal)) == literal@,
        panic_message(PanicPayload::Formatted(formatted)) == formatted@,
        panic_message(PanicPayload::Opaque) == "(break on rust_panic to debug)"@,
{
}

/// What tells of an error is its message, whole, after a beginning of seven characters that
/// does not depend on it.
pub proof fn error_message_ends_with_its_message(message: Seq<char>)
    ensures
        error_message(message).take(7) == "error: "@,
        error_message(message).skip(7) == message,
{
    reveal_strlit("error: ");
    assert(error_message(message).take(7) =~= "error: "@);
    assert(error_message(message).skip(7) =~= message);
}

} // verus!
