//! Reading orders: one order per line, written as `<coffee>,<water>,<foam>`.

use vstd::prelude::*;
use crate::dispenser::closed;
use crate::orders::Ingredients;
use crate::orders::Order;
use crate::orders::Orders;

verus! {

/// The byte that separates the fields of a line.
pub const COMMA: u8 = 44;

/// The sign that a number may start with.
pub const PLUS: u8 = 43;

/// The digit zero; the other digits follow it.
pub const ZERO: u8 = 48;

/// The error of the standard library's readers, which the proofs treat as
/// opaque: a line that could not be read carries one.
#[verifier::external_type_specification]
#[verifier::external_body]
pub struct ExIoError(std::io::Error);

/// Why a line gave no order.
#[derive(Debug)]
pub enum LineError {
    /// The line could not be read; the reader's error is handed on.
    Io(std::io::Error),
    /// The line is not three numbers that fit in one drink.
    InvalidData,
}

/// Whether `byte` is a decimal digit.
pub open spec fn is_digit(byte: u8) -> bool {
    ZERO <= byte <= ZERO + 9
}

/// Whether `bytes` holds decimal digits only.
pub open spec fn all_digits(bytes: Seq<u8>) -> bool {
    forall|i: int| 0 <= i < bytes.len() ==> is_digit(#[trigger] bytes[i])
}

/// The number that the decimal digits `digits` write.
pub open spec fn decimal_value(digits: Seq<u8>) -> nat
    decreases digits.len(),
{
    if digits.len() == 0 {
        0
    } else {
        decimal_value(digits.drop_last()) * 10 + (digits.last() - ZERO) as nat
    }
}

/// The digits of a field: the field without the plus sign that it may start
/// with.
pub open spec fn field_digits(field: Seq<u8>) -> Seq<u8> {
    if field.len() > 0 && field[0] == PLUS {
        field.subrange(1, field.len() as int)
    } else {
        field
    }
}

/// The number that a field writes: an optional plus sign, then at least one
/// decimal digit and nothing else, for a number that fits in 32 bits.
pub open spec fn field_value(field: Seq<u8>) -> Option<u32> {
    let digits = field_digits(field);
    if digits.len() > 0 && all_digits(digits) && decimal_value(digits) <= u32::MAX {
        Some(decimal_value(digits) as u32)
    } else {
        None
    }
}

/// Whether `line` holds exactly two commas, at `first` and at `second`.
pub open spec fn splits(line: Seq<u8>, first: int, second: int) -> bool {
    &&& 0 <= first < second < line.len()
    &&& forall|k: int|
        0 <= k < line.len() ==> (#[trigger] line[k] == COMMA <==> (k == first || k == second))
}

/// The order that a line with its commas at `first` and `second` writes: the
/// three fields are numbers, of which coffee and foam fit in one drink.
pub open spec fn fields_order(line: Seq<u8>, first: int, second: int) -> Option<Order> {
    match (
        field_value(line.subrange(0, first)),
        field_value(line.subrange(first + 1, second)),
        field_value(line.subrange(second + 1, line.len() as int)),
    ) {
        (Some(coffee), Some(water), Some(foam)) => if Order::accepts(coffee, foam) {
            Some(Order::Order(Ingredients { coffee, water, foam }))
        } else {
            None
        },
        _ => None,
    }
}

/// The order that `line` writes, if it writes one: three fields, separated by
/// two commas.
pub open spec fn line_order(line: Seq<u8>) -> Option<Order> {
    if exists|first: int, second: int| splits(line, first, second) {
        let (first, second) = choose|first: int, second: int| splits(line, first, second);
        fields_order(line, first, second)
    } else {
        None
    }
}

/// A line has its two commas in one place only.
pub proof fn lemma_splits_once(line: Seq<u8>, first: int, second: int)
    requires
        splits(line, first, second),
    ensures
        forall|i: int, j: int| splits(line, i, j) ==> i == first && j == second,
        line_order(line) == fields_order(line, first, second),
{
    assert forall|i: int, j: int| splits(line, i, j) implies i == first && j == second by {
        assert(line[i] == COMMA);
        assert(line[j] == COMMA);
    }
}

/// The digits read so far never write more than all of them do.
proof fn lemma_prefix_value(digits: Seq<u8>, n: int)
    requires
        0 <= n <= digits.len(),
    ensures
        decimal_value(digits.subrange(0, n)) <= decimal_value(digits),
    decreases digits.len() - n,
{
    if n == digits.len() {
        assert(digits.subrange(0, n) == digits);
    } else {
        lemma_prefix_value(digits, n + 1);
        assert(digits.subrange(0, n + 1).drop_last() == digits.subrange(0, n));
    }
}

/// Reads the field that `bytes` holds from `from` up to `to`.
fn parse_field(bytes: &[u8], from: usize, to: usize) -> (r: Option<u32>)
    requires
        from <= to <= bytes@.len(),
    ensures
        r == field_value(bytes@.subrange(from as int, to as int)),
{
    let ghost field = bytes@.subrange(from as int, to as int);
    let start: usize = if from < to && bytes[from] == PLUS {
        from + 1
    } else {
        from
    };
    let ghost digits = bytes@.subrange(start as int, to as int);
    assert(digits == field_digits(field));
    if start == to {
        return None;
    }
    let mut value: u64 = 0;
    let mut i: usize = start;
    while i < to
        invariant
            from <= start <= i <= to <= bytes@.len(),
            start < to,
            field == bytes@.subrange(from as int, to as int),
            digits == bytes@.subrange(start as int, to as int),
            digits == field_digits(field),
            all_digits(digits.subrange(0, i - start)),
            value == decimal_value(digits.subrange(0, i - start)),
            value <= u32::MAX,
        decreases to - i,
    {
        let byte = bytes[i];
        if byte < ZERO || byte > ZERO + 9 {
            assert(!is_digit(digits[i - start]));
            return None;
        }
        let next: u64 = value * 10 + (byte - ZERO) as u64;
        proof {
            assert(digits.subrange(0, i + 1 - start).drop_last() == digits.subrange(
                0,
                i - start,
            ));
            assert(digits.subrange(0, i + 1 - start).last() == byte);
            assert(next == decimal_value(digits.subrange(0, i + 1 - start)));
            assert forall|k: int| 0 <= k < i + 1 - start implies is_digit(
                #[trigger] digits.subrange(0, i + 1 - start)[k],
            ) by {
                if k < i - start {
                    assert(digits.subrange(0, i - start)[k] == digits[k]);
                }
            }
        }
        if next > u32::MAX as u64 {
            proof {
                lemma_prefix_value(digits, i + 1 - start);
            }
            return None;
        }
        value = next;
        i += 1;
    }
    assert(digits.subrange(0, i - start) == digits);
    Some(value as u32)
}

/// The order that a line of text writes, if it writes one: that of its bytes.
pub open spec fn text_order(text: Seq<char>) -> Option<Order> {
    line_order(vstd::utf8::encode_utf8(text))
}

/// What `parse_order` answers for a line of text.
pub open spec fn parsed(text: Seq<char>) -> Result<Order, LineError> {
    match text_order(text) {
        Some(order) => Ok(order),
        None => Err(LineError::InvalidData),
    }
}

/// Parses a line of text into an Order.
/// The correct format is: `<coffee:u32>,<water:u32>,<foam:u32>`
pub fn parse_order(line: &str) -> (r: Result<Order, LineError>)
    ensures
        r == parsed(line@),
{
    let bytes = line.as_bytes();
    let n = bytes.len();
    let mut count: usize = 0;
    let mut first: usize = 0;
    let mut second: usize = 0;
    let mut i: usize = 0;
    while i < n
        invariant
            i <= n == bytes@.len(),
            bytes@ == vstd::utf8::encode_utf8(line@),
            count <= 2,
            count == 0 ==> forall|k: int| 0 <= k < i ==> #[trigger] bytes@[k] != COMMA,
            count == 1 ==> first < i && forall|k: int|
                0 <= k < i ==> (#[trigger] bytes@[k] == COMMA <==> k == first),
            count == 2 ==> first < second < i && forall|k: int|
                0 <= k < i ==> (#[trigger] bytes@[k] == COMMA <==> (k == first || k == second)),
        decreases n - i,
    {
        if bytes[i] == COMMA {
            if count == 0 {
                first = i;
            } else if count == 1 {
                second = i;
            } else {
                proof {
                    assert forall|a: int, b: int| !splits(bytes@, a, b) by {
                        if splits(bytes@, a, b) {
                            assert(bytes@[first as int] == COMMA);
                            assert(bytes@[second as int] == COMMA);
                            assert(bytes@[i as int] == COMMA);
                        }
                    }
                }
                return Err(LineError::InvalidData);
            }
            count += 1;
        }
        i += 1;
    }
    if count != 2 {
        proof {
            assert forall|a: int, b: int| !splits(bytes@, a, b) by {
                if splits(bytes@, a, b) {
                    assert(bytes@[a] == COMMA);
                    assert(bytes@[b] == COMMA);
                }
            }
        }
        return Err(LineError::InvalidData);
    }
    proof {
        assert(splits(bytes@, first as int, second as int));
        lemma_splits_once(bytes@, first as int, second as int);
    }
    let coffee = parse_field(bytes, 0, first);
    let water = parse_field(bytes, first + 1, second);
    let foam = parse_field(bytes, second + 1, n);
    match (coffee, water, foam) {
        (Some(coffee), Some(water), Some(foam)) => match Order::from(coffee, water, foam) {
            Ok(order) => Ok(order),
            Err(_) => Err(LineError::InvalidData),
        },
        _ => Err(LineError::InvalidData),
    }
}

/// Parses a line into an Order.
/// Returns an error if there is no line or the line is not in the correct format.
/// The correct format is: `<coffee:u32>,<water:u32>,<foam:u32>`
pub fn parse_line(line: Result<String, std::io::Error>) -> (r: Result<Order, LineError>)
    ensures
        line matches Ok(text) ==> r == parsed(text@),
        line matches Err(error) ==> r == Err::<Order, LineError>(LineError::Io(error)),
{
    match line {
        Ok(text) => parse_order(text.as_str()),
        Err(error) => Err(LineError::Io(error)),
    }
}

/// The orders that the lines give, in the order of the lines. A line that
/// could not be read or that writes no order gives none.
pub open spec fn accepted(lines: Seq<Result<String, std::io::Error>>) -> Seq<Order>
    decreases lines.len(),
{
    if lines.len() == 0 {
        Seq::empty()
    } else {
        match lines.last() {
            Ok(text) => match text_order(text@) {
                Some(order) => accepted(lines.drop_last()).push(order),
                None => accepted(lines.drop_last()),
            },
            Err(_) => accepted(lines.drop_last()),
        }
    }
}

/// What the lines of an input put into the queue: the orders that they give,
/// then one `NoMoreOrders`.
pub open spec fn batch(lines: Seq<Result<String, std::io::Error>>) -> Seq<Order> {
    accepted(lines).push(Order::NoMoreOrders)
}

/// No line writes `NoMoreOrders`: what the lines give are orders to serve.
pub proof fn lemma_accepted_are_orders(lines: Seq<Result<String, std::io::Error>>)
    ensures
        forall|i: int| 0 <= i < accepted(lines).len() ==> #[trigger] accepted(lines)[i] is Order,
    decreases lines.len(),
{
    if lines.len() > 0 {
        lemma_accepted_are_orders(lines.drop_last());
    }
}

/// What the lines of an input put into the queue is a closed queue, whatever
/// the lines hold: orders to serve, then the one `NoMoreOrders`. It is from
/// such a queue that the dispensers are known to shut down.
pub proof fn law_batch_is_closed(lines: Seq<Result<String, std::io::Error>>)
    ensures
        closed(batch(lines)),
{
    lemma_accepted_are_orders(lines);
    assert forall|i: int| 0 <= i < batch(lines).len() - 1 implies #[trigger] batch(lines)[i]
        is Order by {
        assert(batch(lines)[i] == accepted(lines)[i]);
    }
}

/// Turns the lines of an input into what goes into the queue: the orders of
/// the lines that parse, then one `NoMoreOrders`.
pub fn read_orders(lines: &Vec<Result<String, std::io::Error>>) -> (orders: Vec<Order>)
    ensures
        orders@ == batch(lines@),
{
    let mut orders: Vec<Order> = Vec::new();
    let mut i: usize = 0;
    while i < lines.len()
        invariant
            i <= lines.len(),
            orders@ == accepted(lines@.subrange(0, i as int)),
        decreases lines.len() - i,
    {
        proof {
            assert(lines@.subrange(0, i + 1).drop_last() == lines@.subrange(0, i as int));
            assert(lines@.subrange(0, i + 1).last() == lines@[i as int]);
        }
        match &lines[i] {
            Ok(text) => match parse_order(text.as_str()) {
                Ok(order) => {
                    orders.push(order);
                },
                Err(_) => {},
            },
            Err(_) => {},
        }
        i += 1;
    }
    assert(lines@.subrange(0, i as int) == lines@);
    orders.push(Order::NoMoreOrders);
    orders
}

/// Takes orders from the lines of an input and puts them into the queue.
/// Pushes a `NoMoreOrders` order when finished.
pub fn take_orders_loop(lines: Vec<Result<String, std::io::Error>>, orders: &Orders) {
    let batch = read_orders(&lines);
    let mut i: usize = 0;
    while i < batch.len()
        invariant
            i <= batch.len(),
        decreases batch.len() - i,
    {
        orders.push(batch[i]);
        i += 1;
    }
}

} // verus!
