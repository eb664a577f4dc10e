//! Console lines of bounded length.
//!
//! The console takes at most [`CAPACITY`] bytes at a time, terminator
//! included. A [`Line`] is text in a `heapless::String<64>`: writing to it
//! either fits or fails, and a failed write is told apart from every other
//! failure.

use crate::fatal::Fatal;
use std::str::FromStr;
use vstd::prelude::*;
use vstd::utf8::{encode_utf8, is_ascii_chars, is_ascii_chars_encode_utf8};

verus! {

/// Bytes that a line can hold.
pub const CAPACITY: usize = 64;

/// The greeting of the firmware.
pub const GREETING: &'static str = "Hello from Rust!";

/// Bytes that a text takes in a line: the length of its UTF-8 encoding.
pub open spec fn byte_len(text: Seq<char>) -> nat {
    encode_utf8(text).len()
}

/// Whether a line that holds `held` has room for `more` bytes.
pub open spec fn fits(held: Seq<char>, more: nat) -> bool {
    byte_len(held) + more <= CAPACITY
}

/// `heapless::String`, a string of fixed capacity. Nothing is known of a
/// value of it but what the functions below say.
#[verifier::external_type_specification]
#[verifier::external_body]
pub struct ExHeaplessString<const N: usize>(heapless::String<N>);

/// The text that a `heapless::String<64>` holds.
pub uninterp spec fn line_text(buffer: heapless::String<64>) -> Seq<char>;

/// `heapless::String::new`: a string that holds nothing.
#[verifier::external_body]
fn buffer_new() -> (buffer: heapless::String<64>)
    ensures
        line_text(buffer) == Seq::<char>::empty(),
{
    heapless::String::new()
}

/// `FromStr::from_str` of `heapless::String`: a string with the text of
/// `s` where its bytes fit into the capacity, and an error where they do not.
#[verifier::external_body]
fn buffer_from_str(s: &str) -> (r: Result<heapless::String<64>, ()>)
    ensures
        r is Ok <==> byte_len(s@) <= 64,
        r matches Ok(buffer) ==> line_text(buffer) == s@,
{
    heapless::String::from_str(s)
}

/// `heapless::String::push_str`: appends `s` where the bytes held and the
/// bytes of `s` together fit into the capacity; else it fails and leaves
/// the string as it was.
#[verifier::external_body]
fn buffer_push_str(buffer: &mut heapless::String<64>, s: &str) -> (r: Result<(), ()>)
    ensures
        r is Ok <==> byte_len(line_text(*old(buffer))) + byte_len(s@) <= 64,
        r is Ok ==> line_text(*final(buffer)) == line_text(*old(buffer)) + s@,
        r is Err ==> line_text(*final(buffer)) == line_text(*old(buffer)),
{
    buffer.push_str(s)
}

/// `heapless::String::push`: appends `c` where the bytes held and the
/// bytes of `c` together fit into the capacity; else it fails and leaves
/// the string as it was.
#[verifier::external_body]
fn buffer_push(buffer: &mut heapless::String<64>, c: char) -> (r: Result<(), ()>)
    ensures
        r is Ok <==> byte_len(line_text(*old(buffer))) + byte_len(seq![c]) <= 64,
        r is Ok ==> line_text(*final(buffer)) == line_text(*old(buffer)).push(c),
        r is Err ==> line_text(*final(buffer)) == line_text(*old(buffer)),
{
    buffer.push(c)
}

/// `heapless::String::as_str`: the text held, as a string slice. It never
/// takes more bytes than the capacity.
#[verifier::external_body]
fn buffer_as_str(buffer: &heapless::String<64>) -> (s: &str)
    ensures
        s@ == line_text(*buffer),
        byte_len(s@) <= 64,
{
    buffer.as_str()
}

/// The character of a decimal digit.
pub open spec fn digit(d: nat) -> char
    recommends
        d < 10,
{
    (48 + d) as char
}

/// A natural number in decimal, without leading zeros.
pub open spec fn decimal(n: nat) -> Seq<char>
    decreases n,
{
    if n < 10 {
        seq![digit(n)]
    } else {
        decimal(n / 10).push(digit(n % 10))
    }
}

/// An integer in decimal, with a minus sign where it is negative.
pub open spec fn signed_decimal(v: int) -> Seq<char> {
    if v < 0 {
        seq!['-'] + decimal((-v) as nat)
    } else {
        decimal(v as nat)
    }
}

/// What becomes of a write: the text of the line, or the failure.
pub open spec fn written(r: Result<Line, Fatal>) -> Result<Seq<char>, Fatal> {
    match r {
        Ok(line) => Ok(line@),
        Err(f) => Err(f),
    }
}

/// A message with the terminator that the console expects after it.
///
/// A message of more than [`CAPACITY`] bytes cannot be taken over at all;
/// one of exactly [`CAPACITY`] bytes leaves no room for the terminator.
pub open spec fn terminated(message: Seq<char>) -> Result<Seq<char>, Fatal> {
    if byte_len(message) > CAPACITY {
        Err(Fatal::PutsConversion)
    } else if byte_len(message) == CAPACITY {
        Err(Fatal::PutsOverflow)
    } else {
        Ok(message.push('\0'))
    }
}

/// A label followed by a number in decimal, where both fit into a line.
pub open spec fn labelled_text(label: Seq<char>, value: int) -> Result<Seq<char>, Fatal> {
    if fits(label, signed_decimal(value).len()) {
        Ok(label + signed_decimal(value))
    } else {
        Err(Fatal::BufferOverflow)
    }
}

/// A line of console text.
#[derive(Debug)]
pub struct Line {
    buffer: heapless::String<64>,
}

impl View for Line {
    type V = Seq<char>;

    closed spec fn view(&self) -> Seq<char> {
        line_text(self.buffer)
    }
}

impl Line {
    /// An empty line.
    pub fn new() -> (line: Line)
        ensures
            line@ == Seq::<char>::empty(),
    {
        Line { buffer: buffer_new() }
    }

    /// The text of the line.
    pub fn as_str(&self) -> (s: &str)
        ensures
            s@ == self@,
    {
        buffer_as_str(&self.buffer)
    }

    /// The bytes that the line holds.
    pub fn len(&self) -> (n: usize)
        ensures
            n == byte_len(self@),
            n <= CAPACITY,
    {
        buffer_as_str(&self.buffer).len()
    }

    /// Appends `s`, or fails and leaves the line as it was where `s` does
    /// not fit.
    pub fn push_str(&mut self, s: &str) -> (r: Result<(), Fatal>)
        ensures
            r == if fits(old(self)@, byte_len(s@)) {
                Ok::<(), Fatal>(())
            } else {
                Err::<(), Fatal>(Fatal::BufferOverflow)
            },
            final(self)@ == if fits(old(self)@, byte_len(s@)) {
                old(self)@ + s@
            } else {
                old(self)@
            },
    {
        match buffer_push_str(&mut self.buffer, s) {
            Ok(()) => Ok(()),
            Err(()) => Err(Fatal::BufferOverflow),
        }
    }

    /// Appends `c`, or fails and leaves the line as it was where `c` does
    /// not fit.
    pub fn push(&mut self, c: char) -> (r: Result<(), Fatal>)
        ensures
            r == if fits(old(self)@, byte_len(seq![c])) {
                Ok::<(), Fatal>(())
            } else {
                Err::<(), Fatal>(Fatal::BufferOverflow)
            },
            final(self)@ == if fits(old(self)@, byte_len(seq![c])) {
                old(self)@.push(c)
            } else {
                old(self)@
            },
    {
        match buffer_push(&mut self.buffer, c) {
            Ok(()) => Ok(()),
            Err(()) => Err(Fatal::BufferOverflow),
        }
    }

    /// Appends `value` in decimal, or fails and leaves the line as it was
    /// where the digits and the sign do not all fit.
    pub fn push_decimal(&mut self, value: i64) -> (r: Result<(), Fatal>)
        ensures
            r == if fits(old(self)@, signed_decimal(value as int).len()) {
                Ok::<(), Fatal>(())
            } else {
                Err::<(), Fatal>(Fatal::BufferOverflow)
            },
            final(self)@ == if fits(old(self)@, signed_decimal(value as int).len()) {
                old(self)@ + signed_decimal(value as int)
            } else {
                old(self)@
            },
    {
        let negative: bool = value < 0;
        let magnitude: u64 = if negative {
            (-(value + 1)) as u64 + 1
        } else {
            value as u64
        };
        let sign: usize = if negative {
            1
        } else {
            0
        };
        let digits: usize = decimal_len(magnitude);
        let held: usize = self.len();
        if CAPACITY - held < sign + digits {
            return Err(Fatal::BufferOverflow);
        }
        if negative {
            proof {
                lemma_byte_len_one('-');
                lemma_byte_len_concat(old(self)@, seq!['-']);
                assert(old(self)@.push('-') =~= old(self)@ + seq!['-']);
            }
            match buffer_push(&mut self.buffer, '-') {
                Ok(()) => {},
                Err(()) => {
                    return Err(Fatal::BufferOverflow);
                },
            }
        }
        match push_digits(&mut self.buffer, magnitude) {
            Ok(()) => Ok(()),
            Err(()) => Err(Fatal::BufferOverflow),
        }
    }
}

/// The number of digits of `n` in decimal.
fn decimal_len(n: u64) -> (len: usize)
    ensures
        len == decimal(n as nat).len(),
        1 <= len <= 20,
{
    proof {
        lemma_decimal_ascii(n as nat);
    }
    let mut len: usize = 1;
    let mut rest: u64 = n;
    while rest >= 10
        invariant
            decimal(n as nat).len() == decimal(rest as nat).len() + len - 1,
            decimal(n as nat).len() <= 20,
            decimal(rest as nat).len() >= 1,
            len >= 1,
        decreases rest,
    {
        proof {
            lemma_decimal_ascii((rest / 10) as nat);
        }
        rest = rest / 10;
        len = len + 1;
    }
    len
}

/// Appends the digits of `n`, most significant first.
fn push_digits(buffer: &mut heapless::String<64>, n: u64) -> (r: Result<(), ()>)
    requires
        byte_len(line_text(*old(buffer))) + decimal(n as nat).len() <= 64,
    ensures
        r is Ok,
        line_text(*final(buffer)) == line_text(*old(buffer)) + decimal(n as nat),
    decreases n,
{
    if n >= 10 {
        proof {
            lemma_decimal_ascii((n / 10) as nat);
        }
        match push_digits(buffer, n / 10) {
            Ok(()) => {},
            Err(()) => {
                return Err(());
            },
        }
    }
    let d: u8 = (n % 10) as u8;
    let c: char = (48u8 + d) as char;
    proof {
        let start = line_text(*old(buffer));
        let high = if n >= 10 {
            decimal((n / 10) as nat)
        } else {
            Seq::<char>::empty()
        };
        lemma_byte_len_one(c);
        lemma_byte_len_concat(start, high);
        lemma_decimal_ascii((n / 10) as nat);
    }
    buffer_push(buffer, c)
}

/// The message as the console takes it: with a terminator after it.
pub fn null_terminated(s: &str) -> (r: Result<Line, Fatal>)
    ensures
        written(r) == terminated(s@),
{
    match buffer_from_str(s) {
        Err(()) => Err(Fatal::PutsConversion),
        Ok(buffer) => {
            let mut buffer = buffer;
            proof {
                lemma_byte_len_one('\0');
            }
            match buffer_push(&mut buffer, '\0') {
                Ok(()) => Ok(Line { buffer }),
                Err(()) => Err(Fatal::PutsOverflow),
            }
        },
    }
}

/// A line made of a label and a number in decimal, as
/// `write!(line, "{}{}", label, value)` gives it.
pub fn labelled(label: &str, value: i64) -> (r: Result<Line, Fatal>)
    ensures
        written(r) == labelled_text(label@, value as int),
{
    let mut line = Line::new();
    proof {
        assert(byte_len(Seq::<char>::empty()) == 0);
        lemma_signed_decimal_ascii(value as int);
    }
    match line.push_str(label) {
        Ok(()) => {},
        Err(f) => {
            return Err(f);
        },
    }
    match line.push_decimal(value) {
        Ok(()) => Ok(line),
        Err(f) => Err(f),
    }
}

/// The bytes of two texts add up.
pub proof fn lemma_byte_len_concat(a: Seq<char>, b: Seq<char>)
    ensures
        byte_len(a + b) == byte_len(a) + byte_len(b),
    decreases a.len(),
{
    if a.len() > 0 {
        assert((a + b).drop_first() =~= a.drop_first() + b);
        lemma_byte_len_concat(a.drop_first(), b);
    }
}

/// A text of ASCII characters takes one byte for each.
pub proof fn lemma_byte_len_ascii(text: Seq<char>)
    requires
        is_ascii_chars(text),
    ensures
        byte_len(text) == text.len(),
{
    is_ascii_chars_encode_utf8(text);
}

proof fn lemma_byte_len_one(c: char)
    requires
        c <= '\u{7f}',
    ensures
        byte_len(seq![c]) == 1,
{
    lemma_byte_len_ascii(seq![c]);
}

/// Two ASCII texts make an ASCII text.
pub proof fn lemma_ascii_concat(a: Seq<char>, b: Seq<char>)
    requires
        is_ascii_chars(a),
        is_ascii_chars(b),
    ensures
        is_ascii_chars(a + b),
{
    assert forall|i: int| 0 <= i < (a + b).len() implies '\0' <= #[trigger] (a + b)[i]
        <= '\u{7f}' by {
        if i < a.len() {
        } else {
        }
    }
}

spec fn pow10(k: nat) -> nat
    decreases k,
{
    if k == 0 {
        1
    } else {
        10 * pow10((k - 1) as nat)
    }
}

proof fn lemma_decimal_len(n: nat, k: nat)
    requires
        k >= 1,
        n < pow10(k),
    ensures
        decimal(n).len() <= k,
    decreases k,
{
    reveal_with_fuel(pow10, 2);
    if n >= 10 {
        lemma_decimal_len(n / 10, (k - 1) as nat);
    }
}

/// A number in decimal is ASCII text of at least one digit, and of at
/// most 20 where the number fits in 64 bits.
pub proof fn lemma_decimal_ascii(n: nat)
    ensures
        is_ascii_chars(decimal(n)),
        byte_len(decimal(n)) == decimal(n).len(),
        decimal(n).len() >= 1,
        n <= u64::MAX ==> decimal(n).len() <= 20,
    decreases n,
{
    if n >= 10 {
        lemma_decimal_ascii(n / 10);
    }
    lemma_byte_len_ascii(decimal(n));
    if n <= u64::MAX {
        assert(u64::MAX < pow10(20)) by {
            reveal_with_fuel(pow10, 21);
        }
        lemma_decimal_len(n, 20);
    }
}

/// A 64-bit integer in decimal is ASCII text of 1 to 20 characters, sign
/// included, and one that fits in 32 bits without a sign takes at most 10.
pub proof fn lemma_signed_decimal_ascii(v: int)
    requires
        i64::MIN <= v <= i64::MAX,
    ensures
        is_ascii_chars(signed_decimal(v)),
        byte_len(signed_decimal(v)) == signed_decimal(v).len(),
        1 <= signed_decimal(v).len() <= 20,
        0 <= v <= u32::MAX ==> signed_decimal(v).len() <= 10,
{
    let magnitude: nat = if v < 0 {
        (-v) as nat
    } else {
        v as nat
    };
    lemma_decimal_ascii(magnitude);
    assert(i64::MAX < pow10(19) && u32::MAX < pow10(10)) by {
        reveal_with_fuel(pow10, 20);
    }
    lemma_decimal_len(magnitude, 19);
    if 0 <= v <= u32::MAX {
        lemma_decimal_len(magnitude, 10);
    }
    if v < 0 {
        lemma_ascii_concat(seq!['-'], decimal(magnitude));
    }
    lemma_byte_len_ascii(signed_decimal(v));
}

/// An ASCII text of fewer characters than a line has bytes is taken over
/// by the console as it is, with the terminator after it.
pub proof fn lemma_short_ascii_fits(message: Seq<char>)
    requires
        is_ascii_chars(message),
        message.len() < CAPACITY,
    ensures
        terminated(message) == Ok::<Seq<char>, Fatal>(message.push('\0')),
{
    lemma_byte_len_ascii(message);
}

/// An ASCII label of at most 43 characters and a 64-bit integer make a
/// line, and the console takes that line with the terminator after it.
pub proof fn lemma_labelled_fits(label: Seq<char>, value: int)
    requires
        is_ascii_chars(label),
        label.len() + 20 < CAPACITY,
        i64::MIN <= value <= i64::MAX,
    ensures
        is_ascii_chars(label + signed_decimal(value)),
        byte_len(label + signed_decimal(value)) == label.len() + signed_decimal(value).len(),
        labelled_text(label, value) == Ok::<Seq<char>, Fatal>(label + signed_decimal(value)),
        terminated(label + signed_decimal(value)) == Ok::<Seq<char>, Fatal>(
            (label + signed_decimal(value)).push('\0'),
        ),
{
    lemma_signed_decimal_ascii(value);
    lemma_ascii_concat(label, signed_decimal(value));
    lemma_byte_len_ascii(label);
    lemma_byte_len_ascii(label + signed_decimal(value));
}

/// The console takes the greeting.
pub proof fn lemma_greeting_fits()
    ensures
        terminated(GREETING@) == Ok::<Seq<char>, Fatal>(GREETING@.push('\0')),
{
    reveal_strlit("Hello from Rust!");
    lemma_short_ascii_fits(GREETING@);
}

} // verus!
