//! S-expressions: the notation in which a control's name spells an action.
//!
//! The text is read and written by the `lexpr` crate. The library keeps what
//! it needs of a value in a tree of its own, [`Sexp`].

use vstd::prelude::*;
use vstd::string::*;
use vstd::utf8::*;

verus! {

/// The longest text that is handed to the reader, in bytes: room for a chord
/// of several hundred keys.
pub const MAX_TEXT_BYTES: usize = 8192;

/// The most quote marks that a text handed to the reader may hold.
pub const MAX_QUOTE_MARKS: usize = 128;

/// The most digits that an exponent may have in a text handed to the reader.
pub const MAX_EXPONENT_DIGITS: usize = 9;

/// Whether `b` is an ASCII digit.
pub open spec fn is_digit(b: u8) -> bool {
    0x30 <= b <= 0x39
}

/// Whether `b` is one of the marks that quote what follows them: the
/// apostrophe, the backquote and the comma.
pub open spec fn is_quote_mark(b: u8) -> bool {
    b == 0x27 || b == 0x60 || b == 0x2c
}

/// How many quote marks stand among the first `n` of `bytes`.
pub open spec fn quote_marks(bytes: Seq<u8>, n: int) -> nat
    decreases n,
{
    if n <= 0 || n > bytes.len() {
        0
    } else if is_quote_mark(bytes[n - 1]) {
        1 + quote_marks(bytes, n - 1)
    } else {
        quote_marks(bytes, n - 1)
    }
}

/// How many ASCII digits stand in a row in `bytes` from position `i` on.
pub open spec fn digits_from(bytes: Seq<u8>, i: int) -> nat
    decreases bytes.len() - i,
{
    if 0 <= i < bytes.len() && is_digit(bytes[i]) {
        1 + digits_from(bytes, i + 1)
    } else {
        0
    }
}

/// Where the digits of an exponent begin whose letter stands at position `i`:
/// behind the letter and one sign, if there is a sign.
pub open spec fn exponent_start(bytes: Seq<u8>, i: int) -> int {
    if i + 1 < bytes.len() && (bytes[i + 1] == 0x2b || bytes[i + 1] == 0x2d) {
        i + 2
    } else {
        i + 1
    }
}

/// Whether an `e` or `E` stands at position `i` with more digits behind it
/// than an exponent may have.
pub open spec fn long_exponent_at(bytes: Seq<u8>, i: int) -> bool {
    &&& 0 <= i < bytes.len()
    &&& (bytes[i] == 0x65 || bytes[i] == 0x45)
    &&& digits_from(bytes, exponent_start(bytes, i)) > MAX_EXPONENT_DIGITS
}

/// Whether a text may be handed to the reader. Three things are asked of it,
/// each for a reason of its own.
///
/// - It is no longer than [`MAX_TEXT_BYTES`]. The reader's values are walked
///   and dropped by a function that calls itself once for each item of a
///   list, so that the length of a list is bounded by the stack; a text this
///   short holds no list that a stack of the usual size cannot take.
/// - It holds no more than [`MAX_QUOTE_MARKS`] quote marks. The reader calls
///   itself once for each quote mark in a row, and bounds the depth of lists
///   and vectors but not that of quotes.
/// - Nothing in it can be taken for a number with an exponent of more than
///   [`MAX_EXPONENT_DIGITS`] digits. On such an exponent the reader's
///   arithmetic overflows.
pub open spec fn is_readable(text: Seq<char>) -> bool {
    let bytes = encode_utf8(text);
    &&& bytes.len() <= MAX_TEXT_BYTES
    &&& quote_marks(bytes, bytes.len() as int) <= MAX_QUOTE_MARKS
    &&& forall|i: int| !long_exponent_at(bytes, i)
}

/// An S-expression, as far as the library looks into one.
#[derive(Debug, PartialEq, Eq)]
pub enum Sexp {
    /// The empty list.
    Null,
    /// A symbol.
    Symbol(String),
    /// A number: its value if it is a whole number from 0 to `u64::MAX`.
    Number(Option<u64>),
    /// A pair. A list is a chain of pairs that ends in `Null`.
    Cons(Box<Sexp>, Box<Sexp>),
    /// A vector.
    Vector(Vec<Sexp>),
    /// Any other value: a string, a character, a boolean, and the like.
    Other,
}

/// The mathematical value of a [`Sexp`].
pub ghost enum SexpView {
    Null,
    Symbol(Seq<char>),
    Number(Option<u64>),
    Cons(Box<SexpView>, Box<SexpView>),
    Vector(Seq<SexpView>),
    Other,
}

/// The mathematical value of `s`.
pub open spec fn sexp_view(s: Sexp) -> SexpView
    decreases s,
{
    match s {
        Sexp::Null => SexpView::Null,
        Sexp::Symbol(name) => SexpView::Symbol(name@),
        Sexp::Number(n) => SexpView::Number(n),
        Sexp::Cons(head, rest) => SexpView::Cons(
            Box::new(sexp_view(*head)),
            Box::new(sexp_view(*rest)),
        ),
        Sexp::Vector(items) => SexpView::Vector(
            Seq::new(
                items.len() as nat,
                |i: int|
                    if 0 <= i < items.len() {
                        sexp_view(items[i])
                    } else {
                        SexpView::Other
                    },
            ),
        ),
        Sexp::Other => SexpView::Other,
    }
}

impl View for Sexp {
    type V = SexpView;

    open spec fn view(&self) -> SexpView {
        sexp_view(*self)
    }
}

impl SexpView {
    /// Whether the value is made of symbols, whole numbers, pairs, vectors
    /// and empty lists alone. Such a value is known in full, and can be
    /// written out.
    pub open spec fn is_exact(self) -> bool
        decreases self,
    {
        match self {
            SexpView::Null => true,
            SexpView::Symbol(_) => true,
            SexpView::Number(n) => n is Some,
            SexpView::Cons(head, rest) => head.is_exact() && rest.is_exact(),
            SexpView::Vector(items) => forall|i: int|
                0 <= i < items.len() ==> (#[trigger] items[i]).is_exact(),
            SexpView::Other => false,
        }
    }
}

/// `lexpr::Value`, the S-expression as `lexpr` holds it. Nothing inside it is
/// visible here.
#[verifier::external_type_specification]
#[verifier::external_body]
pub struct ExValue(lexpr::Value);

/// What a `lexpr::Value` holds, as far as the library looks into one.
pub uninterp spec fn value_shape(v: lexpr::Value) -> SexpView;

/// What `lexpr::from_str` makes of a text: the value it reads, or `None`
/// where it reports an error.
pub uninterp spec fn parsed_text(text: Seq<char>) -> Option<SexpView>;

/// What `lexpr::to_string` writes for a value: the text, or `None` where it
/// reports an error.
pub uninterp spec fn printed_shape(shape: SexpView) -> Option<Seq<char>>;

/// Calls `lexpr::from_str`, which reads one S-expression from a text with the
/// default options. The contract names the outcome [`parsed_text`] and claims
/// no more of it. It leaves out the texts that are not readable: on an
/// exponent of ten digits the reader's arithmetic can overflow, and on a long
/// row of quote marks or a long list the reader, or the drop of what it read,
/// can use up the stack.
#[verifier::external_body]
pub(crate) fn parse_value(text: &str) -> (r: Option<lexpr::Value>)
    requires
        is_readable(text@),
    ensures
        parsed_text(text@) == match r {
            Some(v) => Some(value_shape(v)),
            None => None,
        },
{
    lexpr::from_str(text).ok()
}

/// Copies a `lexpr::Value` into a [`Sexp`], variant by variant. For a number
/// it keeps what `lexpr::Number::as_u64` returns. The contract gives the
/// copy's value the name [`value_shape`].
#[verifier::external_body]
pub(crate) fn read_value(v: &lexpr::Value) -> (s: Sexp)
    ensures
        s@ == value_shape(*v),
{
    match v {
        lexpr::Value::Null => Sexp::Null,
        lexpr::Value::Symbol(name) => Sexp::Symbol(name.to_string()),
        lexpr::Value::Number(n) => Sexp::Number(n.as_u64()),
        lexpr::Value::Cons(pair) => Sexp::Cons(
            Box::new(read_value(pair.car())),
            Box::new(read_value(pair.cdr())),
        ),
        lexpr::Value::Vector(items) => Sexp::Vector(items.iter().map(read_value).collect()),
        _ => Sexp::Other,
    }
}

/// Builds the `lexpr::Value` that a [`Sexp`] stands for, variant by variant,
/// with `lexpr::Value::symbol`, `lexpr::Value::from` on a `u64`,
/// `lexpr::Value::cons` and `lexpr::Value::from` on a `Vec`. The contract
/// claims that the value holds what the [`Sexp`] holds, and leaves out what a
/// [`Sexp`] does not hold in full.
#[verifier::external_body]
pub(crate) fn build_value(s: &Sexp) -> (v: lexpr::Value)
    requires
        s@.is_exact(),
    ensures
        value_shape(v) == s@,
{
    match s {
        Sexp::Symbol(name) => lexpr::Value::symbol(name.as_str()),
        Sexp::Number(n) => lexpr::Value::from(n.unwrap_or_default()),
        Sexp::Cons(head, rest) => lexpr::Value::cons(build_value(head), build_value(rest)),
        Sexp::Vector(items) => lexpr::Value::from(items.iter().map(build_value).collect::<Vec<_>>()),
        _ => lexpr::Value::Null,
    }
}

/// Calls `lexpr::to_string`, which writes a value as text with the default
/// options. The contract names the outcome [`printed_shape`] and claims no
/// more of it; in particular it does not claim that a text is returned, since
/// `lexpr` hands on whatever error the standard library's writer into a
/// vector reports. It leaves out the values that are not known in full, of
/// which two that look alike here may be written differently.
#[verifier::external_body]
pub(crate) fn print_value(v: &lexpr::Value) -> (r: Option<String>)
    requires
        value_shape(*v).is_exact(),
    ensures
        printed_shape(value_shape(*v)) == match r {
            Some(text) => Some(text@),
            None => None,
        },
{
    lexpr::to_string(v).ok()
}

/// Whether more than `n` digits stand in a row in `bytes` from `start` on.
fn more_digits_than(bytes: &[u8], start: usize, n: usize) -> (r: bool)
    requires
        start <= bytes@.len(),
    ensures
        r == (digits_from(bytes@, start as int) > n),
{
    let mut k: usize = 0;
    while k <= n && k < bytes.len() - start && 0x30 <= bytes[start + k] && bytes[start + k] <= 0x39
        invariant
            start <= bytes@.len(),
            k <= n + 1,
            k <= bytes@.len() - start,
            digits_from(bytes@, start as int) == k + digits_from(bytes@, start + k),
        decreases n + 1 - k,
    {
        k += 1;
    }
    k > n
}

/// Computes [`is_readable`].
pub fn readable(text: &str) -> (r: bool)
    ensures
        r == is_readable(text@),
{
    let bytes = text.as_bytes();
    if bytes.len() > MAX_TEXT_BYTES {
        return false;
    }
    let mut marks: usize = 0;
    let mut long_exponent: bool = false;
    let mut i: usize = 0;
    while i < bytes.len()
        invariant
            i <= bytes@.len(),
            bytes@ == encode_utf8(text@),
            bytes@.len() <= MAX_TEXT_BYTES,
            marks == quote_marks(bytes@, i as int),
            marks <= i,
            long_exponent == exists|j: int| 0 <= j < i && long_exponent_at(bytes@, j),
        decreases bytes@.len() - i,
    {
        if bytes[i] == 0x27 || bytes[i] == 0x60 || bytes[i] == 0x2c {
            marks += 1;
        }
        if bytes[i] == 0x65 || bytes[i] == 0x45 {
            let signed: bool = i + 1 < bytes.len() && (bytes[i + 1] == 0x2b || bytes[i + 1] == 0x2d);
            let start: usize = if signed {
                i + 2
            } else {
                i + 1
            };
            if more_digits_than(bytes, start, MAX_EXPONENT_DIGITS) {
                assert(long_exponent_at(bytes@, i as int));
                long_exponent = true;
            }
        }
        i += 1;
    }
    marks <= MAX_QUOTE_MARKS && !long_exponent
}

} // verus!
