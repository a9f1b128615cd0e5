//! The names of controls, and the actions they spell.
//!
//! A control that stands for a mouse button is named by the button, written
//! as an S-expression: a symbol, or for a numbered button a pair of the symbol
//! `OtherButton` and the number. A control that stands for a key chord is
//! named by the list of its keys, each written the same way. The control that
//! switches scroll mode has a name of its own.

use crate::keys::{
    button_symbol, key_symbol, lemma_button_marks, lemma_key_marks, lemma_symbol_endings,
    plain_button_named, plain_key_named, KeybdKey, MouseButton,
};
use crate::sexp::{
    build_value, is_readable, parse_value, parsed_text, print_value, printed_shape, read_value,
    readable, sexp_view, Sexp, SexpView,
};
use crate::text::str_eq;
use vstd::prelude::*;

verus! {

/// What a button's control stands for.
#[derive(Clone, Debug, PartialEq, Eq)]
pub enum ActionDescriptor {
    /// One mouse button.
    PointerMouseButton(MouseButton),
    /// The switch between cursor motion and scrolling.
    ScrollModeToggle,
    /// Keys to press together, in this order.
    KeyChord(Vec<KeybdKey>),
}

/// The mathematical value of an [`ActionDescriptor`].
pub ghost enum DescriptorView {
    PointerMouseButton(MouseButton),
    ScrollModeToggle,
    KeyChord(Seq<KeybdKey>),
}

impl View for ActionDescriptor {
    type V = DescriptorView;

    open spec fn view(&self) -> DescriptorView {
        match self {
            ActionDescriptor::PointerMouseButton(b) => DescriptorView::PointerMouseButton(*b),
            ActionDescriptor::ScrollModeToggle => DescriptorView::ScrollModeToggle,
            ActionDescriptor::KeyChord(keys) => DescriptorView::KeyChord(keys@),
        }
    }
}

/// The name of the control that switches scroll mode.
pub open spec fn scroll_toggle_name() -> Seq<char> {
    "S"@
}

/// The name of the control that switches scroll mode.
pub fn scroll_toggle_token() -> (r: &'static str)
    ensures
        r@ == scroll_toggle_name(),
{
    "S"
}

/// The mouse button that a value spells: a symbol spells the button of that
/// name; a pair whose head is such a symbol spells it too, whatever follows;
/// a pair of `OtherButton` and a whole number that fits 32 bits spells the
/// button of that number.
pub open spec fn button_of(shape: SexpView) -> Option<MouseButton> {
    match shape {
        SexpView::Symbol(name) => plain_button_named(name),
        SexpView::Cons(head, rest) => match *head {
            SexpView::Symbol(name) => if plain_button_named(name) is Some {
                plain_button_named(name)
            } else if name == "OtherButton"@ {
                match *rest {
                    SexpView::Number(Some(n)) => if n <= u32::MAX {
                        Some(MouseButton::OtherButton(n as u32))
                    } else {
                        None
                    },
                    _ => None,
                }
            } else {
                None
            },
            _ => None,
        },
        _ => None,
    }
}

/// The key that a value spells, by the same rules as [`button_of`], with
/// `OtherKey` and a whole number that fits 64 bits.
pub open spec fn key_of(shape: SexpView) -> Option<KeybdKey> {
    match shape {
        SexpView::Symbol(name) => plain_key_named(name),
        SexpView::Cons(head, rest) => match *head {
            SexpView::Symbol(name) => if plain_key_named(name) is Some {
                plain_key_named(name)
            } else if name == "OtherKey"@ {
                match *rest {
                    SexpView::Number(Some(n)) => Some(KeybdKey::OtherKey(n)),
                    _ => None,
                }
            } else {
                None
            },
            _ => None,
        },
        _ => None,
    }
}

/// The keys that a list spells: every item must spell a key, and the list
/// must end properly.
pub open spec fn keys_of_list(shape: SexpView) -> Option<Seq<KeybdKey>>
    decreases shape,
{
    match shape {
        SexpView::Null => Some(Seq::empty()),
        SexpView::Cons(head, rest) => match (key_of(*head), keys_of_list(*rest)) {
            (Some(k), Some(ks)) => Some(seq![k] + ks),
            _ => None,
        },
        _ => None,
    }
}

/// The keys that the items of a vector spell: every item must spell a key.
pub open spec fn keys_of_items(items: Seq<SexpView>) -> Option<Seq<KeybdKey>> {
    if forall|i: int| 0 <= i < items.len() ==> key_of(#[trigger] items[i]) is Some {
        Some(Seq::new(items.len(), |i: int| key_of(items[i])->0))
    } else {
        None
    }
}

/// The key chord that a value spells: a list or a vector of keys.
pub open spec fn keys_of(shape: SexpView) -> Option<Seq<KeybdKey>> {
    match shape {
        SexpView::Vector(items) => keys_of_items(items),
        _ => keys_of_list(shape),
    }
}

/// What a control's name stands for, given what the reader made of the name.
/// The first of these that applies decides: the name spells a mouse button;
/// it is the scroll switch's name; it spells a key chord. If none applies the
/// name stands for nothing.
pub open spec fn decode(name: Seq<char>, parsed: Option<SexpView>) -> Option<DescriptorView> {
    if parsed is Some && button_of(parsed->0) is Some {
        Some(DescriptorView::PointerMouseButton(button_of(parsed->0)->0))
    } else if name == scroll_toggle_name() {
        Some(DescriptorView::ScrollModeToggle)
    } else if parsed is Some && keys_of(parsed->0) is Some {
        Some(DescriptorView::KeyChord(keys_of(parsed->0)->0))
    } else {
        None
    }
}

/// What the reader makes of a name: nothing, if the name is not fit to be
/// read, which is a name too long, or with too many quote marks, for the
/// reader's recursion, or with an exponent on which its arithmetic overflows.
pub open spec fn reading(name: Seq<char>) -> Option<SexpView> {
    if is_readable(name) {
        parsed_text(name)
    } else {
        None
    }
}

/// What a control's name stands for.
pub open spec fn decode_text(name: Seq<char>) -> Option<DescriptorView> {
    decode(name, reading(name))
}

/// The mathematical value of an optional descriptor.
pub open spec fn descriptor_view(d: Option<ActionDescriptor>) -> Option<DescriptorView> {
    match d {
        Some(d) => Some(d@),
        None => None,
    }
}

/// The mathematical value of an optional S-expression.
pub open spec fn optional_view(s: Option<Sexp>) -> Option<SexpView> {
    match s {
        Some(s) => Some(s@),
        None => None,
    }
}

/// The value that spells a mouse button.
pub open spec fn sexp_of_button(b: MouseButton) -> SexpView {
    match b {
        MouseButton::OtherButton(n) => SexpView::Cons(
            Box::new(SexpView::Symbol(button_symbol(b))),
            Box::new(SexpView::Number(Some(n as u64))),
        ),
        _ => SexpView::Symbol(button_symbol(b)),
    }
}

/// The value that spells a key.
pub open spec fn sexp_of_key(k: KeybdKey) -> SexpView {
    match k {
        KeybdKey::OtherKey(n) => SexpView::Cons(
            Box::new(SexpView::Symbol(key_symbol(k))),
            Box::new(SexpView::Number(Some(n))),
        ),
        _ => SexpView::Symbol(key_symbol(k)),
    }
}

/// The list that spells a key chord.
pub open spec fn sexp_of_keys(keys: Seq<KeybdKey>) -> SexpView
    decreases keys.len(),
{
    if keys.len() == 0 {
        SexpView::Null
    } else {
        SexpView::Cons(
            Box::new(sexp_of_key(keys[0])),
            Box::new(sexp_of_keys(keys.drop_first())),
        )
    }
}

/// Computes [`button_of`].
pub fn button_from_sexp(s: &Sexp) -> (r: Option<MouseButton>)
    ensures
        r == button_of(s@),
{
    reveal_with_fuel(sexp_view, 2);
    match s {
        Sexp::Symbol(name) => MouseButton::from_symbol(name.as_str()),
        Sexp::Cons(head, rest) => match &**head {
            Sexp::Symbol(name) => {
                let plain = MouseButton::from_symbol(name.as_str());
                if plain.is_some() {
                    plain
                } else if str_eq(name.as_str(), "OtherButton") {
                    match &**rest {
                        Sexp::Number(Some(n)) => if *n <= 0xffff_ffff {
                            Some(MouseButton::OtherButton(*n as u32))
                        } else {
                            None
                        },
                        _ => None,
                    }
                } else {
                    None
                }
            },
            _ => None,
        },
        _ => None,
    }
}

/// Computes [`key_of`].
pub fn key_from_sexp(s: &Sexp) -> (r: Option<KeybdKey>)
    ensures
        r == key_of(s@),
{
    reveal_with_fuel(sexp_view, 2);
    match s {
        Sexp::Symbol(name) => KeybdKey::from_symbol(name.as_str()),
        Sexp::Cons(head, rest) => match &**head {
            Sexp::Symbol(name) => {
                let plain = KeybdKey::from_symbol(name.as_str());
                if plain.is_some() {
                    plain
                } else if str_eq(name.as_str(), "OtherKey") {
                    match &**rest {
                        Sexp::Number(Some(n)) => Some(KeybdKey::OtherKey(*n)),
                        _ => None,
                    }
                } else {
                    None
                }
            },
            _ => None,
        },
        _ => None,
    }
}

/// What [`keys_of_list`] gives for a list whose first keys are `front` and
/// whose remainder spells `back`.
pub open spec fn joined(front: Seq<KeybdKey>, back: Option<Seq<KeybdKey>>) -> Option<
    Seq<KeybdKey>,
> {
    match back {
        Some(ks) => Some(front + ks),
        None => None,
    }
}

/// Computes [`keys_of`].
pub fn keys_from_sexp(s: &Sexp) -> (r: Option<Vec<KeybdKey>>)
    ensures
        r is Some == keys_of(s@) is Some,
        r is Some ==> r->0@ == keys_of(s@)->0,
{
    let mut keys: Vec<KeybdKey> = Vec::new();
    if let Sexp::Vector(items) = s {
        let mut i: usize = 0;
        while i < items.len()
            invariant
                i <= items.len(),
                s@ == SexpView::Vector(s@->Vector_0),
                s@->Vector_0.len() == items.len(),
                forall|j: int| 0 <= j < items.len() ==> s@->Vector_0[j] == items[j]@,
                keys@.len() == i,
                forall|j: int|
                    0 <= j < i ==> key_of(#[trigger] s@->Vector_0[j]) == Some(keys@[j]),
            decreases items.len() - i,
        {
            match key_from_sexp(&items[i]) {
                Some(k) => keys.push(k),
                None => {
                    assert(key_of(s@->Vector_0[i as int]) is None);
                    return None;
                },
            }
            i += 1;
        }
        assert(keys@ =~= keys_of_items(s@->Vector_0)->0);
        return Some(keys);
    }
    let mut cur: &Sexp = s;
    loop
        invariant
            !(s@ is Vector),
            keys_of_list(s@) == joined(keys@, keys_of_list(cur@)),
        decreases cur@,
    {
        match cur {
            Sexp::Null => {
                assert(keys@ + Seq::<KeybdKey>::empty() =~= keys@);
                return Some(keys);
            },
            Sexp::Cons(head, rest) => {
                match key_from_sexp(head) {
                    Some(k) => {
                        let ghost before = keys@;
                        keys.push(k);
                        proof {
                            let back = keys_of_list(rest@);
                            if back is Some {
                                assert(before + (seq![k] + back->0) =~= keys@ + back->0);
                            }
                        }
                        cur = rest;
                    },
                    None => {
                        return None;
                    },
                }
            },
            _ => {
                return None;
            },
        }
    }
}

/// Decodes a control's name, given what the reader made of it.
///
/// The outcome is a mouse button if the value spells one; else the scroll
/// switch if the name is the switch's name; else a key chord if the value
/// spells one; else `None`.
pub fn decode_parsed(name: &str, parsed: Option<&Sexp>) -> (r: Option<ActionDescriptor>)
    ensures
        descriptor_view(r) == decode(
            name@,
            match parsed {
                Some(s) => Some(s@),
                None => None,
            },
        ),
{
    if let Some(s) = parsed {
        if let Some(b) = button_from_sexp(s) {
            return Some(ActionDescriptor::PointerMouseButton(b));
        }
    }
    if str_eq(name, scroll_toggle_token()) {
        return Some(ActionDescriptor::ScrollModeToggle);
    }
    if let Some(s) = parsed {
        if let Some(keys) = keys_from_sexp(s) {
            return Some(ActionDescriptor::KeyChord(keys));
        }
    }
    None
}

/// Reads a name as an S-expression, if it is fit to be read and is one.
pub fn read_name(name: &str) -> (r: Option<Sexp>)
    ensures
        optional_view(r) == reading(name@),
{
    if !readable(name) {
        return None;
    }
    match parse_value(name) {
        Some(v) => Some(read_value(&v)),
        None => None,
    }
}

/// Decodes a control's name: reads it, then decides as [`decode_parsed`]
/// does.
///
/// A name that is not fit to be read is not handed to the reader, and is
/// decoded as one that the reader rejects. A name is fit if it has no more
/// than [`crate::sexp::MAX_TEXT_BYTES`] bytes and
/// [`crate::sexp::MAX_QUOTE_MARKS`] quote marks, which keeps the reader's
/// recursion, one call for each item of a list and for each quote mark, within
/// the stack, and if no exponent in it has more than
/// [`crate::sexp::MAX_EXPONENT_DIGITS`] digits, on which the reader's
/// arithmetic would overflow.
pub fn decode_name(name: &str) -> (r: Option<ActionDescriptor>)
    ensures
        descriptor_view(r) == decode_text(name@),
{
    let parsed = read_name(name);
    decode_parsed(name, parsed.as_ref())
}

/// Builds the value that spells a mouse button.
pub fn button_sexp(b: MouseButton) -> (s: Sexp)
    ensures
        s@ == sexp_of_button(b),
        s@.is_exact(),
{
    reveal_with_fuel(sexp_view, 2);
    reveal_with_fuel(SexpView::is_exact, 2);
    match b {
        MouseButton::OtherButton(n) => Sexp::Cons(
            Box::new(Sexp::Symbol(b.symbol().to_owned())),
            Box::new(Sexp::Number(Some(n as u64))),
        ),
        _ => Sexp::Symbol(b.symbol().to_owned()),
    }
}

/// Builds the value that spells a key.
pub fn key_sexp(k: KeybdKey) -> (s: Sexp)
    ensures
        s@ == sexp_of_key(k),
        s@.is_exact(),
{
    reveal_with_fuel(sexp_view, 2);
    reveal_with_fuel(SexpView::is_exact, 2);
    match k {
        KeybdKey::OtherKey(n) => Sexp::Cons(
            Box::new(Sexp::Symbol(k.symbol().to_owned())),
            Box::new(Sexp::Number(Some(n))),
        ),
        _ => Sexp::Symbol(k.symbol().to_owned()),
    }
}

/// Builds the list that spells a key chord.
pub fn keys_sexp(keys: &Vec<KeybdKey>) -> (s: Sexp)
    ensures
        s@ == sexp_of_keys(keys@),
        s@.is_exact(),
{
    let mut list: Sexp = Sexp::Null;
    let mut i: usize = keys.len();
    assert(keys@.subrange(i as int, keys@.len() as int) =~= Seq::<KeybdKey>::empty());
    while i > 0
        invariant
            i <= keys@.len(),
            list@ == sexp_of_keys(keys@.subrange(i as int, keys@.len() as int)),
            list@.is_exact(),
        decreases i,
    {
        i -= 1;
        let head = key_sexp(keys[i]);
        proof {
            let longer = keys@.subrange(i as int, keys@.len() as int);
            assert(longer.drop_first() =~= keys@.subrange(i + 1, keys@.len() as int));
            assert(longer[0] == keys@[i as int]);
        }
        list = Sexp::Cons(Box::new(head), Box::new(list));
    }
    assert(keys@.subrange(0, keys@.len() as int) =~= keys@);
    list
}

/// Writes a value as text.
fn write_sexp(s: &Sexp) -> (r: Option<String>)
    requires
        s@.is_exact(),
    ensures
        r is Some == printed_shape(s@) is Some,
        r is Some ==> r->0@ == printed_shape(s@)->0,
{
    let v = build_value(s);
    print_value(&v)
}

/// The name of a control that stands for the mouse button `b`, or `None` if
/// the writer reports an error.
pub fn encode_button(b: MouseButton) -> (r: Option<String>)
    ensures
        r is Some == printed_shape(sexp_of_button(b)) is Some,
        r is Some ==> r->0@ == printed_shape(sexp_of_button(b))->0,
{
    let s = button_sexp(b);
    write_sexp(&s)
}

/// The name of a control that stands for the key chord `keys`, or `None` if
/// the writer reports an error.
pub fn encode_keys(keys: &Vec<KeybdKey>) -> (r: Option<String>)
    ensures
        r is Some == printed_shape(sexp_of_keys(keys@)) is Some,
        r is Some ==> r->0@ == printed_shape(sexp_of_keys(keys@))->0,
{
    let s = keys_sexp(keys);
    write_sexp(&s)
}

/// The value that spells a button spells that button.
pub proof fn law_button_round_trip(b: MouseButton)
    ensures
        button_of(sexp_of_button(b)) == Some(b),
{
    lemma_button_marks();
}

/// The value that spells a key spells that key.
pub proof fn law_key_round_trip(k: KeybdKey)
    ensures
        key_of(sexp_of_key(k)) == Some(k),
{
    lemma_key_marks();
}

/// The list that spells a key chord spells that chord, key for key and in the
/// same order.
pub proof fn law_keys_round_trip(keys: Seq<KeybdKey>)
    ensures
        keys_of(sexp_of_keys(keys)) == Some(keys),
    decreases keys.len(),
{
    if keys.len() > 0 {
        law_key_round_trip(keys[0]);
        law_keys_round_trip(keys.drop_first());
        assert(seq![keys[0]] + keys.drop_first() =~= keys);
    }
}

/// No list of keys spells a mouse button, so a key chord is never taken for
/// one.
pub proof fn law_chord_is_no_button(keys: Seq<KeybdKey>)
    ensures
        button_of(sexp_of_keys(keys)) is None,
{
    if keys.len() > 0 {
        lemma_symbol_endings(key_symbol(keys[0]));
        law_key_round_trip(keys[0]);
        lemma_key_marks();
    }
}

/// A name whose value was built for a mouse button decodes to that button,
/// and one whose value was built for a key chord decodes to that chord,
/// unless the name is the scroll switch's.
pub proof fn law_decode_inverts_encode(name: Seq<char>, b: MouseButton, keys: Seq<KeybdKey>)
    ensures
        decode(name, Some(sexp_of_button(b))) == Some(DescriptorView::PointerMouseButton(b)),
        name != scroll_toggle_name() ==> decode(name, Some(sexp_of_keys(keys))) == Some(
            DescriptorView::KeyChord(keys),
        ),
{
    law_button_round_trip(b);
    law_keys_round_trip(keys);
    law_chord_is_no_button(keys);
}

/// Every name has exactly one outcome: a mouse button, the scroll switch, a
/// key chord, or nothing.
pub proof fn law_decode_is_total(name: Seq<char>, parsed: Option<SexpView>)
    ensures
        ({
            let d = decode(name, parsed);
            let button = d is Some && d->0 is PointerMouseButton;
            let switch = d is Some && d->0 is ScrollModeToggle;
            let chord = d is Some && d->0 is KeyChord;
            let nothing = d is None;
            &&& button || switch || chord || nothing
            &&& !(button && switch) && !(button && chord) && !(button && nothing)
            &&& !(switch && chord) && !(switch && nothing) && !(chord && nothing)
        }),
{
}

} // verus!
