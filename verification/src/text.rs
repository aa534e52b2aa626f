//! The debug texts of entities, books and balances. An entity shows its id
//! and nothing else, so that the text does not depend on the payload.
use crate::key::UnitKey;
use vstd::prelude::*;
use vstd::string::StrSliceExecFns;

verus! {

/// The character of a decimal digit.
pub open spec fn digit(d: int) -> char {
    if d == 0 {
        '0'
    } else if d == 1 {
        '1'
    } else if d == 2 {
        '2'
    } else if d == 3 {
        '3'
    } else if d == 4 {
        '4'
    } else if d == 5 {
        '5'
    } else if d == 6 {
        '6'
    } else if d == 7 {
        '7'
    } else if d == 8 {
        '8'
    } else {
        '9'
    }
}

/// A natural number in decimal, without leading zeros.
pub open spec fn decimal(n: nat) -> Seq<char>
    decreases n,
{
    if n < 10 {
        seq![digit(n as int)]
    } else {
        decimal(n / 10).push(digit((n % 10) as int))
    }
}

/// An integer in decimal, with a minus sign where it is negative.
pub open spec fn signed_decimal(n: int) -> Seq<char> {
    if n < 0 {
        seq!['-'] + decimal((-n) as nat)
    } else {
        decimal(n as nat)
    }
}

/// The text of an entity of the given kind: `Kind { id: 7 }`.
pub open spec fn entity_text(kind: Seq<char>, id: nat) -> Seq<char> {
    kind + " { id: "@ + decimal(id) + " }"@
}

/// The text of one entry of a balance: `Unit { id: 7 }: -3`.
pub open spec fn entry_text(entry: (UnitKey, int)) -> Seq<char> {
    entity_text("Unit"@, entry.0.id as nat) + ": "@ + signed_decimal(entry.1)
}

/// The texts of the entries of a balance, with `, ` between them.
pub open spec fn entries_text(entries: Seq<(UnitKey, int)>) -> Seq<char>
    decreases entries.len(),
{
    if entries.len() == 0 {
        Seq::empty()
    } else if entries.len() == 1 {
        entry_text(entries[0])
    } else {
        entries_text(entries.drop_last()) + ", "@ + entry_text(entries.last())
    }
}

/// The text of a balance with the given entries: `Balance({Unit { id: 0 }: 76})`.
pub open spec fn balance_text(entries: Seq<(UnitKey, int)>) -> Seq<char> {
    "Balance({"@ + entries_text(entries) + "})"@
}

/// The text of a registry: `Index { id: 7 }`.
pub open spec fn index_text(id: nat) -> Seq<char> {
    entity_text("Index"@, id)
}

/// The text of a book: `Book { index: Index { id: 7 } }`.
pub open spec fn book_text(registry: nat) -> Seq<char> {
    "Book { index: "@ + index_text(registry) + " }"@
}

/// `String::from_iter` over characters: the string made of them, in their order.
#[verifier::external_body]
fn string_of(chars: &Vec<char>) -> (text: String)
    ensures
        text@ == chars@,
{
    String::from_iter(chars.iter())
}

/// Appends `text` to `out`.
fn push_text(out: &mut Vec<char>, text: &str)
    ensures
        final(out)@ == old(out)@ + text@,
{
    let n = text.unicode_len();
    let mut i: usize = 0;
    while i < n
        invariant
            n == text@.len(),
            i <= n,
            out@ == old(out)@ + text@.subrange(0, i as int),
        decreases n - i,
    {
        out.push(text.get_char(i));
        assert(text@.subrange(0, i + 1) == text@.subrange(0, i as int).push(text@[i as int]));
        i = i + 1;
    }
    assert(text@.subrange(0, n as int) == text@);
}

/// The character of the decimal digit `d`.
fn digit_char(d: u8) -> (c: char)
    requires
        d < 10,
    ensures
        c == digit(d as int),
{
    if d == 0 {
        '0'
    } else if d == 1 {
        '1'
    } else if d == 2 {
        '2'
    } else if d == 3 {
        '3'
    } else if d == 4 {
        '4'
    } else if d == 5 {
        '5'
    } else if d == 6 {
        '6'
    } else if d == 7 {
        '7'
    } else if d == 8 {
        '8'
    } else {
        '9'
    }
}

/// Appends `n` in decimal to `out`.
fn push_decimal(out: &mut Vec<char>, n: u128)
    ensures
        final(out)@ == old(out)@ + decimal(n as nat),
    decreases n,
{
    if n >= 10 {
        push_decimal(out, n / 10);
    }
    out.push(digit_char((n % 10) as u8));
    assert(out@ == old(out)@ + decimal(n as nat));
}

/// Appends `n` in decimal to `out`, with a minus sign where it is negative.
fn push_signed_decimal(out: &mut Vec<char>, n: i128)
    ensures
        final(out)@ == old(out)@ + signed_decimal(n as int),
{
    if n < 0 {
        out.push('-');
        let magnitude: u128 = if n == i128::MIN {
            0x8000_0000_0000_0000_0000_0000_0000_0000u128
        } else {
            (-n) as u128
        };
        push_decimal(out, magnitude);
        assert(out@ == old(out)@ + (seq!['-'] + decimal((-n) as nat)));
    } else {
        push_decimal(out, n as u128);
    }
}

/// Appends the text of an entity to `out`.
fn push_entity(out: &mut Vec<char>, kind: &str, id: u128)
    ensures
        final(out)@ == old(out)@ + entity_text(kind@, id as nat),
{
    push_text(out, kind);
    push_text(out, " { id: ");
    push_decimal(out, id);
    push_text(out, " }");
    assert(out@ == old(out)@ + entity_text(kind@, id as nat));
}

/// The text of an entity of the given kind and id.
pub fn entity_debug_text(kind: &str, id: u64) -> (text: String)
    ensures
        text@ == entity_text(kind@, id as nat),
{
    let mut out: Vec<char> = Vec::new();
    push_entity(&mut out, kind, id as u128);
    string_of(&out)
}

/// The text of a book over the registry `registry`.
pub fn book_debug_text(registry: u64) -> (text: String)
    ensures
        text@ == book_text(registry as nat),
{
    let mut out: Vec<char> = Vec::new();
    push_text(&mut out, "Book { index: ");
    push_entity(&mut out, "Index", registry as u128);
    push_text(&mut out, " }");
    assert(out@ == book_text(registry as nat));
    string_of(&out)
}

/// The text of a balance with the given entries.
pub fn balance_debug_text(entries: &Vec<(UnitKey, i128)>) -> (text: String)
    ensures
        text@ == balance_text(entries@.map_values(|e: (UnitKey, i128)| (e.0, e.1 as int))),
{
    let ghost listed = entries@.map_values(|e: (UnitKey, i128)| (e.0, e.1 as int));
    let mut out: Vec<char> = Vec::new();
    push_text(&mut out, "Balance({");
    let mut i: usize = 0;
    while i < entries.len()
        invariant
            i <= entries@.len(),
            listed == entries@.map_values(|e: (UnitKey, i128)| (e.0, e.1 as int)),
            out@ == "Balance({"@ + entries_text(listed.subrange(0, i as int)),
        decreases entries@.len() - i,
    {
        let ghost before = out@;
        if i > 0 {
            push_text(&mut out, ", ");
        }
        push_entity(&mut out, "Unit", entries[i].0.id as u128);
        push_text(&mut out, ": ");
        push_signed_decimal(&mut out, entries[i].1);
        proof {
            let upto = listed.subrange(0, i + 1);
            assert(upto.drop_last() == listed.subrange(0, i as int));
            assert(upto.last() == listed[i as int]);
            assert(listed[i as int] == (entries@[i as int].0, entries@[i as int].1 as int));
            assert(out@ == "Balance({"@ + entries_text(upto));
        }
        i = i + 1;
    }
    assert(listed.subrange(0, i as int) == listed);
    push_text(&mut out, "})");
    assert(out@ == balance_text(listed));
    string_of(&out)
}

} // verus!
