//! The lines of text that the client reports.
use vstd::prelude::*;

verus! {

/// The decimal digit that stands for `d`, a number below ten.
pub open spec fn digit(d: nat) -> char {
    (('0' as int) + d) as char
}

/// The decimal notation of `n`, most significant digit first and without leading zeros.
pub open spec fn decimal(n: nat) -> Seq<char>
    decreases n,
{
    if n < 10 {
        seq![digit(n)]
    } else {
        decimal(n / 10).push(digit(n % 10))
    }
}

/// The bytes of `data` in decimal notation, with a comma and a space between neighbours.
pub open spec fn listed(data: Seq<u8>) -> Seq<char>
    decreases data.len(),
{
    if data.len() == 0 {
        Seq::empty()
    } else if data.len() == 1 {
        decimal(data[0] as nat)
    } else {
        listed(data.drop_last()) + ", "@ + decimal(data.last() as nat)
    }
}

/// The list of the bytes of `data` between square brackets.
pub open spec fn bracketed(data: Seq<u8>) -> Seq<char> {
    "["@ + listed(data) + "]"@
}

/// The digit `d` as a string.
fn digit_text(d: u8) -> (text: &'static str)
    requires
        d < 10,
    ensures
        text@ == seq![digit(d as nat)],
{
    proof {
        reveal_strlit("0");
        reveal_strlit("1");
        reveal_strlit("2");
        reveal_strlit("3");
        reveal_strlit("4");
        reveal_strlit("5");
        reveal_strlit("6");
        reveal_strlit("7");
        reveal_strlit("8");
        reveal_strlit("9");
    }
    match d {
        0 => "0",
        1 => "1",
        2 => "2",
        3 => "3",
        4 => "4",
        5 => "5",
        6 => "6",
        7 => "7",
        8 => "8",
        _ => "9",
    }
}

/// Appends the decimal notation of `byte` to `text`.
fn append_decimal(text: &mut String, byte: u8)
    ensures
        final(text)@ == old(text)@ + decimal(byte as nat),
    decreases byte,
{
    if byte >= 10 {
        append_decimal(text, byte / 10);
        text.append(digit_text(byte % 10));
    } else {
        text.append(digit_text(byte));
    }
}

/// Appends the bracketed list of the bytes of `data` to `text`.
pub(crate) fn append_bracketed(text: &mut String, data: &Vec<u8>)
    ensures
        final(text)@ == old(text)@ + bracketed(data@),
{
    let ghost start = text@;
    text.append("[");
    let mut i: usize = 0;
    assert(data@.take(0) =~= Seq::<u8>::empty());
    while i < data.len()
        invariant
            i <= data@.len(),
            text@ == start + "["@ + listed(data@.take(i as int)),
        decreases data@.len() - i,
    {
        assert(data@.take(i + 1).drop_last() =~= data@.take(i as int));
        if i > 0 {
            text.append(", ");
        }
        append_decimal(text, data[i]);
        i = i + 1;
    }
    assert(data@.take(i as int) =~= data@);
    text.append("]");
}

} // verus!
