use crate::firmware::FirmwareCall;
use vstd::prelude::*;

verus! {

/// The firmware calls that print `s`: one teletype call per byte, in order.
pub open spec fn print_calls(s: Seq<u8>) -> Seq<FirmwareCall> {
    s.map_values(|c: u8| FirmwareCall::TeletypeOutput(c))
}

/// The text that a sequence of firmware calls puts on the display.
pub open spec fn console_text(calls: Seq<FirmwareCall>) -> Seq<u8>
    decreases calls.len(),
{
    if calls.len() == 0 {
        Seq::empty()
    } else {
        let rest = console_text(calls.drop_last());
        match calls.last() {
            FirmwareCall::TeletypeOutput(c) => rest.push(c),
            _ => rest,
        }
    }
}

/// The calls that print `s` put exactly `s` on the display.
pub proof fn lemma_print_shows_text(s: Seq<u8>)
    ensures
        console_text(print_calls(s)) == s,
    decreases s.len(),
{
    if s.len() > 0 {
        lemma_print_shows_text(s.drop_last());
        assert(print_calls(s).drop_last() =~= print_calls(s.drop_last()));
        assert(s.drop_last().push(s.last()) =~= s);
    } else {
        assert(s =~= Seq::empty());
    }
}

/// The firmware calls that write `str_to_print` to the display, byte by byte,
/// with no buffering and no line-ending translation.
pub fn btl_print(str_to_print: &[u8]) -> (r: Vec<FirmwareCall>)
    ensures
        r@ == print_calls(str_to_print@),
        console_text(r@) == str_to_print@,
{
    let mut calls: Vec<FirmwareCall> = Vec::new();
    let mut i: usize = 0;
    while i < str_to_print.len()
        invariant
            i <= str_to_print@.len(),
            calls@ == print_calls(str_to_print@.subrange(0, i as int)),
        decreases str_to_print@.len() - i,
    {
        calls.push(FirmwareCall::TeletypeOutput(str_to_print[i]));
        i = i + 1;
        proof {
            assert(calls@ =~= print_calls(str_to_print@.subrange(0, i as int)));
        }
    }
    proof {
        assert(str_to_print@.subrange(0, i as int) =~= str_to_print@);
        lemma_print_shows_text(str_to_print@);
    }
    calls
}

} // verus!
