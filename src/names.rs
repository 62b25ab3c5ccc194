//! Names of the generated storage slots and of the link-time trap symbol.
use vstd::prelude::*;
use vstd::string::*;

verus! {

/// `_<f>__flag_`: the slot that enables the guarded body.
pub open spec fn flag_slot_name(f: Seq<char>) -> Seq<char> {
    seq!['_'] + f + seq!['_', '_', 'f', 'l', 'a', 'g', '_']
}

/// `_<f>__return_`: the slot that receives the result of the body.
pub open spec fn return_slot_name(f: Seq<char>) -> Seq<char> {
    seq!['_'] + f + seq!['_', '_', 'r', 'e', 't', 'u', 'r', 'n', '_']
}

/// `_<f>__arg__<a>_`: the slot that carries argument `a` into the body.
pub open spec fn arg_slot_name(f: Seq<char>, a: Seq<char>) -> Seq<char> {
    seq!['_'] + f + seq!['_', '_', 'a', 'r', 'g', '_', '_'] + a + seq!['_']
}

/// The name of the flag slot of function `f`.
pub fn flag_slot(f: &str) -> (r: String)
    ensures
        r@ == flag_slot_name(f@),
{
    let mut s = String::from_str("_");
    s.append(f);
    s.append("__flag_");
    proof {
        reveal_strlit("_");
        reveal_strlit("__flag_");
    }
    assert(s@ =~= flag_slot_name(f@));
    s
}

/// The name of the return slot of function `f`.
pub fn return_slot(f: &str) -> (r: String)
    ensures
        r@ == return_slot_name(f@),
{
    let mut s = String::from_str("_");
    s.append(f);
    s.append("__return_");
    proof {
        reveal_strlit("_");
        reveal_strlit("__return_");
    }
    assert(s@ =~= return_slot_name(f@));
    s
}

/// The name of the slot of argument `a` of function `f`.
pub fn arg_slot(f: &str, a: &str) -> (r: String)
    ensures
        r@ == arg_slot_name(f@, a@),
{
    let mut s = String::from_str("_");
    s.append(f);
    s.append("__arg__");
    s.append(a);
    s.append("_");
    proof {
        reveal_strlit("_");
        reveal_strlit("__arg__");
    }
    assert(s@ =~= arg_slot_name(f@, a@));
    s
}

/// Escape codes that clear the linker's line, then the red word `error`, then
/// the fixed phrase, up to the highlighted function name.
pub open spec fn trap_lead() -> Seq<char> {
    "\x1B[2K\x1B[400D\x1B[A\x1B[2K\x1B[B\x1B[1;31merror\x1B[0m: unreachable code can be reached in '\x1B[1;41m"@
}

/// Resets the colour after the function name and closes the quote.
pub open spec fn trap_tail() -> Seq<char> {
    "\x1B[0m'"@
}

/// The symbol name of the trap of function `f`, which is also the diagnostic
/// that a linker shows when the trap survives optimisation.
pub open spec fn trap_message(f: Seq<char>) -> Seq<char> {
    trap_lead() + f + trap_tail()
}

/// The link name of the trap that `static_unreachable!()` calls inside `f`.
pub fn trap_symbol(f: &str) -> (r: String)
    ensures
        r@ == trap_message(f@),
{
    let mut s = String::from_str(
        "\x1B[2K\x1B[400D\x1B[A\x1B[2K\x1B[B\x1B[1;31merror\x1B[0m: unreachable code can be reached in '\x1B[1;41m",
    );
    s.append(f);
    s.append("\x1B[0m'");
    s
}

} // verus!
