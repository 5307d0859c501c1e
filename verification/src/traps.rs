//! Trap strings that host functions return to break a program's execution,
//! and the predicates that recognise them.

use vstd::prelude::*;
use vstd::string::{is_ascii, StringSliceAdditionalSpecFns};

verus! {

/// Error text with which the `exit` host function stops execution.
pub const EXIT_TRAP_STR: &'static str = "exit";

/// Error text with which the `leave` host function stops execution.
pub const LEAVE_TRAP_STR: &'static str = "leave";

/// Error text with which the `wait` host function stops execution.
pub const WAIT_TRAP_STR: &'static str = "wait";

/// `s` begins with the bytes of `prefix` (the meaning of `str::starts_with`
/// for a string pattern).
pub open spec fn bytes_start_with(s: Seq<u8>, prefix: Seq<u8>) -> bool {
    prefix.len() <= s.len() && s.subrange(0, prefix.len() as int) == prefix
}

/// Whether the UTF-8 bytes of `s` begin with those of `prefix`.
pub fn str_starts_with(s: &str, prefix: &str) -> (r: bool)
    ensures
        r == bytes_start_with(s.spec_bytes(), prefix.spec_bytes()),
{
    let sb = s.as_bytes();
    let pb = prefix.as_bytes();
    if pb.len() > sb.len() {
        return false;
    }
    let mut i: usize = 0;
    while i < pb.len()
        invariant
            pb@ == prefix.spec_bytes(),
            sb@ == s.spec_bytes(),
            pb@.len() <= sb@.len(),
            0 <= i <= pb@.len(),
            forall|j: int| 0 <= j < i ==> sb@[j] == pb@[j],
        decreases pb@.len() - i,
    {
        if sb[i] != pb[i] {
            return false;
        }
        i = i + 1;
    }
    assert(sb@.subrange(0, pb@.len() as int) =~= pb@);
    true
}

/// Whether `trap` is the error produced by the `wait` host function.
pub fn is_wait_trap(trap: &str) -> (r: bool)
    ensures
        r == bytes_start_with(trap.spec_bytes(), WAIT_TRAP_STR.spec_bytes()),
{
    str_starts_with(trap, WAIT_TRAP_STR)
}

/// Whether `trap` is the error produced by the `leave` host function.
pub fn is_leave_trap(trap: &str) -> (r: bool)
    ensures
        r == bytes_start_with(trap.spec_bytes(), LEAVE_TRAP_STR.spec_bytes()),
{
    str_starts_with(trap, LEAVE_TRAP_STR)
}

/// The trap kinds are told apart: the wait trap is recognised as a wait trap
/// and not as a leave trap, the leave trap the other way round, and the exit
/// trap as neither.
pub proof fn lemma_trap_kinds_distinct()
    ensures
        bytes_start_with(WAIT_TRAP_STR.spec_bytes(), WAIT_TRAP_STR.spec_bytes()),
        !bytes_start_with(WAIT_TRAP_STR.spec_bytes(), LEAVE_TRAP_STR.spec_bytes()),
        bytes_start_with(LEAVE_TRAP_STR.spec_bytes(), LEAVE_TRAP_STR.spec_bytes()),
        !bytes_start_with(LEAVE_TRAP_STR.spec_bytes(), WAIT_TRAP_STR.spec_bytes()),
        !bytes_start_with(EXIT_TRAP_STR.spec_bytes(), WAIT_TRAP_STR.spec_bytes()),
        !bytes_start_with(EXIT_TRAP_STR.spec_bytes(), LEAVE_TRAP_STR.spec_bytes()),
{
    reveal_strlit("wait");
    reveal_strlit("leave");
    reveal_strlit("exit");
    assert(is_ascii(WAIT_TRAP_STR));
    assert(is_ascii(LEAVE_TRAP_STR));
    assert(is_ascii(EXIT_TRAP_STR));
    let w = WAIT_TRAP_STR.spec_bytes();
    let l = LEAVE_TRAP_STR.spec_bytes();
    let e = EXIT_TRAP_STR.spec_bytes();
    assert(w.subrange(0, w.len() as int) =~= w);
    assert(l.subrange(0, l.len() as int) =~= l);
    assert(w[0] != l[0]);
    assert(e[0] != w[0]);
    assert(e[0] != l[0]);
    assert(e.subrange(0, w.len() as int)[0] != w[0]);
}

/// A string that begins with a prefix still begins with it after more text
/// is appended.
pub proof fn lemma_prefix_kept_by_appending(s: Seq<u8>, prefix: Seq<u8>, t: Seq<u8>)
    requires
        bytes_start_with(s, prefix),
    ensures
        bytes_start_with(s + t, prefix),
{
    assert((s + t).subrange(0, prefix.len() as int) =~= s.subrange(0, prefix.len() as int));
}

/// The wait and leave traps are recognised, also with text appended: a
/// string whose bytes are a trap's followed by any others is recognised as
/// that trap.
pub proof fn lemma_traps_recognised_with_text_appended(t: Seq<u8>)
    ensures
        bytes_start_with(WAIT_TRAP_STR.spec_bytes(), WAIT_TRAP_STR.spec_bytes()),
        bytes_start_with(WAIT_TRAP_STR.spec_bytes() + t, WAIT_TRAP_STR.spec_bytes()),
        bytes_start_with(LEAVE_TRAP_STR.spec_bytes(), LEAVE_TRAP_STR.spec_bytes()),
        bytes_start_with(LEAVE_TRAP_STR.spec_bytes() + t, LEAVE_TRAP_STR.spec_bytes()),
{
    lemma_trap_kinds_distinct();
    lemma_prefix_kept_by_appending(WAIT_TRAP_STR.spec_bytes(), WAIT_TRAP_STR.spec_bytes(), t);
    lemma_prefix_kept_by_appending(LEAVE_TRAP_STR.spec_bytes(), LEAVE_TRAP_STR.spec_bytes(), t);
}

} // verus!
