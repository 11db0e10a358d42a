//! Classification of abrupt handler faults. A fault whose message carries a
//! broken-pipe marker is a benign client disconnect; anything else is fatal
//! and must not be masked.

use vstd::prelude::*;
use vstd::string::StrSliceExecFns;

verus! {

/// `pat` occurs in `text` starting at position `i`.
pub open spec fn occurs_at(text: Seq<char>, pat: Seq<char>, i: int) -> bool {
    &&& 0 <= i
    &&& i + pat.len() <= text.len()
    &&& text.subrange(i, i + pat.len()) == pat
}

/// `pat` occurs somewhere in `text`.
pub open spec fn contains(text: Seq<char>, pat: Seq<char>) -> bool {
    exists|i: int| occurs_at(text, pat, i)
}

/// A fault message that denotes a peer-closed connection: it carries one of
/// the broken-pipe markers the transport is known to emit.
pub open spec fn is_disconnect_message(m: Seq<char>) -> bool {
    contains(m, "Broken pipe"@) || contains(m, "BrokenPipe"@)
}

/// How the supervisor treats an abrupt fault.
#[derive(Clone, Copy, PartialEq, Eq, Structural, Debug)]
pub enum FaultClass {
    /// The peer closed the connection mid-write: benign, absorbed.
    ClientDisconnect,
    /// Anything else: a bug signal, escalated.
    Fatal,
}

fn occurs_at_exec(text: &str, pat: &str, i: usize, text_len: usize, pat_len: usize) -> (b: bool)
    requires
        text_len == text@.len(),
        pat_len == pat@.len(),
        i + pat_len <= text_len,
    ensures
        b == occurs_at(text@, pat@, i as int),
{
    let mut j: usize = 0;
    while j < pat_len
        invariant
            j <= pat_len,
            text_len == text@.len(),
            pat_len == pat@.len(),
            i + pat_len <= text_len,
            forall|k: int| 0 <= k < j ==> text@[i + k] == pat@[k],
        decreases pat_len - j,
    {
        if text.get_char(i + j) != pat.get_char(j) {
            proof {
                assert(text@.subrange(i as int, i + pat@.len())[j as int] == text@[i + j]);
            }
            return false;
        }
        j += 1;
    }
    proof {
        assert(text@.subrange(i as int, i + pat@.len()) =~= pat@);
    }
    true
}

/// Whether `pat` occurs anywhere in `text`, by a plain left-to-right scan.
pub fn contains_str(text: &str, pat: &str) -> (b: bool)
    ensures
        b == contains(text@, pat@),
{
    let text_len = text.unicode_len();
    let pat_len = pat.unicode_len();
    if pat_len > text_len {
        proof {
            assert(forall|i: int| !occurs_at(text@, pat@, i));
        }
        return false;
    }
    if pat_len == 0 {
        proof {
            assert(text@.subrange(0, 0) =~= pat@);
            assert(occurs_at(text@, pat@, 0));
        }
        return true;
    }
    let mut i: usize = 0;
    while i <= text_len - pat_len
        invariant
            text_len == text@.len(),
            pat_len == pat@.len(),
            0 < pat_len <= text_len,
            i <= text_len - pat_len + 1,
            forall|j: int| 0 <= j < i ==> !occurs_at(text@, pat@, j),
        decreases text_len - pat_len - i + 1,
    {
        if occurs_at_exec(text, pat, i, text_len, pat_len) {
            assert(occurs_at(text@, pat@, i as int));
            return true;
        }
        i += 1;
    }
    proof {
        assert forall|j: int| !occurs_at(text@, pat@, j) by {
            if j >= i {
                assert(j + pat@.len() > text@.len());
            }
        }
    }
    false
}

/// Classifies an abrupt fault by its message: a broken-pipe marker means the
/// client disconnected, anything else is fatal. The classification is exact
/// with respect to `is_disconnect_message`, so a disconnect is never missed.
pub fn classify(message: &str) -> (c: FaultClass)
    ensures
        (c == FaultClass::ClientDisconnect) == is_disconnect_message(message@),
        (c == FaultClass::Fatal) == !is_disconnect_message(message@),
{
    if contains_str(message, "Broken pipe") || contains_str(message, "BrokenPipe") {
        FaultClass::ClientDisconnect
    } else {
        FaultClass::Fatal
    }
}

} // verus!
