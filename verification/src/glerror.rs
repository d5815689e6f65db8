//! Names and report lines for the error codes of the GL error queue.

use vstd::prelude::*;

verus! {

pub const NO_ERROR: u32 = 0;

pub const INVALID_ENUM: u32 = 0x0500;

pub const INVALID_VALUE: u32 = 0x0501;

pub const INVALID_OPERATION: u32 = 0x0502;

pub const STACK_OVERFLOW: u32 = 0x0503;

pub const STACK_UNDERFLOW: u32 = 0x0504;

pub const OUT_OF_MEMORY: u32 = 0x0505;

pub const INVALID_FRAMEBUFFER_OPERATION: u32 = 0x0506;

/// The name under which a GL error code is reported.
pub open spec fn error_name(error: u32) -> Seq<char> {
    if error == NO_ERROR {
        "GL_NO_ERROR"@
    } else if error == INVALID_ENUM {
        "GL_INVALID_ENUM"@
    } else if error == INVALID_VALUE {
        "GL_INVALID_VALUE"@
    } else if error == INVALID_OPERATION {
        "GL_INVALID_OPERATION"@
    } else if error == INVALID_FRAMEBUFFER_OPERATION {
        "GL_INVALID_FRAMEBUFFER_OPERATION"@
    } else if error == OUT_OF_MEMORY {
        "GL_OUT_OF_MEMORY"@
    } else if error == STACK_UNDERFLOW {
        "GL_STACK_UNDERFLOW"@
    } else if error == STACK_OVERFLOW {
        "GL_STACK_OVERFLOW"@
    } else {
        "Not a valid GLerror"@
    }
}

/// Looks up the name of a GL error code; a code that GL does not define
/// gets a name that says so.
pub fn error_string(error: u32) -> (name: &'static str)
    ensures
        name@ == error_name(error),
{
    match error {
        NO_ERROR => "GL_NO_ERROR",
        INVALID_ENUM => "GL_INVALID_ENUM",
        INVALID_VALUE => "GL_INVALID_VALUE",
        INVALID_OPERATION => "GL_INVALID_OPERATION",
        INVALID_FRAMEBUFFER_OPERATION => "GL_INVALID_FRAMEBUFFER_OPERATION",
        OUT_OF_MEMORY => "GL_OUT_OF_MEMORY",
        STACK_UNDERFLOW => "GL_STACK_UNDERFLOW",
        STACK_OVERFLOW => "GL_STACK_OVERFLOW",
        _ => "Not a valid GLerror",
    }
}

/// The line that reports one error code.
pub open spec fn error_line(error: u32) -> Seq<char> {
    "GL error: "@ + error_name(error)
}

/// Decides what is reported for one code read from the GL error queue:
/// nothing for `NO_ERROR`, which marks the end of the queue, and otherwise
/// the line that names the error.
pub fn print_one_error(error: u32) -> (line: Option<String>)
    ensures
        line is None <==> error == NO_ERROR,
        line matches Some(text) ==> text@ == error_line(error),
{
    if error == NO_ERROR {
        None
    } else {
        let mut text = String::from_str("GL error: ");
        text.append(error_string(error));
        Some(text)
    }
}

/// How many codes at the front of a queue are errors: the position of the
/// first `NO_ERROR`, or the length of the queue where it holds none.
pub open spec fn pending(queue: Seq<u32>) -> nat
    decreases queue.len(),
{
    if queue.len() == 0 || queue[0] == NO_ERROR {
        0
    } else {
        1 + pending(queue.drop_first())
    }
}

/// The lines that report the errors at the front of a queue, in the order
/// in which the queue hands them out.
pub open spec fn report(queue: Seq<u32>) -> Seq<Seq<char>> {
    Seq::new(pending(queue), |i: int| error_line(queue[i]))
}

/// The text of each line of a list.
pub open spec fn texts(lines: Seq<String>) -> Seq<Seq<char>> {
    Seq::new(lines.len(), |i: int| lines[i]@)
}

/// `pending` counts exactly the codes before the first `NO_ERROR`.
pub proof fn lemma_pending(queue: Seq<u32>)
    ensures
        pending(queue) <= queue.len(),
        forall|i: int| 0 <= i < pending(queue) ==> queue[i] != NO_ERROR,
        pending(queue) < queue.len() ==> queue[pending(queue) as int] == NO_ERROR,
    decreases queue.len(),
{
    if queue.len() == 0 || queue[0] == NO_ERROR {
    } else {
        let rest = queue.drop_first();
        lemma_pending(rest);
        assert forall|i: int| 0 <= i < pending(queue) implies queue[i] != NO_ERROR by {
            if i > 0 {
                assert(queue[i] == rest[i - 1]);
            }
        }
        if pending(queue) < queue.len() {
            assert(queue[pending(queue) as int] == rest[pending(rest) as int]);
        }
    }
}

/// A run of `n` errors followed by the end of the queue or by `NO_ERROR`
/// is what `pending` counts.
pub proof fn lemma_pending_is(queue: Seq<u32>, n: nat)
    requires
        n <= queue.len(),
        forall|i: int| 0 <= i < n ==> queue[i] != NO_ERROR,
        n < queue.len() ==> queue[n as int] == NO_ERROR,
    ensures
        pending(queue) == n,
{
    lemma_pending(queue);
    let p = pending(queue);
    if p < n {
        assert(queue[p as int] == NO_ERROR);
    } else if n < p {
        assert(queue[n as int] != NO_ERROR);
    }
}

/// Reports the errors that a GL error queue held. `queue` is what the
/// queue handed out, oldest first; reading it ends at the first `NO_ERROR`
/// and what follows that code is not looked at. One line per error is
/// appended to `out`. Returns whether there was any error.
pub fn print_gl_errors(queue: &[u32], out: &mut Vec<String>) -> (found: bool)
    ensures
        found == (pending(queue@) > 0),
        texts(final(out)@) == texts(old(out)@) + report(queue@),
{
    let ghost before = out@;
    let mut at: usize = 0;
    while at < queue.len()
        invariant
            at <= queue.len(),
            forall|i: int| 0 <= i < at ==> queue@[i] != NO_ERROR,
            out@.len() == before.len() + at,
            forall|i: int| 0 <= i < before.len() ==> out@[i] == before[i],
            forall|i: int| 0 <= i < at ==> (#[trigger] out@[before.len() + i])@ == error_line(queue@[i]),
        ensures
            at <= queue.len(),
            forall|i: int| 0 <= i < at ==> queue@[i] != NO_ERROR,
            at < queue.len() ==> queue@[at as int] == NO_ERROR,
            out@.len() == before.len() + at,
            forall|i: int| 0 <= i < before.len() ==> out@[i] == before[i],
            forall|i: int| 0 <= i < at ==> (#[trigger] out@[before.len() + i])@ == error_line(queue@[i]),
        decreases queue.len() - at,
    {
        match print_one_error(queue[at]) {
            None => {
                break ;
            },
            Some(line) => {
                out.push(line);
                at += 1;
            },
        }
    }
    proof {
        lemma_pending_is(queue@, at as nat);
        let joined = texts(before) + report(queue@);
        assert(texts(out@).len() == joined.len());
        assert forall|k: int| 0 <= k < joined.len() implies texts(out@)[k] == joined[k] by {
            if k >= before.len() {
                let i = k - before.len();
                assert(out@[before.len() + i]@ == error_line(queue@[i]));
            }
        }
        assert(texts(out@) =~= joined);
    }
    at > 0
}

} // verus!
