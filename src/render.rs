//! What one poll observed, and the text that stands for it.
use vstd::prelude::*;

verus! {

/// The exit code shown for a command that ended without one (killed by a
/// signal); it lies outside the range of real exit codes.
pub const ABNORMAL_EXIT_CODE: i32 = 1000;

/// The byte of a line feed.
pub const NEWLINE: u8 = 10;

/// The byte of a minus sign.
pub const MINUS: u8 = 45;

/// The outcome of one run of the polled command.
pub enum PollResult {
    /// Everything the command wrote to its standard output.
    Output(Vec<u8>),
    /// Whether the command succeeded, and its exit code when it had one.
    Status { success: bool, code: Option<i32> },
}

/// The ASCII digits of `n`, most significant first.
pub open spec fn digits(n: nat) -> Seq<u8>
    decreases n,
{
    if n < 10 {
        seq![(n + 48) as u8]
    } else {
        digits(n / 10).push((n % 10 + 48) as u8)
    }
}

/// `n` written in decimal, with a leading minus sign when it is negative.
pub open spec fn decimal(n: int) -> Seq<u8> {
    if n < 0 {
        seq![MINUS] + digits((-n) as nat)
    } else {
        digits(n as nat)
    }
}

/// The text that a successful status renders as: `Success` and a newline.
pub open spec fn success_text() -> Seq<u8> {
    seq![83, 117, 99, 99, 101, 115, 115, NEWLINE]
}

/// The text that a failed status with exit code `code` renders as:
/// `Failed (<code>)` and a newline.
pub open spec fn failure_text(code: int) -> Seq<u8> {
    seq![70, 97, 105, 108, 101, 100, 32, 40] + decimal(code) + seq![41, NEWLINE]
}

/// The exit code shown for a failed command.
pub open spec fn shown_code(code: Option<i32>) -> int {
    match code {
        Some(c) => c as int,
        None => ABNORMAL_EXIT_CODE as int,
    }
}

/// The text that stands for a poll's result: captured output as it is, a
/// status as a line that names it.
pub open spec fn rendered(r: PollResult) -> Seq<u8> {
    match r {
        PollResult::Output(bytes) => bytes@,
        PollResult::Status { success, code } => if success {
            success_text()
        } else {
            failure_text(shown_code(code))
        },
    }
}

/// `text` with a newline appended unless it already ends with one.
pub open spec fn newline_terminated(text: Seq<u8>) -> Seq<u8> {
    if text.len() > 0 && text.last() == NEWLINE {
        text
    } else {
        text.push(NEWLINE)
    }
}

fn push_digits(n: u64, out: &mut Vec<u8>)
    ensures
        final(out)@ == old(out)@ + digits(n as nat),
    decreases n,
{
    if n < 10 {
        out.push((n + 48) as u8);
    } else {
        push_digits(n / 10, out);
        out.push((n % 10 + 48) as u8);
        proof {
            assert(old(out)@ + digits(n as nat) =~= old(out)@ + digits((n / 10) as nat) + seq![
                (n % 10 + 48) as u8,
            ]);
        }
    }
}

/// Appends `n` written in decimal to `out`.
pub fn push_decimal(n: i32, out: &mut Vec<u8>)
    ensures
        final(out)@ == old(out)@ + decimal(n as int),
{
    if n < 0 {
        out.push(MINUS);
        let magnitude: u64 = (-(n as i64)) as u64;
        push_digits(magnitude, out);
        proof {
            assert(old(out)@ + decimal(n as int) =~= old(out)@.push(MINUS) + digits(
                magnitude as nat,
            ));
        }
    } else {
        push_digits(n as u64, out);
    }
}

/// Appends the bytes of `bytes` to `out`.
pub fn push_all(bytes: &[u8], out: &mut Vec<u8>)
    ensures
        final(out)@ == old(out)@ + bytes@,
{
    let mut i: usize = 0;
    while i < bytes.len()
        invariant
            i <= bytes@.len(),
            out@ == old(out)@ + bytes@.subrange(0, i as int),
        decreases bytes@.len() - i,
    {
        out.push(bytes[i]);
        i = i + 1;
        proof {
            assert(bytes@.subrange(0, i as int) =~= bytes@.subrange(0, i - 1).push(bytes@[i - 1]));
        }
    }
    proof {
        assert(bytes@.subrange(0, bytes@.len() as int) =~= bytes@);
    }
}

/// The text that stands for `result`.
pub fn render(result: &PollResult) -> (text: Vec<u8>)
    ensures
        text@ == rendered(*result),
{
    match result {
        PollResult::Output(bytes) => {
            let mut text: Vec<u8> = Vec::new();
            push_all(bytes.as_slice(), &mut text);
            proof {
                assert(text@ =~= bytes@);
            }
            text
        },
        PollResult::Status { success, code } => {
            if *success {
                let text: Vec<u8> = vec![83, 117, 99, 99, 101, 115, 115, NEWLINE];
                proof {
                    assert(text@ =~= success_text());
                }
                text
            } else {
                let mut text: Vec<u8> = vec![70, 97, 105, 108, 101, 100, 32, 40];
                let shown: i32 = match code {
                    Some(c) => *c,
                    None => ABNORMAL_EXIT_CODE,
                };
                push_decimal(shown, &mut text);
                text.push(41);
                text.push(NEWLINE);
                proof {
                    assert(text@ =~= failure_text(shown_code(*code)));
                }
                text
            }
        },
    }
}

/// Whether `text` ends with a newline.
pub fn ends_with_newline(text: &[u8]) -> (r: bool)
    ensures
        r == (text@.len() > 0 && text@.last() == NEWLINE),
{
    text.len() > 0 && text[text.len() - 1] == NEWLINE
}

/// Appends `text` to `out`, followed by a newline unless `text` already ends
/// with one.
pub fn push_terminated(text: &[u8], out: &mut Vec<u8>)
    ensures
        final(out)@ == old(out)@ + newline_terminated(text@),
{
    push_all(text, out);
    if !ends_with_newline(text) {
        out.push(NEWLINE);
        proof {
            assert(old(out)@ + text@.push(NEWLINE) =~= (old(out)@ + text@).push(NEWLINE));
        }
    }
}

/// A rendered text, once terminated, ends with a newline; the newline is
/// added exactly when the text did not end with one, and nothing else is
/// changed.
pub proof fn lemma_terminated_ends_with_newline(text: Seq<u8>)
    ensures
        newline_terminated(text).len() > 0,
        newline_terminated(text).last() == NEWLINE,
        newline_terminated(text).subrange(0, text.len() as int) == text,
        text.len() > 0 && text.last() == NEWLINE ==> newline_terminated(text) == text,
        !(text.len() > 0 && text.last() == NEWLINE) ==> newline_terminated(text) == text.push(NEWLINE),
{
    assert(newline_terminated(text).subrange(0, text.len() as int) =~= text);
}

/// A text that does not already end in two newlines ends, once terminated,
/// in exactly one.
pub proof fn lemma_exactly_one_trailing_newline(text: Seq<u8>)
    requires
        !(text.len() >= 2 && text[text.len() - 1] == NEWLINE && text[text.len() - 2] == NEWLINE),
    ensures
        newline_terminated(text).last() == NEWLINE,
        newline_terminated(text).len() >= 2 ==> newline_terminated(text)[newline_terminated(
            text,
        ).len() - 2] != NEWLINE,
{
}

} // verus!
