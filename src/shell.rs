use vstd::prelude::*;
use vstd::string::*;
use crate::text::{contains_text, decimal, decimal_text, text_contains, trim, trimmed};

verus! {

/// A stderr line that comes from loading the user's shell profile rather than
/// from the command itself.
pub open spec fn is_noise_line(line: Seq<char>) -> bool {
    text_contains(line, ".zshrc"@) || text_contains(line, ".zprofile"@) || text_contains(
        line,
        "no such file or directory"@,
    ) || text_contains(line, "nvm"@)
}

/// The lines that are not profile noise, in order.
pub open spec fn kept_lines(lines: Seq<Seq<char>>) -> Seq<Seq<char>>
    decreases lines.len(),
{
    if lines.len() == 0 {
        Seq::empty()
    } else {
        let before = kept_lines(lines.drop_last());
        if is_noise_line(lines.last()) {
            before
        } else {
            before.push(lines.last())
        }
    }
}

/// Lines joined with a newline between each two.
pub open spec fn joined(lines: Seq<Seq<char>>) -> Seq<char>
    decreases lines.len(),
{
    if lines.len() == 0 {
        Seq::empty()
    } else if lines.len() == 1 {
        lines[0]
    } else {
        joined(lines.drop_last()) + "\n"@ + lines.last()
    }
}

/// A number in decimal, with a minus sign where it is negative.
pub open spec fn signed_decimal(n: int) -> Seq<char> {
    if n < 0 {
        "-"@ + decimal((-n) as nat)
    } else {
        decimal(n as nat)
    }
}

/// The text reported for a failed command: its stderr without profile noise
/// where that has more than white space; else its whole stderr; else its
/// stdout; else its exit code (-1 where it has none).
pub open spec fn failure_text_of(
    cleaned: Seq<char>,
    stderr: Seq<char>,
    stdout: Seq<char>,
    exit_code: Option<i32>,
) -> Seq<char> {
    if trimmed(cleaned).len() > 0 {
        cleaned
    } else if stderr.len() > 0 {
        stderr
    } else if stdout.len() > 0 {
        stdout
    } else {
        "Command failed with exit code: "@ + signed_decimal(
            match exit_code {
                Some(c) => c as int,
                None => -1,
            },
        )
    }
}

/// Whether a stderr line comes from loading the user's shell profile.
pub fn is_shell_noise(line: &str) -> (r: bool)
    ensures
        r == is_noise_line(line@),
{
    contains_text(line, ".zshrc") || contains_text(line, ".zprofile") || contains_text(
        line,
        "no such file or directory",
    ) || contains_text(line, "nvm")
}

/// The stderr lines that are not profile noise, joined with newlines.
pub fn clean_stderr(lines: &Vec<String>) -> (r: String)
    ensures
        r@ == joined(kept_lines(lines@.map_values(|l: String| l@))),
{
    let ghost views = lines@.map_values(|l: String| l@);
    let mut out = String::new();
    let mut any = false;
    let mut i: usize = 0;
    while i < lines.len()
        invariant
            i <= lines.len(),
            views == lines@.map_values(|l: String| l@),
            any == (kept_lines(views.subrange(0, i as int)).len() > 0),
            out@ == joined(kept_lines(views.subrange(0, i as int))),
        decreases lines.len() - i,
    {
        proof {
            assert(views.subrange(0, i + 1).drop_last() =~= views.subrange(0, i as int));
            assert(views.subrange(0, i + 1).last() == lines@[i as int]@);
        }
        let line = lines[i].as_str();
        if !is_shell_noise(line) {
            if any {
                out.append("\n");
            }
            out.append(line);
            proof {
                let k = kept_lines(views.subrange(0, i as int));
                let k2 = k.push(line@);
                assert(k2.drop_last() =~= k);
            }
            any = true;
        }
        i = i + 1;
    }
    proof {
        assert(views.subrange(0, i as int) =~= views);
    }
    out
}

fn signed_decimal_text(n: i32) -> (r: String)
    ensures
        r@ == signed_decimal(n as int),
{
    if n < 0 {
        let m: i64 = -(n as i64);
        String::from_str("-").concat(decimal_text(m as u64).as_str())
    } else {
        decimal_text(n as u64)
    }
}

/// The text reported for a failed command, from its cleaned stderr, its whole
/// stderr, its stdout and its exit code.
pub fn failure_text(cleaned: &str, stderr: &str, stdout: &str, exit_code: Option<i32>) -> (r:
    String)
    ensures
        r@ == failure_text_of(cleaned@, stderr@, stdout@, exit_code),
{
    if trim(cleaned).as_str().unicode_len() > 0 {
        String::from_str(cleaned)
    } else if stderr.unicode_len() > 0 {
        String::from_str(stderr)
    } else if stdout.unicode_len() > 0 {
        String::from_str(stdout)
    } else {
        let code: i32 = match exit_code {
            Some(c) => c,
            None => -1,
        };
        String::from_str("Command failed with exit code: ").concat(signed_decimal_text(code).as_str())
    }
}

} // verus!
