//! Programs that are started, and what they answer.
use crate::bits::{Single, ONE32, ZERO32};
use crate::text;
use vstd::prelude::*;

verus! {

/// A program and its arguments.
#[derive(Clone, Debug)]
pub struct CommandLine {
    pub program: String,
    pub args: Vec<String>,
}

/// The program and the arguments of a command; none where it is blank.
pub fn terminal_command(command: &str) -> (r: Option<CommandLine>)
    ensures
        match r {
            Some(line) => text::words(command@) == seq![line.program@] + text::texts(line.args@),
            None => text::words(command@).len() == 0,
        },
{
    let mut parts = text::split_whitespace(command);
    let ghost all = parts@;
    if parts.len() == 0 {
        return None;
    }
    let program = parts.remove(0);
    assert(all == seq![program] + parts@);
    assert(text::texts(all) == seq![program@] + text::texts(parts@));
    Some(CommandLine { program, args: parts })
}

/// What is run for the launcher; nothing where the command is blank.
pub fn launcher_command(command: &str) -> (r: Option<String>)
    ensures
        match r {
            Some(line) => line@ == text::trimmed(command@) && line@.len() > 0,
            None => text::trimmed(command@).len() == 0,
        },
{
    let trimmed = text::trim(command);
    if trimmed.is_empty() {
        return None;
    }
    Some(trimmed.to_owned())
}

/// The first word of a command.
pub open spec fn base_word(command: Seq<char>) -> Seq<char> {
    if text::words(command).len() > 0 {
        text::words(command)[0]
    } else {
        seq![]
    }
}

/// A launcher that is told to leave the configuration of its user aside, where
/// it is one that can be told so, and has not been told already.
pub open spec fn bypassed(line: Seq<char>) -> Seq<char> {
    let base = base_word(line);
    if text::ends(base, "fuzzel"@) && !text::found(line, "--config"@) && !text::found(
        line,
        "-C"@,
    ) {
        line + " --config /dev/null"@
    } else if text::ends(base, "wofi"@) && !text::found(line, "--conf"@) {
        line + " --conf /dev/null"@
    } else if text::ends(base, "rofi"@) && !text::found(line, "-no-config"@) {
        line + " -no-config"@
    } else {
        line
    }
}

pub fn build_config_bypass(line: &str) -> (r: String)
    ensures
        r@ == bypassed(line@),
{
    let parts = text::split_whitespace(line);
    proof {
        assert(text::texts(parts@).len() == parts@.len());
        if parts@.len() > 0 {
            assert(text::texts(parts@)[0] == parts@[0]@);
        } else {
            reveal_strlit("");
        }
    }
    let base = if parts.len() > 0 {
        parts[0].as_str()
    } else {
        ""
    };
    assert(base@ == base_word(line@));
    if text::ends_with(base, "fuzzel") && !text::contains(line, "--config") && !text::contains(
        line,
        "-C",
    ) {
        return text::joined(line, " --config /dev/null");
    }
    if text::ends_with(base, "wofi") && !text::contains(line, "--conf") {
        return text::joined(line, " --conf /dev/null");
    }
    if text::ends_with(base, "rofi") && !text::contains(line, "-no-config") {
        return text::joined(line, " -no-config");
    }
    line.to_owned()
}

/// How soon a launcher has to fail to be started again, in nanoseconds.
pub const QUICK_FAILURE: u64 = 500_000_000;

/// What a launcher is started with once more after it has exited: one that
/// failed at once is told to leave the configuration of its user aside.
pub fn launcher_retry(command: &str, succeeded: bool, elapsed: u64) -> (r: Option<String>)
    ensures
        match r {
            Some(line) => !succeeded && elapsed < QUICK_FAILURE && line@ == bypassed(command@)
                && line@ != command@,
            None => succeeded || elapsed >= QUICK_FAILURE || bypassed(command@) == command@,
        },
{
    if succeeded || elapsed >= QUICK_FAILURE {
        return None;
    }
    let retry = build_config_bypass(command);
    if text::same_text(retry.as_str(), command) {
        None
    } else {
        Some(retry)
    }
}

/// What the volume control answered: the second word, which is the volume, and
/// whether the sound is muted.
pub fn volume_answer(stdout: &Vec<u8>) -> (r: (Option<String>, bool))
    ensures
        ({
            let answer = text::lossy(stdout@);
            &&& r.1 == text::found(answer, "[MUTED]"@)
            &&& match r.0 {
                Some(word) => text::words(answer).len() > 1 && word@ == text::words(answer)[1],
                None => text::words(answer).len() <= 1,
            }
        }),
{
    let answer = text::from_utf8_lossy(stdout);
    let muted = text::contains(answer.as_str(), "[MUTED]");
    let parts = text::split_whitespace(answer.as_str());
    assert(text::texts(parts@).len() == parts@.len());
    if parts.len() > 1 {
        assert(text::texts(parts@)[1] == parts@[1]@);
        (Some(parts[1].clone()), muted)
    } else {
        (None, muted)
    }
}

/// A level between zero and one; zero where there is no number.
pub open spec fn level_of(value: Single) -> Single {
    if value.nan() {
        Single { bits: ZERO32 }
    } else {
        value.clamped(Single { bits: ZERO32 }, Single { bits: ONE32 })
    }
}

fn level(value: Single) -> (r: Single)
    ensures
        r == level_of(value),
{
    let zero = Single { bits: ZERO32 };
    if value.is_nan() {
        zero
    } else {
        value.clamp(zero, Single { bits: ONE32 })
    }
}

/// A level always lies between zero and one.
pub proof fn levels_are_bounded(value: Single)
    ensures
        !level_of(value).nan(),
        (Single { bits: ZERO32 }).at_most(level_of(value)),
        level_of(value).at_most(Single { bits: ONE32 }),
{
}

/// The volume between zero and one; zero where none could be read.
pub fn volume_level(read: Option<Single>) -> (r: Single)
    ensures
        r == (match read {
            Some(v) => level_of(v),
            None => Single { bits: ZERO32 },
        }),
        !r.nan(),
{
    proof {
        if read is Some {
            levels_are_bounded(read->0);
        }
    }
    match read {
        Some(v) => level(v),
        None => Single { bits: ZERO32 },
    }
}

/// What the brightness control answered, without white space around it.
pub fn brightness_answer(stdout: &Vec<u8>) -> (r: String)
    ensures
        r@ == text::trimmed(text::lossy(stdout@)),
{
    let answer = text::from_utf8_lossy(stdout);
    text::trim(answer.as_str()).to_owned()
}

/// The brightness between zero and one: `fraction` is the present one over the
/// greatest, which is `max`.
pub fn brightness_level(max: Single, fraction: Single) -> (r: Single)
    ensures
        r == (if (Single { bits: ZERO32 }).below(max) {
            level_of(fraction)
        } else {
            Single { bits: ZERO32 }
        }),
        !r.nan(),
{
    proof {
        levels_are_bounded(fraction);
    }
    let zero = Single { bits: ZERO32 };
    if zero.lt(max) {
        level(fraction)
    } else {
        zero
    }
}

/// What is appended to a command does not change its first word.
proof fn base_word_stays(line: Seq<char>, more: Seq<char>)
    requires
        base_word(line).len() > 0,
        more.len() > 0,
        text::white(more[0]),
    ensures
        base_word(line + more) == base_word(line),
{
    text::first_word_stays(line, more);
}

/// A launcher that was told to leave its configuration aside is not told
/// twice.
pub proof fn bypass_is_added_once(line: Seq<char>)
    ensures
        bypassed(bypassed(line)) == bypassed(line),
{
    let base = base_word(line);
    let n = line.len() as int;
    let b = base.len() as int;
    reveal_strlit("fuzzel");
    reveal_strlit("wofi");
    reveal_strlit("rofi");
    reveal_strlit("--config");
    reveal_strlit("--conf");
    reveal_strlit("-no-config");
    reveal_strlit(" --config /dev/null");
    reveal_strlit(" --conf /dev/null");
    reveal_strlit(" -no-config");
    if bypassed(line) != line {
        if text::ends(base, "fuzzel"@) {
            assert(base.subrange(b - 6, b)[5] == 'l');
        }
        if text::ends(base, "wofi"@) {
            assert(base.subrange(b - 4, b)[0] == 'w');
            assert(base.subrange(b - 4, b)[3] == 'i');
        }
        if text::ends(base, "rofi"@) {
            assert(base.subrange(b - 4, b)[0] == 'r');
            assert(base.subrange(b - 4, b)[3] == 'i');
        }
        let s = bypassed(line);
        if text::ends(base, "fuzzel"@) {
            base_word_stays(line, " --config /dev/null"@);
            assert(s.subrange(n + 1, n + 9) == "--config"@);
            assert(text::found_at(s, n + 1, "--config"@));
        } else if text::ends(base, "wofi"@) {
            base_word_stays(line, " --conf /dev/null"@);
            assert(s.subrange(n + 1, n + 7) == "--conf"@);
            assert(text::found_at(s, n + 1, "--conf"@));
        } else {
            base_word_stays(line, " -no-config"@);
            assert(s.subrange(n + 1, n + 11) == "-no-config"@);
            assert(text::found_at(s, n + 1, "-no-config"@));
        }
    }
}

} // verus!
