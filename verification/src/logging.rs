//! The choice of the log level from its name in the configuration.

use vstd::prelude::*;
use vstd::string::*;

verus! {

/// The levels the bot logs at.
#[derive(Debug, Clone, Copy, PartialEq, Eq)]
pub enum LogLevel {
    Trace,
    Debug,
    Info,
    Warn,
    Error,
}

/// The level chosen for a name, and whether the name was one of the levels
/// (when it was not, the level is `Info` and the caller warns).
#[derive(Debug, Clone, Copy)]
pub struct LogLevelChoice {
    pub level: LogLevel,
    pub recognized: bool,
}

/// A letter in lower case; other characters unchanged.
pub open spec fn ascii_lower(c: char) -> char {
    if 'A' <= c <= 'Z' {
        ((c as int) + 32) as char
    } else {
        c
    }
}

/// The name in lower case. For the all-ASCII level names this agrees with
/// Unicode lowercasing: the only other character that lowercases to a
/// single ASCII letter is the Kelvin sign, to `k`, which no level name holds.
pub open spec fn lowered(s: Seq<char>) -> Seq<char> {
    s.map_values(|c: char| ascii_lower(c))
}

/// The level for a name, matched without regard to case.
pub open spec fn level_for(name: Seq<char>) -> Option<LogLevel> {
    let l = lowered(name);
    if l == "trace"@ {
        Some(LogLevel::Trace)
    } else if l == "debug"@ {
        Some(LogLevel::Debug)
    } else if l == "info"@ {
        Some(LogLevel::Info)
    } else if l == "warn"@ {
        Some(LogLevel::Warn)
    } else if l == "error"@ {
        Some(LogLevel::Error)
    } else {
        None
    }
}

/// `name` spells `word` with any of its lower-case letters written in upper case.
pub open spec fn spells_ignoring_case(name: Seq<char>, word: Seq<char>) -> bool {
    &&& name.len() == word.len()
    &&& forall|i: int|
        0 <= i < name.len() ==> (name[i] == word[i] || ('a' <= word[i] <= 'z' && (name[i] as int)
            + 32 == word[i] as int))
}

proof fn lemma_lowered_spelling(name: Seq<char>, word: Seq<char>)
    requires
        spells_ignoring_case(name, word),
        forall|i: int| 0 <= i < word.len() ==> 'a' <= #[trigger] word[i] <= 'z',
    ensures
        lowered(name) == word,
{
    assert forall|i: int| 0 <= i < name.len() implies ascii_lower(name[i]) == word[i] by {
        if name[i] != word[i] {
            let n = name[i];
            let w = word[i];
            assert('A' <= n <= 'Z');
        }
    }
    assert(lowered(name) =~= word);
}

/// Levels are chosen without regard to case: every upper-case letter lowers
/// to its lower-case letter, so a name that spells one of the five level
/// names in any mix of cases selects that level.
pub proof fn lemma_level_names_ignore_case(c: char, name: Seq<char>)
    ensures
        'A' <= c <= 'Z' ==> ascii_lower(c) as int == c as int + 32,
        !('A' <= c <= 'Z') ==> ascii_lower(c) == c,
        spells_ignoring_case(name, "trace"@) ==> level_for(name) == Some(LogLevel::Trace),
        spells_ignoring_case(name, "debug"@) ==> level_for(name) == Some(LogLevel::Debug),
        spells_ignoring_case(name, "info"@) ==> level_for(name) == Some(LogLevel::Info),
        spells_ignoring_case(name, "warn"@) ==> level_for(name) == Some(LogLevel::Warn),
        spells_ignoring_case(name, "error"@) ==> level_for(name) == Some(LogLevel::Error),
{
    reveal_strlit("trace");
    reveal_strlit("debug");
    reveal_strlit("info");
    reveal_strlit("warn");
    reveal_strlit("error");
    assert("trace"@ =~= seq!['t', 'r', 'a', 'c', 'e']);
    assert("debug"@ =~= seq!['d', 'e', 'b', 'u', 'g']);
    assert("info"@ =~= seq!['i', 'n', 'f', 'o']);
    assert("warn"@ =~= seq!['w', 'a', 'r', 'n']);
    assert("error"@ =~= seq!['e', 'r', 'r', 'o', 'r']);
    if spells_ignoring_case(name, "trace"@) {
        lemma_lowered_spelling(name, "trace"@);
    }
    if spells_ignoring_case(name, "debug"@) {
        lemma_lowered_spelling(name, "debug"@);
        assert("debug"@[0] != "trace"@[0]);
    }
    if spells_ignoring_case(name, "info"@) {
        lemma_lowered_spelling(name, "info"@);
    }
    if spells_ignoring_case(name, "warn"@) {
        lemma_lowered_spelling(name, "warn"@);
        assert("warn"@[0] != "info"@[0]);
    }
    if spells_ignoring_case(name, "error"@) {
        lemma_lowered_spelling(name, "error"@);
        assert("error"@[0] != "trace"@[0]);
        assert("error"@[0] != "debug"@[0]);
    }
}

fn lower_char(c: char) -> (r: char)
    ensures
        r == ascii_lower(c),
{
    if 'A' <= c && c <= 'Z' {
        let code: u8 = (c as u8) + 32;
        code as char
    } else {
        c
    }
}

/// Whether `name`, lowered, is `word`.
fn lowered_equals(name: &str, word: &str) -> (b: bool)
    ensures
        b == (lowered(name@) == word@),
{
    let n = name.unicode_len();
    if n != word.unicode_len() {
        return false;
    }
    let mut i: usize = 0;
    while i < n
        invariant
            n == name@.len(),
            n == word@.len(),
            i <= n,
            forall|j: int| 0 <= j < i ==> ascii_lower(name@[j]) == word@[j],
        decreases n - i,
    {
        if lower_char(name.get_char(i)) != word.get_char(i) {
            assert(lowered(name@)[i as int] != word@[i as int]);
            return false;
        }
        i = i + 1;
    }
    assert(lowered(name@) =~= word@);
    true
}

/// The level for a configured name: one of the five level names in any
/// case, or `Info` for anything else, marked as not recognized.
pub fn choose_log_level(name: &str) -> (c: LogLevelChoice)
    ensures
        c.recognized == (level_for(name@) is Some),
        c.recognized ==> c.level == level_for(name@)->0,
        !c.recognized ==> c.level == LogLevel::Info,
{
    let level = if lowered_equals(name, "trace") {
        Some(LogLevel::Trace)
    } else if lowered_equals(name, "debug") {
        Some(LogLevel::Debug)
    } else if lowered_equals(name, "info") {
        Some(LogLevel::Info)
    } else if lowered_equals(name, "warn") {
        Some(LogLevel::Warn)
    } else if lowered_equals(name, "error") {
        Some(LogLevel::Error)
    } else {
        None
    };
    match level {
        Some(l) => LogLevelChoice { level: l, recognized: true },
        None => LogLevelChoice { level: LogLevel::Info, recognized: false },
    }
}

} // verus!
