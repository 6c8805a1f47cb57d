use vstd::prelude::*;

verus! {

/// An operator command that the control logic accepts.
#[derive(Clone, Copy, Debug, PartialEq, Eq, Structural)]
pub enum Command {
    TempOn,
    TempOff,
    HumOn,
    HumOff,
    LedOn,
    LedOff,
}

/// The text by which an operator gives each command.
pub open spec fn command_text(command: Command) -> Seq<char> {
    match command {
        Command::TempOn => "TEMP ON"@,
        Command::TempOff => "TEMP OFF"@,
        Command::HumOn => "HUM ON"@,
        Command::HumOff => "HUM OFF"@,
        Command::LedOn => "LED ON"@,
        Command::LedOff => "LED OFF"@,
    }
}

/// The command whose text is exactly `text`, if any.
pub open spec fn command_named(text: Seq<char>) -> Option<Command> {
    if text == "TEMP ON"@ {
        Some(Command::TempOn)
    } else if text == "TEMP OFF"@ {
        Some(Command::TempOff)
    } else if text == "HUM ON"@ {
        Some(Command::HumOn)
    } else if text == "HUM OFF"@ {
        Some(Command::HumOff)
    } else if text == "LED ON"@ {
        Some(Command::LedOn)
    } else if text == "LED OFF"@ {
        Some(Command::LedOff)
    } else {
        None
    }
}

/// The characters with the Unicode `White_Space` property.
pub open spec fn is_white_space(c: char) -> bool {
    let u = c as u32;
    ||| 0x9 <= u <= 0xD
    ||| u == 0x20
    ||| u == 0x85
    ||| u == 0xA0
    ||| u == 0x1680
    ||| 0x2000 <= u <= 0x200A
    ||| u == 0x2028
    ||| u == 0x2029
    ||| u == 0x202F
    ||| u == 0x205F
    ||| u == 0x3000
}

/// `s` without its leading white space.
pub open spec fn trim_start(s: Seq<char>) -> Seq<char>
    decreases s.len(),
{
    if s.len() > 0 && is_white_space(s[0]) {
        trim_start(s.subrange(1, s.len() as int))
    } else {
        s
    }
}

/// `s` without its trailing white space.
pub open spec fn trim_end(s: Seq<char>) -> Seq<char>
    decreases s.len(),
{
    if s.len() > 0 && is_white_space(s[s.len() - 1]) {
        trim_end(s.subrange(0, s.len() - 1))
    } else {
        s
    }
}

/// `s` without its leading and trailing white space.
pub open spec fn trim(s: Seq<char>) -> Seq<char> {
    trim_end(trim_start(s))
}

/// Whether `c` has the Unicode `White_Space` property (what `char::is_whitespace` tests).
fn char_is_whitespace(c: char) -> (r: bool)
    ensures
        r == is_white_space(c),
{
    let u = c as u32;
    (0x9 <= u && u <= 0xD) || u == 0x20 || u == 0x85 || u == 0xA0 || u == 0x1680 || (0x2000 <= u
        && u <= 0x200A) || u == 0x2028 || u == 0x2029 || u == 0x202F || u == 0x205F || u == 0x3000
}

pub(crate) proof fn lemma_trim_start_skips(s: Seq<char>, k: int)
    requires
        0 <= k <= s.len(),
        forall|j: int| 0 <= j < k ==> is_white_space(#[trigger] s[j]),
    ensures
        trim_start(s) == trim_start(s.subrange(k, s.len() as int)),
    decreases k,
{
    if k == 0 {
        assert(s.subrange(0, s.len() as int) =~= s);
    } else {
        let rest = s.subrange(1, s.len() as int);
        assert forall|j: int| 0 <= j < k - 1 implies is_white_space(#[trigger] rest[j]) by {
            assert(rest[j] == s[j + 1]);
        }
        lemma_trim_start_skips(rest, k - 1);
        assert(rest.subrange(k - 1, rest.len() as int) =~= s.subrange(k, s.len() as int));
    }
}

pub(crate) proof fn lemma_trim_end_skips(s: Seq<char>, k: int)
    requires
        0 <= k <= s.len(),
        forall|j: int| k <= j < s.len() ==> is_white_space(#[trigger] s[j]),
    ensures
        trim_end(s) == trim_end(s.subrange(0, k)),
    decreases s.len() - k,
{
    if k == s.len() {
        assert(s.subrange(0, k) =~= s);
    } else {
        let rest = s.subrange(0, s.len() - 1);
        assert forall|j: int| k <= j < rest.len() implies is_white_space(#[trigger] rest[j]) by {
            assert(rest[j] == s[j]);
        }
        lemma_trim_end_skips(rest, k);
        assert(rest.subrange(0, k) =~= s.subrange(0, k));
    }
}

/// The characters of `line` without leading and trailing white space.
fn trimmed_chars(line: &str) -> (t: Vec<char>)
    ensures
        t@ == trim(line@),
{
    let n = line.unicode_len();
    let mut start: usize = 0;
    while start < n && char_is_whitespace(line.get_char(start))
        invariant
            n == line@.len(),
            start <= n,
            forall|j: int| 0 <= j < start ==> is_white_space(#[trigger] line@[j]),
        decreases n - start,
    {
        start = start + 1;
    }
    proof {
        lemma_trim_start_skips(line@, start as int);
    }
    let ghost rest = line@.subrange(start as int, n as int);
    assert(trim_start(line@) == rest);
    let mut end: usize = n;
    while end > start && char_is_whitespace(line.get_char(end - 1))
        invariant
            n == line@.len(),
            start <= end <= n,
            rest == line@.subrange(start as int, n as int),
            forall|j: int| end - start <= j < rest.len() ==> is_white_space(#[trigger] rest[j]),
        decreases end,
    {
        end = end - 1;
        assert(rest[end - start] == line@[end as int]);
    }
    proof {
        lemma_trim_end_skips(rest, end - start);
    }
    let mut t: Vec<char> = Vec::new();
    let mut i: usize = start;
    while i < end
        invariant
            n == line@.len(),
            start <= i <= end <= n,
            t@ == line@.subrange(start as int, i as int),
        decreases end - i,
    {
        t.push(line.get_char(i));
        i = i + 1;
        assert(t@ =~= line@.subrange(start as int, i as int));
    }
    assert(rest.subrange(0, end - start) =~= line@.subrange(start as int, end as int));
    t
}

/// Whether `chars` spell exactly `text`.
fn spells(chars: &Vec<char>, text: &str) -> (r: bool)
    ensures
        r == (chars@ == text@),
{
    let n = text.unicode_len();
    if chars.len() != n {
        return false;
    }
    let mut i: usize = 0;
    while i < n
        invariant
            n == text@.len(),
            n == chars@.len(),
            i <= n,
            forall|j: int| 0 <= j < i ==> chars@[j] == text@[j],
        decreases n - i,
    {
        if chars[i] != text.get_char(i) {
            return false;
        }
        i = i + 1;
    }
    assert(chars@ =~= text@);
    true
}

/// Reads an operator command from a line of text. White space around the command is
/// ignored; any other text is no command.
pub fn parse_command(line: &str) -> (c: Option<Command>)
    ensures
        c == command_named(trim(line@)),
{
    let t = trimmed_chars(line);
    if spells(&t, "TEMP ON") {
        Some(Command::TempOn)
    } else if spells(&t, "TEMP OFF") {
        Some(Command::TempOff)
    } else if spells(&t, "HUM ON") {
        Some(Command::HumOn)
    } else if spells(&t, "HUM OFF") {
        Some(Command::HumOff)
    } else if spells(&t, "LED ON") {
        Some(Command::LedOn)
    } else if spells(&t, "LED OFF") {
        Some(Command::LedOff)
    } else {
        None
    }
}

/// What the serial reader makes of the text received so far.
#[derive(Clone, Copy, Debug, PartialEq, Eq, Structural)]
pub enum LineStatus {
    /// No line break yet: keep reading.
    Incomplete,
    /// A complete line holding this command.
    Recognized(Command),
    /// A complete line that holds no command.
    Unrecognized,
}

/// Judges the text received on the serial line so far: it is complete once it holds a
/// line break, and then it is read as one command, white space around it ignored.
pub fn scan_received(text: &str) -> (s: LineStatus)
    ensures
        !text@.contains('\n') ==> s == LineStatus::Incomplete,
        text@.contains('\n') ==> s == match command_named(trim(text@)) {
            Some(c) => LineStatus::Recognized(c),
            None => LineStatus::Unrecognized,
        },
{
    let n = text.unicode_len();
    let mut i: usize = 0;
    while i < n
        invariant
            n == text@.len(),
            i <= n,
            forall|j: int| 0 <= j < i ==> text@[j] != '\n',
        decreases n - i,
    {
        if text.get_char(i) == '\n' {
            assert(text@[i as int] == '\n');
            match parse_command(text) {
                Some(c) => return LineStatus::Recognized(c),
                None => return LineStatus::Unrecognized,
            }
        }
        i = i + 1;
    }
    LineStatus::Incomplete
}

} // verus!
