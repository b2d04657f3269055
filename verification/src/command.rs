//! The commands of the edge's console: one line of text, one request to
//! the daemon.

use vstd::prelude::*;
use vstd::string::StrSliceExecFns;

verus! {

/// A request typed at the console.
#[derive(Clone, Debug, PartialEq, Eq)]
pub enum Command {
    /// `up`: bring the device up.
    Up,
    /// `down`: bring the device down.
    Down,
    /// `upgrade`: ask the relay for the data channel.
    Upgrade,
    /// `name <name>`: log in under this name.
    Login { name: String },
    /// `quit`: leave the console.
    Quit,
    /// Anything else: show the usage.
    Unknown,
}

/// A request typed at the console, as contracts see it.
pub enum CommandView {
    Up,
    Down,
    Upgrade,
    Login { name: Seq<char> },
    Quit,
    Unknown,
}

impl View for Command {
    type V = CommandView;

    open spec fn view(&self) -> CommandView {
        match *self {
            Command::Up => CommandView::Up,
            Command::Down => CommandView::Down,
            Command::Upgrade => CommandView::Upgrade,
            Command::Login { name } => CommandView::Login { name: name@ },
            Command::Quit => CommandView::Quit,
            Command::Unknown => CommandView::Unknown,
        }
    }
}

/// Whether `c` is white space: a character with the Unicode property
/// `White_Space`.
pub open spec fn is_white_space(c: char) -> bool {
    let u = c as u32;
    ||| 0x09 <= u <= 0x0D
    ||| u == 0x20
    ||| u == 0x85
    ||| u == 0xA0
    ||| u == 0x1680
    ||| 0x2000 <= u <= 0x200A
    ||| u == 0x2028
    ||| u == 0x2029
    ||| u == 0x202F
    ||| u == 0x205F
    ||| u == 0x3000
}

/// Whether `line[from..to]` is `line` without the white space at its two
/// ends.
pub open spec fn trim_bounds(line: Seq<char>, from: int, to: int) -> bool {
    &&& 0 <= from <= to <= line.len()
    &&& forall|k: int| 0 <= k < from ==> is_white_space(#[trigger] line[k])
    &&& forall|k: int| to <= k < line.len() ==> is_white_space(#[trigger] line[k])
    &&& from < to ==> !is_white_space(line[from]) && !is_white_space(line[to - 1])
}

/// `line` without the white space at its two ends.
pub open spec fn trimmed(line: Seq<char>) -> Seq<char> {
    let bounds = choose|bounds: (int, int)| trim_bounds(line, bounds.0, bounds.1);
    line.subrange(bounds.0, bounds.1)
}

/// Whether `word` starts with `name`.
pub open spec fn starts_with_name(word: Seq<char>) -> bool {
    &&& word.len() >= 4
    &&& word[0] == 'n'
    &&& word[1] == 'a'
    &&& word[2] == 'm'
    &&& word[3] == 'e'
}

/// The command that `word`, a line without the white space at its ends,
/// stands for.
///
/// The words `up`, `down`, `upgrade` and `quit` stand for themselves. A
/// word that starts with `name` logs in: whatever follows the fifth
/// character is the name, where the fifth character exists and is a
/// one-byte character (a blank, as a rule). Every other word is unknown.
pub open spec fn command_of(word: Seq<char>) -> CommandView {
    if word == "up"@ {
        CommandView::Up
    } else if word == "down"@ {
        CommandView::Down
    } else if word == "upgrade"@ {
        CommandView::Upgrade
    } else if starts_with_name(word) {
        if word.len() >= 5 && (word[4] as u32) < 0x80 {
            CommandView::Login { name: word.subrange(5, word.len() as int) }
        } else {
            CommandView::Unknown
        }
    } else if word == "quit"@ {
        CommandView::Quit
    } else {
        CommandView::Unknown
    }
}

/// A line has one trimmed form, whatever bounds cut it out.
pub proof fn lemma_trim_unique(line: Seq<char>, a: int, b: int, c: int, d: int)
    requires
        trim_bounds(line, a, b),
        trim_bounds(line, c, d),
    ensures
        line.subrange(a, b) == line.subrange(c, d),
{
    if a < b && c < d {
        if a < c {
            assert(is_white_space(line[a]));
        }
        if c < a {
            assert(is_white_space(line[c]));
        }
        if b < d {
            assert(is_white_space(line[d - 1]));
        }
        if d < b {
            assert(is_white_space(line[b - 1]));
        }
    } else if a < b {
        // `c == d`: by the second bounds the whole line is white space.
        assert(is_white_space(line[a]));
    } else if c < d {
        assert(is_white_space(line[c]));
    } else {
        assert(line.subrange(a, b) =~= line.subrange(c, d));
    }
}

/// Whatever bounds cut the white space off a line, what they leave is its
/// trimmed form.
pub proof fn lemma_trimmed(line: Seq<char>, from: int, to: int)
    requires
        trim_bounds(line, from, to),
    ensures
        trimmed(line) == line.subrange(from, to),
{
    let witness: (int, int) = (from, to);
    assert(trim_bounds(line, witness.0, witness.1));
    let bounds: (int, int) = choose|bounds: (int, int)| trim_bounds(line, bounds.0, bounds.1);
    lemma_trim_unique(line, from, to, bounds.0, bounds.1);
}

/// Tells whether `c` is white space.
pub fn is_space(c: char) -> (res: bool)
    ensures
        res == is_white_space(c),
{
    let u: u32 = c as u32;
    (0x09 <= u && u <= 0x0D) || u == 0x20 || u == 0x85 || u == 0xA0 || u == 0x1680 || (0x2000 <= u
        && u <= 0x200A) || u == 0x2028 || u == 0x2029 || u == 0x202F || u == 0x205F || u == 0x3000
}

/// Cuts the white space off both ends of `line`.
pub fn trim<'a>(line: &'a str) -> (word: &'a str)
    ensures
        word@ == trimmed(line@),
{
    let n: usize = line.unicode_len();
    let mut from: usize = 0;
    while from < n && is_space(line.get_char(from))
        invariant
            from <= n,
            n == line@.len(),
            forall|k: int| 0 <= k < from ==> is_white_space(#[trigger] line@[k]),
        decreases n - from,
    {
        from = from + 1;
    }
    let mut to: usize = n;
    while to > from && is_space(line.get_char(to - 1))
        invariant
            from <= to <= n,
            n == line@.len(),
            forall|k: int| to <= k < n ==> is_white_space(#[trigger] line@[k]),
        decreases to,
    {
        to = to - 1;
    }
    proof {
        lemma_trimmed(line@, from as int, to as int);
    }
    line.substring_char(from, to)
}

/// Reads one line of the console.
///
/// White space at the ends of the line does not count; what is left is
/// read as [`command_of`] says.
pub fn parse_command(line: &str) -> (cmd: Command)
    ensures
        cmd@ == command_of(trimmed(line@)),
{
    let word: &str = trim(line);
    let owned: String = word.to_owned();
    let n: usize = word.unicode_len();
    if owned == "up".to_owned() {
        Command::Up
    } else if owned == "down".to_owned() {
        Command::Down
    } else if owned == "upgrade".to_owned() {
        Command::Upgrade
    } else if n >= 4 && word.get_char(0) == 'n' && word.get_char(1) == 'a' && word.get_char(2)
        == 'm' && word.get_char(3) == 'e' {
        if n >= 5 && (word.get_char(4) as u32) < 0x80 {
            Command::Login { name: word.substring_char(5, n).to_owned() }
        } else {
            Command::Unknown
        }
    } else if owned == "quit".to_owned() {
        Command::Quit
    } else {
        Command::Unknown
    }
}

} // verus!
