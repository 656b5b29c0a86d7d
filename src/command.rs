use vstd::prelude::*;
use vstd::string::*;
use crate::types::{Cmd, Color, DeleteDirection, Direction, Mode};
use crate::terminal::char_text;

verus! {

/// Why a remote command line was refused.
#[derive(Debug, Clone, Copy, PartialEq, Eq, Structural)]
pub enum SendError {
    /// `edit` was given no path.
    MissingFile,
    /// The first word names no known command.
    UnknownCommand,
}

/// The text without leading and trailing white space, as `str::trim` gives it.
pub uninterp spec fn trimmed(s: Seq<char>) -> Seq<char>;

/// Relies on `str::trim`: the text without its leading and trailing white space.
#[verifier::external_body]
fn trim_text(s: &str) -> (r: String)
    ensures
        r@ == trimmed(s@),
{
    s.trim().to_string()
}

/// Whether `a` and `b` hold the same characters.
pub(crate) fn same_text(a: &str, b: &str) -> (r: bool)
    ensures
        r == (a@ == b@),
{
    let n = a.unicode_len();
    if n != b.unicode_len() {
        return false;
    }
    let mut i: usize = 0;
    while i < n
        invariant
            n == a@.len(),
            n == b@.len(),
            i <= n,
            forall|j: int| 0 <= j < i ==> a@[j] == b@[j],
        decreases n - i,
    {
        if a.get_char(i) != b.get_char(i) {
            return false;
        }
        i = i + 1;
    }
    assert(a@ =~= b@);
    true
}

/// `p` is where the first word of `s` ends: at the first space, or at the end.
pub open spec fn is_word_end(s: Seq<char>, p: int) -> bool {
    &&& 0 <= p <= s.len()
    &&& (p == s.len() || s[p] == ' ')
    &&& forall|j: int| 0 <= j < p ==> s[j] != ' '
}

fn word_end(s: &str, from: usize) -> (p: usize)
    requires
        from <= s@.len(),
    ensures
        from <= p,
        is_word_end(s@.skip(from as int), p - from),
{
    let n = s.unicode_len();
    let mut p = from;
    while p < n
        invariant
            n == s@.len(),
            from <= p <= n,
            forall|j: int| from <= j < p ==> s@[j] != ' ',
        decreases n - p,
    {
        if s.get_char(p) == ' ' {
            return p;
        }
        p = p + 1;
    }
    p
}

/// The outcome of the command line `s` once its first word is known to end at `p`:
/// only `edit` is known, and it takes the next word, trimmed, as the path to load.
pub open spec fn command_outcome(s: Seq<char>, p: int) -> Result<Seq<char>, SendError> {
    if s.take(p) != "edit"@ {
        Err(SendError::UnknownCommand)
    } else if p == s.len() {
        Err(SendError::MissingFile)
    } else {
        let rest = s.skip(p + 1);
        Ok(trimmed(rest.take(choose|q: int| is_word_end(rest, q))))
    }
}

proof fn lemma_word_end_unique(s: Seq<char>, p: int, q: int)
    requires
        is_word_end(s, p),
        is_word_end(s, q),
    ensures
        p == q,
{
    if p < q {
        assert(s[p] != ' ');
    } else if q < p {
        assert(s[q] != ' ');
    }
}

/// Parses a command line sent to a running editor: `edit <path>` asks to load `path`
/// (its surrounding white space trimmed) in the target client.
pub fn parse_remote_command(command: &str) -> (r: Result<Cmd, SendError>)
    ensures
        forall|p: int| is_word_end(command@, p) ==> match command_outcome(command@, p) {
            Ok(path) => r matches Ok(Cmd::LoadFile(f)) && f@ == path,
            Err(e) => r == Err::<Cmd, SendError>(e),
        },
{
    let n = command.unicode_len();
    let p = word_end(command, 0);
    assert(command@.skip(0) =~= command@);
    let first = command.substring_char(0, p);
    proof {
        assert forall|q: int| is_word_end(command@, q) implies q == p by {
            lemma_word_end_unique(command@, p as int, q);
        }
    }
    if !same_text(first, "edit") {
        return Err(SendError::UnknownCommand);
    }
    if p == n {
        return Err(SendError::MissingFile);
    }
    let q = word_end(command, p + 1);
    let path = command.substring_char(p + 1, q);
    let ghost rest = command@.skip(p + 1);
    proof {
        assert(path@ =~= rest.take(q - (p + 1)));
        let c = choose|c: int| is_word_end(rest, c);
        lemma_word_end_unique(rest, c, q - (p + 1));
    }
    Ok(Cmd::LoadFile(trim_text(path)))
}

/// The highlight color of a syntax tag.
pub open spec fn tag_color(tag: Seq<char>) -> Option<Color> {
    if tag == "function"@ || tag == "variable"@ {
        Some(Color { r: 128, g: 160, b: 255 })
    } else if tag == "string"@ {
        Some(Color { r: 207, g: 207, b: 176 })
    } else if tag == "keyword"@ || tag == "keyword.control"@ {
        Some(Color { r: 133, g: 220, b: 133 })
    } else if tag == "comment"@ {
        Some(Color { r: 142, g: 144, b: 140 })
    } else if tag == "attribute"@ {
        Some(Color { r: 200, g: 40, b: 41 })
    } else if tag == "type"@ {
        Some(Color { r: 66, g: 113, b: 174 })
    } else {
        None
    }
}

/// Returns the color that highlights a syntax tag, `None` for a tag without one.
pub fn get_color_from_tag(tag: &str) -> (r: Option<Color>)
    ensures
        r == tag_color(tag@),
{
    if same_text(tag, "function") || same_text(tag, "variable") {
        Some(Color { r: 128, g: 160, b: 255 })
    } else if same_text(tag, "string") {
        Some(Color { r: 207, g: 207, b: 176 })
    } else if same_text(tag, "keyword") || same_text(tag, "keyword.control") {
        Some(Color { r: 133, g: 220, b: 133 })
    } else if same_text(tag, "comment") {
        Some(Color { r: 142, g: 144, b: 140 })
    } else if same_text(tag, "attribute") {
        Some(Color { r: 200, g: 40, b: 41 })
    } else if same_text(tag, "type") {
        Some(Color { r: 66, g: 113, b: 174 })
    } else {
        None
    }
}

/// The path a `w` or `e` command line names: its second word where it has one, else
/// the path of the buffer shown.
pub open spec fn path_argument(line: Seq<char>, p: int, source: Seq<char>) -> Seq<char> {
    if p < line.len() {
        let rest = line.skip(p + 1);
        rest.take(choose|q: int| is_word_end(rest, q))
    } else {
        source
    }
}

pub open spec fn writes_to(c: Cmd, path: Seq<char>) -> bool {
    c matches Cmd::WriteBuffer(f) && f@ == path
}

pub open spec fn loads_from(c: Cmd, path: Seq<char>) -> bool {
    c matches Cmd::LoadFile(f) && f@ == path
}

/// What running the command line `line`, whose first word ends at `p`, sends: `w`
/// writes the buffer, `e` loads a file, `q` quits, `wq` writes then quits, `kill`
/// ends the editor, anything else nothing; then the client goes back to normal mode.
pub open spec fn command_line_outcome(r: Seq<Cmd>, line: Seq<char>, p: int, source: Seq<char>) -> bool {
    let word = line.take(p);
    let back = Cmd::ChangeMode(Mode::Normal);
    if word == "w"@ {
        r.len() == 2 && writes_to(r[0], path_argument(line, p, source)) && r[1] == back
    } else if word == "e"@ {
        r.len() == 2 && loads_from(r[0], path_argument(line, p, source)) && r[1] == back
    } else if word == "q"@ {
        r == seq![Cmd::Quit, back]
    } else if word == "wq"@ {
        r.len() == 3 && writes_to(r[0], source) && r[1] == Cmd::Quit && r[2] == back
    } else if word == "kill"@ {
        r == seq![Cmd::Kill, back]
    } else {
        r == seq![back]
    }
}

fn path_argument_exec(line: &str, p: usize, source: &String) -> (r: String)
    requires
        is_word_end(line@, p as int),
    ensures
        r@ == path_argument(line@, p as int, source@),
{
    if p < line.unicode_len() {
        let q = word_end(line, p + 1);
        let ghost rest = line@.skip(p + 1);
        proof {
            let c = choose|c: int| is_word_end(rest, c);
            lemma_word_end_unique(rest, c, q - (p + 1));
        }
        let word = line.substring_char(p + 1, q);
        assert(word@ =~= rest.take(q - (p + 1)));
        String::from_str(word)
    } else {
        source.clone()
    }
}

/// Returns the commands that running the command line `line` sends for a client whose
/// buffer was loaded from `source`.
pub fn run_command_line(line: &str, source: &String) -> (r: Vec<Cmd>)
    ensures
        forall|p: int| is_word_end(line@, p) ==> command_line_outcome(r@, line@, p, source@),
{
    let p = word_end(line, 0);
    assert(line@.skip(0) =~= line@);
    proof {
        assert forall|q: int| is_word_end(line@, q) implies q == p by {
            lemma_word_end_unique(line@, p as int, q);
        }
    }
    let word = line.substring_char(0, p);
    assert(word@ =~= line@.take(p as int));
    let mut r: Vec<Cmd> = Vec::new();
    if same_text(word, "w") {
        r.push(Cmd::WriteBuffer(path_argument_exec(line, p, source)));
    } else if same_text(word, "e") {
        r.push(Cmd::LoadFile(path_argument_exec(line, p, source)));
    } else if same_text(word, "q") {
        r.push(Cmd::Quit);
    } else if same_text(word, "wq") {
        r.push(Cmd::WriteBuffer(source.clone()));
        r.push(Cmd::Quit);
    } else if same_text(word, "kill") {
        r.push(Cmd::Kill);
    }
    r.push(Cmd::ChangeMode(Mode::Normal));
    proof {
        let back = Cmd::ChangeMode(Mode::Normal);
        if word@ == "q"@ && word@ != "w"@ && word@ != "e"@ {
            assert(r@ =~= seq![Cmd::Quit, back]);
        } else if word@ == "kill"@ && word@ != "w"@ && word@ != "e"@ && word@ != "q"@ && word@ != "wq"@ {
            assert(r@ =~= seq![Cmd::Kill, back]);
        } else if word@ != "w"@ && word@ != "e"@ && word@ != "q"@ && word@ != "wq"@ && word@ != "kill"@ {
            assert(r@ =~= seq![back]);
        }
    }
    r
}

/// The line typed in command mode, and the cursor's place in it. The place may pass
/// the end of the line until the move that follows a deletion arrives; edits clamp it.
pub struct CommandLine {
    pub text: Vec<char>,
    pub index: usize,
}

fn text_string(chars: &Vec<char>) -> (r: String)
    ensures
        r@ == chars@,
{
    let mut r = String::new();
    let mut i: usize = 0;
    while i < chars.len()
        invariant
            i <= chars@.len(),
            r@ == chars@.take(i as int),
        decreases chars@.len() - i,
    {
        r.append(char_text(chars[i]).as_str());
        i = i + 1;
        assert(r@ =~= chars@.take(i as int));
    }
    assert(chars@.take(i as int) =~= chars@);
    r
}

impl CommandLine {
    /// An empty line.
    pub fn new() -> (c: CommandLine)
        ensures
            c.text@.len() == 0,
            c.index == 0,
    {
        CommandLine { text: Vec::new(), index: 0 }
    }

    /// The line as text.
    pub fn line(&self) -> (r: String)
        ensures
            r@ == self.text@,
    {
        text_string(&self.text)
    }

    /// Handles one command for a client in `mode` whose buffer was loaded from `source`,
    /// and returns the commands it sends. Entering command mode empties the line;
    /// `RunCommand` runs it. In command mode a typed char goes in at the cursor, which
    /// then moves right; `Backspace` removes the char before the cursor, which then
    /// moves left; left and right moves stay within the line.
    pub fn update(&mut self, mode: Mode, cmd: &Cmd, source: &String) -> (r: Vec<Cmd>)
        ensures
            match *cmd {
                Cmd::RunCommand => {
                    &&& *final(self) == *old(self)
                    &&& forall|p: int| is_word_end(old(self).text@, p) ==> command_line_outcome(
                        r@,
                        old(self).text@,
                        p,
                        source@,
                    )
                },
                Cmd::ChangeMode(Mode::Command) => {
                    final(self).text@.len() == 0 && final(self).index == 0 && r@.len() == 0
                },
                Cmd::InsertChar(c) => if mode == Mode::Command {
                    let at = vstd::math::min(old(self).index as int, old(self).text@.len() as int);
                    &&& final(self).text@ == old(self).text@.insert(at, c)
                    &&& final(self).index == old(self).index
                    &&& r@ == seq![Cmd::MoveCursor(Direction::Right, false)]
                } else {
                    *final(self) == *old(self) && r@.len() == 0
                },
                Cmd::DeleteChar(DeleteDirection::Before) => if mode == Mode::Command && 0
                    < old(self).index <= old(self).text@.len() {
                    &&& final(self).text@ == old(self).text@.remove(old(self).index - 1)
                    &&& final(self).index == old(self).index
                    &&& r@ == seq![Cmd::MoveCursor(Direction::Left, false)]
                } else {
                    *final(self) == *old(self) && r@.len() == 0
                },
                Cmd::MoveCursor(Direction::Left, _) => {
                    &&& final(self).text == old(self).text
                    &&& final(self).index == if mode == Mode::Command && old(self).index > 0 {
                        (old(self).index - 1) as usize
                    } else {
                        old(self).index
                    }
                    &&& r@.len() == 0
                },
                Cmd::MoveCursor(Direction::Right, _) => {
                    &&& final(self).text == old(self).text
                    &&& final(self).index == if mode == Mode::Command && old(self).index
                        < old(self).text@.len() {
                        (old(self).index + 1) as usize
                    } else {
                        old(self).index
                    }
                    &&& r@.len() == 0
                },
                _ => *final(self) == *old(self) && r@.len() == 0,
            },
    {
        let in_command = match mode {
            Mode::Command => true,
            _ => false,
        };
        match cmd {
            Cmd::RunCommand => {
                let line = text_string(&self.text);
                run_command_line(line.as_str(), source)
            },
            Cmd::ChangeMode(Mode::Command) => {
                self.text = Vec::new();
                self.index = 0;
                Vec::new()
            },
            Cmd::InsertChar(c) => {
                if !in_command {
                    return Vec::new();
                }
                let at = if self.index <= self.text.len() { self.index } else { self.text.len() };
                self.text.insert(at, *c);
                vec![Cmd::MoveCursor(Direction::Right, false)]
            },
            Cmd::DeleteChar(DeleteDirection::Before) => {
                if !in_command || self.index == 0 || self.index > self.text.len() {
                    return Vec::new();
                }
                self.text.remove(self.index - 1);
                vec![Cmd::MoveCursor(Direction::Left, false)]
            },
            Cmd::MoveCursor(Direction::Left, _) => {
                if in_command && self.index > 0 {
                    self.index = self.index - 1;
                }
                Vec::new()
            },
            Cmd::MoveCursor(Direction::Right, _) => {
                if in_command && self.index < self.text.len() {
                    self.index = self.index + 1;
                }
                Vec::new()
            },
            _ => Vec::new(),
        }
    }
}

} // verus!
