use vstd::prelude::*;
use crate::phase::{Direction, Fault, GameRequest, Phase, Step};
use crate::text::{chars_of, string_from_chars};

verus! {

/// An operator command, as read from one line of input.
#[derive(Clone, Copy, Debug, PartialEq, Eq, Structural)]
pub enum Command {
    /// Advance the session by the step of its current phase.
    Next,
    /// A board request.
    Game(GameRequest),
    /// Show the coordinator's roster status.
    Status,
    /// An empty line or a comment: nothing to do.
    Skip,
}

/// The characters that separate words: Unicode's white space.
pub open spec fn is_space(c: char) -> bool {
    let u = c as u32;
    (9 <= u <= 13) || u == 32 || u == 0x85 || u == 0xA0 || u == 0x1680 || (0x2000 <= u <= 0x200A)
        || u == 0x2028 || u == 0x2029 || u == 0x202F || u == 0x205F || u == 0x3000
}

/// The first index from `i` on that holds no separator.
pub open spec fn skip_space(s: Seq<char>, i: int) -> int
    decreases s.len() - i,
{
    if 0 <= i < s.len() && is_space(s[i]) {
        skip_space(s, i + 1)
    } else {
        i
    }
}

/// The first index from `i` on that holds a separator, or the end.
pub open spec fn word_end(s: Seq<char>, i: int) -> int
    decreases s.len() - i,
{
    if 0 <= i < s.len() && !is_space(s[i]) {
        word_end(s, i + 1)
    } else {
        i
    }
}

/// The first word of the line; empty when the line holds none.
pub open spec fn first_word(s: Seq<char>) -> Seq<char> {
    let a = skip_space(s, 0);
    s.subrange(a, word_end(s, a))
}

/// The second word of the line; empty when the line holds fewer.
pub open spec fn second_word(s: Seq<char>) -> Seq<char> {
    let a = skip_space(s, 0);
    let b = skip_space(s, word_end(s, a));
    s.subrange(b, word_end(s, b))
}

/// A word that marks a comment line.
pub open spec fn is_comment(w: Seq<char>) -> bool {
    w.len() > 0 && w[0] == '#'
}

/// The command a word names, `move` aside (it takes a direction).
pub open spec fn word_command(w: Seq<char>) -> Option<Command> {
    if w == seq!['n', 'e', 'x', 't'] {
        Some(Command::Next)
    } else if w == seq!['i', 'n', 'i', 't'] {
        Some(Command::Game(GameRequest::InitGame))
    } else if w == seq!['s', 'e', 't', 'u', 'p', '_', 'g', 'a', 'm', 'e'] {
        Some(Command::Game(GameRequest::SetupGame))
    } else if w == seq!['l', 'a', 'y'] {
        Some(Command::Game(GameRequest::Lay))
    } else if w == seq!['p', 'i', 'c', 'k', 'u', 'p'] {
        Some(Command::Game(GameRequest::Pickup))
    } else if w == seq!['d', 'o', 'n', 'e'] {
        Some(Command::Game(GameRequest::Done))
    } else if w == seq!['s', 't', 'a', 't', 'u', 's'] {
        Some(Command::Status)
    } else {
        None
    }
}

pub open spec fn is_move(w: Seq<char>) -> bool {
    w == seq!['m', 'o', 'v', 'e']
}

/// The direction a word names.
pub open spec fn direction_of(w: Seq<char>) -> Option<Direction> {
    if w == seq!['u', 'p'] {
        Some(Direction::Up)
    } else if w == seq!['d', 'o', 'w', 'n'] {
        Some(Direction::Down)
    } else if w == seq!['l', 'e', 'f', 't'] {
        Some(Direction::Left)
    } else if w == seq!['r', 'i', 'g', 'h', 't'] {
        Some(Direction::Right)
    } else {
        None
    }
}

fn space(c: char) -> (r: bool)
    ensures
        r == is_space(c),
{
    let u = c as u32;
    (9 <= u && u <= 13) || u == 32 || u == 0x85 || u == 0xA0 || u == 0x1680 || (0x2000 <= u && u
        <= 0x200A) || u == 0x2028 || u == 0x2029 || u == 0x202F || u == 0x205F || u == 0x3000
}

fn skip_space_from(s: &Vec<char>, i: usize) -> (r: usize)
    requires
        i <= s@.len(),
    ensures
        r == skip_space(s@, i as int),
        i <= r <= s@.len(),
{
    let mut j: usize = i;
    while j < s.len() && space(s[j])
        invariant
            i <= j <= s@.len(),
            skip_space(s@, j as int) == skip_space(s@, i as int),
        decreases s@.len() - j,
    {
        j = j + 1;
    }
    j
}

fn word_end_from(s: &Vec<char>, i: usize) -> (r: usize)
    requires
        i <= s@.len(),
    ensures
        r == word_end(s@, i as int),
        i <= r <= s@.len(),
{
    let mut j: usize = i;
    while j < s.len() && !space(s[j])
        invariant
            i <= j <= s@.len(),
            word_end(s@, j as int) == word_end(s@, i as int),
        decreases s@.len() - j,
    {
        j = j + 1;
    }
    j
}

/// Whether `s[a..b]` spells `kw`.
fn spells(s: &Vec<char>, a: usize, b: usize, kw: &Vec<char>) -> (r: bool)
    requires
        a <= b <= s@.len(),
    ensures
        r == (s@.subrange(a as int, b as int) == kw@),
{
    if b - a != kw.len() {
        return false;
    }
    let mut i: usize = 0;
    while i < kw.len()
        invariant
            a <= b <= s@.len(),
            b - a == kw@.len(),
            i <= kw@.len(),
            forall|j: int| 0 <= j < i ==> s@[a + j] == kw@[j],
        decreases kw@.len() - i,
    {
        if s[a + i] != kw[i] {
            assert(s@.subrange(a as int, b as int)[i as int] != kw@[i as int]);
            return false;
        }
        i = i + 1;
    }
    assert(s@.subrange(a as int, b as int) =~= kw@);
    true
}

fn word_command_of(s: &Vec<char>, a: usize, b: usize) -> (r: Option<Command>)
    requires
        a <= b <= s@.len(),
    ensures
        r == word_command(s@.subrange(a as int, b as int)),
{
    if spells(s, a, b, &vec!['n', 'e', 'x', 't']) {
        Some(Command::Next)
    } else if spells(s, a, b, &vec!['i', 'n', 'i', 't']) {
        Some(Command::Game(GameRequest::InitGame))
    } else if spells(s, a, b, &vec!['s', 'e', 't', 'u', 'p', '_', 'g', 'a', 'm', 'e']) {
        Some(Command::Game(GameRequest::SetupGame))
    } else if spells(s, a, b, &vec!['l', 'a', 'y']) {
        Some(Command::Game(GameRequest::Lay))
    } else if spells(s, a, b, &vec!['p', 'i', 'c', 'k', 'u', 'p']) {
        Some(Command::Game(GameRequest::Pickup))
    } else if spells(s, a, b, &vec!['d', 'o', 'n', 'e']) {
        Some(Command::Game(GameRequest::Done))
    } else if spells(s, a, b, &vec!['s', 't', 'a', 't', 'u', 's']) {
        Some(Command::Status)
    } else {
        None
    }
}

fn direction_at(s: &Vec<char>, a: usize, b: usize) -> (r: Option<Direction>)
    requires
        a <= b <= s@.len(),
    ensures
        r == direction_of(s@.subrange(a as int, b as int)),
{
    if spells(s, a, b, &vec!['u', 'p']) {
        Some(Direction::Up)
    } else if spells(s, a, b, &vec!['d', 'o', 'w', 'n']) {
        Some(Direction::Down)
    } else if spells(s, a, b, &vec!['l', 'e', 'f', 't']) {
        Some(Direction::Left)
    } else if spells(s, a, b, &vec!['r', 'i', 'g', 'h', 't']) {
        Some(Direction::Right)
    } else {
        None
    }
}

/// Reads one line of operator input. Words are separated by white space.
/// An empty line, or one whose first word starts with `#`, is `Skip`;
/// `move` takes a direction (`up`, `down`, `left`, `right`) as its second
/// word; any other first word must name a command.
pub fn parse_command(line: &str) -> (r: Result<Command, Fault>)
    ensures
        ({
            let w = first_word(line@);
            let d = second_word(line@);
            if w.len() == 0 || is_comment(w) {
                r == Ok::<Command, Fault>(Command::Skip)
            } else if is_move(w) {
                if d.len() == 0 {
                    r == Err::<Command, Fault>(Fault::MissingDirection)
                } else {
                    match direction_of(d) {
                        Some(dir) => r == Ok::<Command, Fault>(
                            Command::Game(GameRequest::Move(dir)),
                        ),
                        None => r matches Err(Fault::InvalidDirection(t)) && t@ == d,
                    }
                }
            } else {
                match word_command(w) {
                    Some(c) => r == Ok::<Command, Fault>(c),
                    None => r matches Err(Fault::UnknownCommand(t)) && t@ == w,
                }
            }
        }),
{
    let s = chars_of(line);
    let a = skip_space_from(&s, 0);
    let b = word_end_from(&s, a);
    if a == b || s[a] == '#' {
        return Ok(Command::Skip);
    }
    if spells(&s, a, b, &vec!['m', 'o', 'v', 'e']) {
        let c = skip_space_from(&s, b);
        let e = word_end_from(&s, c);
        if c == e {
            return Err(Fault::MissingDirection);
        }
        return match direction_at(&s, c, e) {
            Some(dir) => Ok(Command::Game(GameRequest::Move(dir))),
            None => Err(Fault::InvalidDirection(string_from_chars(vstd::slice::slice_subrange(s.as_slice(), c, e)))),
        };
    }
    match word_command_of(&s, a, b) {
        Some(c) => Ok(c),
        None => Err(Fault::UnknownCommand(string_from_chars(vstd::slice::slice_subrange(s.as_slice(), a, b)))),
    }
}


/// The step a command asks of the session in its current phase: `next`
/// performs the phase's own step; the other commands name theirs.
pub fn step_for<C, K, O>(phase: &Phase<C, K, O>, command: Command) -> (r: Step)
    ensures
        r == match command {
            Command::Next => phase.forward_step(),
            Command::Game(g) => Step::Game(g),
            Command::Status => Step::Status,
            Command::Skip => Step::Skip,
        },
{
    match command {
        Command::Next => phase.next_step(),
        Command::Game(g) => Step::Game(g),
        Command::Status => Step::Status,
        Command::Skip => Step::Skip,
    }
}

} // verus!
