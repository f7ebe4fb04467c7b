//! Sessions as tmux lists them, one to a line, such as
//! `main: 2 windows (created Thu Jan  1 00:00:00 1970) (attached)`.

use crate::text::{
    chars_of, contains, decimal_value, find_char, is_digit, leading_digits, lemma_leading_digits,
    occurs, parse_decimal, position_of,
};
use vstd::prelude::*;
use vstd::string::StringExecFns;

verus! {

/// Whether a client is attached to a session.
#[derive(Debug, Clone, Copy, PartialEq, Eq, Hash)]
pub enum State {
    Attached,
    Detached,
}

impl Default for State {
    fn default() -> (state: State)
        ensures
            state == State::Detached,
    {
        State::Detached
    }
}

/// What tmux tells of one session.
#[derive(Debug, PartialEq, Eq, Hash)]
pub struct Session {
    pub name: String,
    pub windows: usize,
    pub state: State,
}

/// Model of a [`Session`].
pub struct SessionView {
    pub name: Seq<char>,
    pub windows: usize,
    pub state: State,
}

impl View for Session {
    type V = SessionView;

    open spec fn view(&self) -> SessionView {
        SessionView { name: self.name@, windows: self.windows, state: self.state }
    }
}

impl DeepView for Session {
    type V = SessionView;

    open spec fn deep_view(&self) -> SessionView {
        self@
    }
}

impl Clone for Session {
    fn clone(&self) -> (r: Self)
        ensures
            r@ == self@,
    {
        Session { name: self.name.clone(), windows: self.windows, state: self.state }
    }
}

/// The part of `s` before its first `sep`; all of `s` where it holds none.
pub open spec fn before(s: Seq<char>, sep: char) -> Seq<char> {
    s.take(position_of(s, sep))
}

/// The part of `s` after its first `sep`, if it holds one.
pub open spec fn after(s: Seq<char>, sep: char) -> Option<Seq<char>> {
    if position_of(s, sep) < s.len() {
        Some(s.skip(position_of(s, sep) + 1))
    } else {
        None
    }
}

/// The digits of the window count in what follows the colon: one character
/// is passed over, then the digits are taken as far as they go.
pub open spec fn count_digits(rest: Seq<char>) -> Seq<char> {
    let tail = if rest.len() > 0 {
        rest.drop_first()
    } else {
        rest
    };
    tail.take(leading_digits(tail) as int)
}

/// The state that a line shows: attached where the text after the second
/// opening bracket, up to a third, mentions it.
pub open spec fn listed_state(line: Seq<char>) -> State {
    match after(line, '(') {
        None => State::Detached,
        Some(second) => match after(second, '(') {
            None => State::Detached,
            Some(third) => if occurs(before(third, '('), "attached"@) {
                State::Attached
            } else {
                State::Detached
            },
        },
    }
}

/// The session that a line of tmux's list describes.
///
/// The line's head is what stands before its first opening bracket. The name
/// is the head up to its first colon; the window count is the number after
/// the colon and one more character. A line whose head has no colon, or
/// whose count is missing or too large for the machine, describes none.
pub open spec fn listed(line: Seq<char>) -> Option<SessionView> {
    let head = before(line, '(');
    match after(head, ':') {
        None => None,
        Some(rest) => {
            let digits = count_digits(rest);
            if digits.len() == 0 || decimal_value(digits) > usize::MAX {
                None
            } else {
                Some(
                    SessionView {
                        name: before(head, ':'),
                        windows: decimal_value(digits) as usize,
                        state: listed_state(line),
                    },
                )
            }
        },
    }
}

/// Decides [`listed_state`] on the characters of `line`, whose first opening
/// bracket stands at `first`, if it has one.
fn state_of(line: &str, chars: &Vec<char>, first: usize) -> (state: State)
    requires
        chars@ == line@,
        first == position_of(line@, '('),
        first <= chars.len(),
    ensures
        state == listed_state(line@),
{
    let n = chars.len();
    if first == n {
        return State::Detached;
    }
    let second = find_char(chars, '(', first + 1, n);
    proof {
        assert(line@.skip(first + 1) =~= chars@.subrange(first + 1, n as int));
    }
    if second == n {
        return State::Detached;
    }
    let third = find_char(chars, '(', second + 1, n);
    let info = line.substring_char(second + 1, third);
    proof {
        let tail = line@.skip(first + 1);
        assert(tail.skip(second - first) =~= chars@.subrange(second + 1, n as int));
        assert(chars@.subrange(second + 1, n as int).take(third - second - 1) =~= info@);
    }
    if contains(info, "attached") {
        State::Attached
    } else {
        State::Detached
    }
}

impl Session {
    /// The session that `line` describes, if it describes one.
    pub fn parse(line: &str) -> (r: Option<Session>)
        ensures
            r.deep_view() == listed(line@),
    {
        let chars = chars_of(line);
        let n = chars.len();
        let first = find_char(&chars, '(', 0, n);
        let colon = find_char(&chars, ':', 0, first);
        let ghost head = before(line@, '(');
        proof {
            assert(chars@.subrange(0, n as int) =~= line@);
            assert(head =~= chars@.subrange(0, first as int));
        }
        if colon == first {
            return None;
        }
        let start = if colon + 1 < first {
            colon + 2
        } else {
            colon + 1
        };
        let mut end = start;
        while end < first && '0' <= chars[end] && chars[end] <= '9'
            invariant
                start <= end <= first <= chars.len(),
                forall|i: int| start <= i < end ==> is_digit(chars@[i]),
            decreases first - end,
        {
            end += 1;
        }
        let ghost rest = head.skip(colon + 1);
        let ghost tail = if rest.len() > 0 {
            rest.drop_first()
        } else {
            rest
        };
        proof {
            assert(tail =~= chars@.subrange(start as int, first as int));
            lemma_leading_digits(tail, end - start);
            assert(count_digits(rest) =~= chars@.subrange(start as int, end as int));
        }
        if end == start {
            return None;
        }
        match parse_decimal(&chars, start, end) {
            None => None,
            Some(windows) => {
                let name = line.substring_char(0, colon);
                assert(name@ =~= before(head, ':'));
                let state = state_of(line, &chars, first);
                Some(Session { name: String::from_str(name), windows: windows, state: state })
            },
        }
    }

    /// The session that `session_str` describes.
    pub fn from(session_str: &str) -> (session: Session)
        requires
            listed(session_str@) is Some,
        ensures
            Some(session@) == listed(session_str@),
    {
        match Session::parse(session_str) {
            Some(session) => session,
            None => vstd::pervasive::unreached(),
        }
    }
}

} // verus!
