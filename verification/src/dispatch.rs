use vstd::prelude::*;
use vstd::string::StrSliceExecFns;
use crate::event::{Direction, Event, EventV};
use crate::identity::{Identity, IdentityV};

verus! {

/// A whitespace character, as the wire text may carry it.
pub open spec fn is_space(c: char) -> bool {
    ||| c == '\u{0009}'
    ||| c == '\u{000A}'
    ||| c == '\u{000B}'
    ||| c == '\u{000C}'
    ||| c == '\u{000D}'
    ||| c == ' '
    ||| c == '\u{0085}'
    ||| c == '\u{00A0}'
    ||| c == '\u{1680}'
    ||| ('\u{2000}' <= c && c <= '\u{200A}')
    ||| c == '\u{2028}'
    ||| c == '\u{2029}'
    ||| c == '\u{202F}'
    ||| c == '\u{205F}'
    ||| c == '\u{3000}'
}

/// Address punctuation that may separate the nickname from the command
/// text.
pub open spec fn is_addr_punct(c: char) -> bool {
    c == ',' || c == ':'
}

/// A character stripped between the nickname and the command text.
pub open spec fn is_addr_sep(c: char) -> bool {
    is_space(c) || is_addr_punct(c)
}

/// Executable form of `is_space`.
fn space_char(c: char) -> (r: bool)
    ensures
        r == is_space(c),
{
    c == '\u{0009}' || c == '\u{000A}' || c == '\u{000B}' || c == '\u{000C}' || c == '\u{000D}'
        || c == ' ' || c == '\u{0085}' || c == '\u{00A0}' || c == '\u{1680}' || ('\u{2000}' <= c
        && c <= '\u{200A}') || c == '\u{2028}' || c == '\u{2029}' || c == '\u{202F}' || c
        == '\u{205F}' || c == '\u{3000}'
}

/// Executable form of `is_addr_sep`.
fn addr_sep_char(c: char) -> (r: bool)
    ensures
        r == is_addr_sep(c),
{
    space_char(c) || c == ',' || c == ':'
}

/// First index at or after `from` whose character is not stripped as
/// leading whitespace or address punctuation; the length of `s` when all
/// of the rest is stripped.
pub open spec fn lead_end(s: Seq<char>, from: int) -> int
    decreases s.len() - from,
{
    if from < 0 || from >= s.len() {
        s.len() as int
    } else if !is_addr_sep(s[from]) {
        from
    } else {
        lead_end(s, from + 1)
    }
}

/// Where the text kept after stripping trailing whitespace ends: walks
/// `j` back over whitespace, never below `low`.
pub open spec fn trail_start(s: Seq<char>, low: int, j: int) -> int
    decreases j,
{
    if j <= low || j <= 0 {
        j
    } else if is_space(s[j - 1]) {
        trail_start(s, low, j - 1)
    } else {
        j
    }
}

/// The command text hidden in `body` when it is addressed to `nick`: the
/// body must begin, case-sensitively, with the nickname; what follows is
/// stripped of leading whitespace and address punctuation (comma, colon)
/// and of trailing whitespace; an empty remainder is no command.
pub open spec fn command_text_spec(nick: Seq<char>, body: Seq<char>) -> Option<Seq<char>> {
    if nick.len() <= body.len() && body.subrange(0, nick.len() as int) == nick {
        let a = lead_end(body, nick.len() as int);
        let b = trail_start(body, a, body.len() as int);
        if a < b {
            Some(body.subrange(a, b))
        } else {
            None
        }
    } else {
        None
    }
}

/// Model of a derived command.
pub struct CommandV {
    pub issuer: IdentityV,
    pub room: IdentityV,
    pub text: Seq<char>,
}

/// A bot-directed command: who issued it, in which room, and its text
/// with the nickname prefix and the address punctuation stripped.
/// Ephemeral — it exists only for the duration of dispatch.
#[derive(Debug, PartialEq, Eq)]
pub struct Command {
    pub issuer: Identity,
    pub room: Identity,
    pub text: String,
}

impl View for Command {
    type V = CommandV;

    open spec fn view(&self) -> CommandV {
        CommandV { issuer: self.issuer@, room: self.room@, text: self.text@ }
    }
}

/// The command, if any, that an event makes the dispatcher forward:
/// exactly for incoming messages whose body carries a non-empty command
/// text addressed to `nick`. Join events and outgoing messages are
/// reserved extension points and yield nothing.
pub open spec fn dispatch_spec(nick: Seq<char>, e: EventV) -> Option<CommandV> {
    match e {
        EventV::Message { from, to, direction, body, .. } => if direction
            == Direction::Incoming {
            match command_text_spec(nick, body) {
                Some(t) => Some(CommandV { issuer: from, room: to, text: t }),
                None => None,
            }
        } else {
            None
        },
        EventV::Join { .. } => None,
    }
}

/// Extract the command text addressed to `nick` from `body`, if any.
pub fn command_text(nick: &str, body: &str) -> (r: Option<String>)
    ensures
        (match r {
            Some(t) => command_text_spec(nick@, body@) == Some(t@),
            None => command_text_spec(nick@, body@) is None,
        }),
{
    let nlen = nick.unicode_len();
    let blen = body.unicode_len();
    if nlen > blen {
        return None;
    }
    let mut k: usize = 0;
    while k < nlen
        invariant
            k <= nlen,
            nlen <= blen,
            nlen as nat == nick@.len(),
            blen as nat == body@.len(),
            forall|j: int| 0 <= j < k ==> body@[j] == nick@[j],
        decreases nlen - k,
    {
        if body.get_char(k) != nick.get_char(k) {
            proof {
                let n = nick@.len() as int;
                assert(body@.subrange(0, n)[k as int] == body@[k as int]);
                assert(body@.subrange(0, n) != nick@);
            }
            return None;
        }
        k = k + 1;
    }
    proof {
        assert(body@.subrange(0, nick@.len() as int) =~= nick@);
    }
    let mut a: usize = nlen;
    while a < blen && addr_sep_char(body.get_char(a))
        invariant
            nlen <= a <= blen,
            blen as nat == body@.len(),
            lead_end(body@, nlen as int) == lead_end(body@, a as int),
        decreases blen - a,
    {
        a = a + 1;
    }
    proof {
        assert(lead_end(body@, a as int) == a as int);
    }
    let mut b: usize = blen;
    while b > a && space_char(body.get_char(b - 1))
        invariant
            a <= b <= blen,
            blen as nat == body@.len(),
            trail_start(body@, a as int, blen as int) == trail_start(body@, a as int, b as int),
        decreases b,
    {
        b = b - 1;
    }
    proof {
        assert(trail_start(body@, a as int, b as int) == b as int);
    }
    if a < b {
        Some(body.substring_char(a, b).to_owned())
    } else {
        None
    }
}

/// Consumes events and recognises when an incoming group-chat message is
/// directed at the bot's display nickname.
#[derive(Debug)]
pub struct Dispatcher {
    pub nickname: String,
}

impl Dispatcher {
    /// A dispatcher for the given display nickname.
    pub fn new(nickname: String) -> (r: Dispatcher)
        ensures
            r.nickname@ == nickname@,
    {
        Dispatcher { nickname }
    }

    /// Recognise a bot-directed command in one event and derive the
    /// command to forward to the external handler, if any.
    pub fn handle(&self, event: &Event) -> (r: Option<Command>)
        ensures
            (match r {
                Some(c) => dispatch_spec(self.nickname@, event@) == Some(c@),
                None => dispatch_spec(self.nickname@, event@) is None,
            }),
    {
        match event {
            Event::Message { from, to, direction, body, .. } => {
                if *direction == Direction::Incoming {
                    match command_text(self.nickname.as_str(), body.as_str()) {
                        Some(text) => Some(
                            Command { issuer: from.clone(), room: to.clone(), text },
                        ),
                        None => None,
                    }
                } else {
                    None
                }
            },
            Event::Join { .. } => None,
        }
    }
}

} // verus!
