use vstd::prelude::*;

use crate::board::{Outcome, Player};

verus! {

/// The messages exchanged between the relay server and its two clients.
#[derive(PartialEq, Eq, Structural, Debug, Clone, Copy)]
pub enum Event {
    /// Client to server: place my mark on cell `.0`.
    Play(usize),
    /// Server to both clients: `player` placed a mark on cell `pos`.
    Played { player: Player, pos: usize },
    /// Server to both clients: the game is over.
    End(Outcome),
    /// Server to one client: it is your move.
    Turn,
}

/// A message that breaks the protocol.
#[derive(PartialEq, Eq, Structural, Debug, Clone, Copy)]
pub enum ProtocolError {
    /// The text is not the encoding of any message, or names a cell that
    /// does not exist.
    MalformedMessage,
    /// A well-formed message that the receiver does not take at this point.
    UnexpectedMessage,
}

impl Event {
    /// Every cell index the message carries names a cell of the board.
    pub open spec fn is_valid(self) -> bool {
        match self {
            Event::Play(i) => i < 9,
            Event::Played { pos, .. } => pos < 9,
            _ => true,
        }
    }
}

/// The decimal digit of a cell index below 9.
pub open spec fn digit(i: usize) -> Seq<char> {
    "012345678"@.subrange(i as int, i + 1)
}

/// The name of a player on the wire.
pub open spec fn player_name(p: Player) -> Seq<char> {
    match p {
        Player::X => "\"X\""@,
        Player::O => "\"O\""@,
    }
}

/// The name of an outcome on the wire.
pub open spec fn outcome_name(o: Outcome) -> Seq<char> {
    match o {
        Outcome::Tie => "\"Tie\""@,
        Outcome::X => "\"X\""@,
        Outcome::O => "\"O\""@,
    }
}

/// A message as one JSON record, the kind of message as its tag.
pub open spec fn record(e: Event) -> Seq<char> {
    match e {
        Event::Play(i) => "{\"Play\":"@ + digit(i) + "}"@,
        Event::Played { player, pos } => "{\"Played\":{\"player\":"@ + player_name(player)
            + ",\"pos\":"@ + digit(pos) + "}}"@,
        Event::End(o) => "{\"End\":"@ + outcome_name(o) + "}"@,
        Event::Turn => "\"Turn\""@,
    }
}

/// A message as it travels: its record and a line break.
pub open spec fn frame(e: Event) -> Seq<char> {
    record(e) + "\n"@
}

/// What a received line decodes to: the valid message whose frame it is,
/// if there is one.
pub open spec fn parse(line: Seq<char>) -> Result<Event, ProtocolError> {
    if exists|e: Event| e.is_valid() && frame(e) == line {
        Ok(choose|e: Event| e.is_valid() && frame(e) == line)
    } else {
        Err(ProtocolError::MalformedMessage)
    }
}

/// The number of valid messages.
pub const MESSAGE_COUNT: usize = 31;

/// The valid messages, numbered: the nine `Play`s, the nine `Played`s of
/// `X`, the nine of `O`, the three `End`s, and `Turn`.
pub open spec fn message_at(k: int) -> Event {
    if k < 9 {
        Event::Play(k as usize)
    } else if k < 18 {
        Event::Played { player: Player::X, pos: (k - 9) as usize }
    } else if k < 27 {
        Event::Played { player: Player::O, pos: (k - 18) as usize }
    } else if k == 27 {
        Event::End(Outcome::Tie)
    } else if k == 28 {
        Event::End(Outcome::X)
    } else if k == 29 {
        Event::End(Outcome::O)
    } else {
        Event::Turn
    }
}

/// The number that `message_at` gives a valid message.
pub open spec fn message_number(e: Event) -> int {
    match e {
        Event::Play(i) => i as int,
        Event::Played { player: Player::X, pos } => 9 + pos,
        Event::Played { player: Player::O, pos } => 18 + pos,
        Event::End(Outcome::Tie) => 27,
        Event::End(Outcome::X) => 28,
        Event::End(Outcome::O) => 29,
        Event::Turn => 30,
    }
}

/// Every valid message has its number.
proof fn lemma_numbering(e: Event)
    requires
        e.is_valid(),
    ensures
        0 <= message_number(e) < MESSAGE_COUNT,
        message_at(message_number(e)) == e,
{
}

/// The message with number `k`.
fn message(k: usize) -> (r: Event)
    requires
        k < MESSAGE_COUNT,
    ensures
        r == message_at(k as int),
        r.is_valid(),
{
    if k < 9 {
        Event::Play(k)
    } else if k < 18 {
        Event::Played { player: Player::X, pos: k - 9 }
    } else if k < 27 {
        Event::Played { player: Player::O, pos: k - 18 }
    } else if k == 27 {
        Event::End(Outcome::Tie)
    } else if k == 28 {
        Event::End(Outcome::X)
    } else if k == 29 {
        Event::End(Outcome::O)
    } else {
        Event::Turn
    }
}

/// The digit of cell index `i`, as text.
fn digit_text(i: usize) -> (r: &'static str)
    requires
        i < 9,
    ensures
        r@ == digit(i),
{
    proof {
        reveal_strlit("012345678");
    }
    "012345678".substring_char(i, i + 1)
}

fn player_text(p: Player) -> (r: &'static str)
    ensures
        r@ == player_name(p),
{
    match p {
        Player::X => "\"X\"",
        Player::O => "\"O\"",
    }
}

fn outcome_text(o: Outcome) -> (r: &'static str)
    ensures
        r@ == outcome_name(o),
{
    match o {
        Outcome::Tie => "\"Tie\"",
        Outcome::X => "\"X\"",
        Outcome::O => "\"O\"",
    }
}

impl Event {
    /// Whether every cell index the message carries names a cell of the
    /// board, which `encode` asks of its message.
    pub fn has_valid_cells(&self) -> (r: bool)
        ensures
            r == self.is_valid(),
    {
        match *self {
            Event::Play(i) => i < 9,
            Event::Played { pos, .. } => pos < 9,
            _ => true,
        }
    }

    /// The message as one line of text, line break included.
    pub fn encode(&self) -> (r: String)
        requires
            self.is_valid(),
        ensures
            r@ == frame(*self),
    {
        let mut out = String::new();
        match *self {
            Event::Play(i) => {
                out.append("{\"Play\":");
                out.append(digit_text(i));
                out.append("}");
            },
            Event::Played { player, pos } => {
                out.append("{\"Played\":{\"player\":");
                out.append(player_text(player));
                out.append(",\"pos\":");
                out.append(digit_text(pos));
                out.append("}}");
            },
            Event::End(o) => {
                out.append("{\"End\":");
                out.append(outcome_text(o));
                out.append("}");
            },
            Event::Turn => {
                out.append("\"Turn\"");
            },
        }
        out.append("\n");
        out
    }

    /// The message that `line` (line break included) encodes; any other
    /// text is malformed. The valid messages are few, so `line` is held
    /// against the encoding of each in turn.
    pub fn decode(line: &str) -> (r: Result<Event, ProtocolError>)
        ensures
            r == parse(line@),
    {
        let text = String::from_str(line);
        let mut k: usize = 0;
        while k < MESSAGE_COUNT
            invariant
                k <= MESSAGE_COUNT,
                text@ == line@,
                forall|j: int| 0 <= j < k ==> frame(#[trigger] message_at(j)) != line@,
            decreases MESSAGE_COUNT - k,
        {
            let e = message(k);
            if e.encode() == text {
                proof {
                    lemma_round_trip(e);
                }
                return Ok(e);
            }
            k += 1;
        }
        proof {
            assert forall|e: Event| e.is_valid() implies frame(e) != line@ by {
                lemma_numbering(e);
            }
        }
        Err(ProtocolError::MalformedMessage)
    }
}

/// The characters of a frame that tell the messages of one kind apart.
proof fn lemma_frame_shape(e: Event)
    requires
        e.is_valid(),
    ensures
        match e {
            Event::Play(i) => frame(e).len() == 11 && frame(e)[8] == "012345678"@[i as int],
            Event::Played { player, pos } => frame(e).len() == 34 && frame(e)[21]
                == player_name(player)[1] && frame(e)[30] == "012345678"@[pos as int],
            Event::End(Outcome::Tie) => frame(e).len() == 14,
            Event::End(o) => frame(e).len() == 12 && frame(e)[8] == outcome_name(o)[1],
            Event::Turn => frame(e).len() == 7,
        },
{
    reveal_strlit("012345678");
    reveal_strlit("\"X\"");
    reveal_strlit("\"O\"");
    reveal_strlit("\"Tie\"");
    reveal_strlit("{\"Play\":");
    reveal_strlit("{\"Played\":{\"player\":");
    reveal_strlit(",\"pos\":");
    reveal_strlit("}}");
    reveal_strlit("{\"End\":");
    reveal_strlit("}");
    reveal_strlit("\"Turn\"");
    reveal_strlit("\n");
    match e {
        Event::Play(i) => {
            assert(digit(i).len() == 1);
            assert(frame(e) == "{\"Play\":"@ + digit(i) + "}"@ + "\n"@);
        },
        Event::Played { player, pos } => {
            assert(digit(pos).len() == 1);
            assert(player_name(player).len() == 3);
        },
        Event::End(o) => {
            assert(outcome_name(o).len() == 3 || o == Outcome::Tie);
        },
        Event::Turn => {},
    }
}

/// Two valid messages with the same frame are the same message.
pub proof fn lemma_frame_injective(a: Event, b: Event)
    requires
        a.is_valid(),
        b.is_valid(),
        frame(a) == frame(b),
    ensures
        a == b,
{
    reveal_strlit("012345678");
    reveal_strlit("\"X\"");
    reveal_strlit("\"O\"");
    lemma_frame_shape(a);
    lemma_frame_shape(b);
}

/// Encoding a valid message and decoding the result gives that message
/// back.
pub proof fn lemma_round_trip(e: Event)
    requires
        e.is_valid(),
    ensures
        parse(frame(e)) == Ok::<Event, ProtocolError>(e),
{
    let c = choose|c: Event| c.is_valid() && frame(c) == frame(e);
    lemma_frame_injective(c, e);
}

} // verus!
