use ttt::{Event, Outcome, Player, ProtocolError};

#[test]
fn encodings_are_json_lines() {
    assert_eq!(Event::Play(3).encode(), "{\"Play\":3}\n");
    assert_eq!(
        Event::Played { player: Player::O, pos: 8 }.encode(),
        "{\"Played\":{\"player\":\"O\",\"pos\":8}}\n"
    );
    assert_eq!(Event::End(Outcome::Tie).encode(), "{\"End\":\"Tie\"}\n");
    assert_eq!(Event::End(Outcome::X).encode(), "{\"End\":\"X\"}\n");
    assert_eq!(Event::Turn.encode(), "\"Turn\"\n");
}

#[test]
fn every_message_round_trips() {
    let mut all = vec![Event::Turn];
    for i in 0..9 {
        all.push(Event::Play(i));
        all.push(Event::Played { player: Player::X, pos: i });
        all.push(Event::Played { player: Player::O, pos: i });
    }
    for o in [Outcome::Tie, Outcome::X, Outcome::O] {
        all.push(Event::End(o));
    }
    assert_eq!(all.len(), 31);
    for e in all {
        assert_eq!(Event::decode(&e.encode()), Ok(e));
    }
}

#[test]
fn representative_messages_round_trip() {
    for e in [
        Event::Turn,
        Event::Play(0),
        Event::Played { player: Player::X, pos: 4 },
        Event::End(Outcome::O),
    ] {
        assert_eq!(Event::decode(&e.encode()), Ok(e));
    }
}

#[test]
fn decode_reads_messages_of_other_peers() {
    assert_eq!(Event::decode("{\"Play\":7}\n"), Ok(Event::Play(7)));
    assert_eq!(
        Event::decode("{\"Played\":{\"player\":\"X\",\"pos\":2}}\n"),
        Ok(Event::Played { player: Player::X, pos: 2 })
    );
    assert_eq!(Event::decode("{\"End\":\"O\"}\n"), Ok(Event::End(Outcome::O)));
}

#[test]
fn decode_rejects_malformed_lines() {
    for line in [
        "",
        "\n",
        "\"Turn\"",
        "\"Pass\"\n",
        "{\"Play\":9}\n",
        "{\"Play\":12}\n",
        "{\"Play\":-1}\n",
        "{\"Played\":{\"player\":\"Z\",\"pos\":2}}\n",
        "{\"End\":\"Draw\"}\n",
        "{\"Move\":3}\n",
        "not json\n",
    ] {
        assert_eq!(Event::decode(line), Err(ProtocolError::MalformedMessage), "{line:?}");
    }
}
