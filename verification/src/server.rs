//! The server's per-datagram decision step: decode the payload, apply it to
//! the round, and say what must be sent and to whom. The datagram transport
//! around it only carries bytes.
use vstd::prelude::*;
use vstd::std_specs::cmp::PartialEqSpec;
use crate::codec::{parse_byte_stream, spec_decode, utf8_chars};
use crate::game::{Game, GameError, HandPlayed, Player};

verus! {

/// What the server does in answer to one datagram.
#[derive(Debug, Eq, PartialEq)]
pub enum ServerStep<T> {
    /// Send this text back to the sender.
    Reply(String),
    /// The play was registered but the round is not complete; send nothing.
    Waiting,
    /// The round completed and both slots were cleared: send the fixed win
    /// text to the winner's address and the fixed loss text to the loser's.
    RoundOver { winner: T, loser: T },
}

/// The fixed text sent to the round's winner.
pub fn win_message() -> (r: String)
    ensures
        r@ == "You've win!!\nGame will refresh automatically!"@,
{
    String::from_str("You've win!!\nGame will refresh automatically!")
}

/// The fixed text sent to the round's loser.
pub fn lose_message() -> (r: String)
    ensures
        r@ == "You've lost!\nGame will refresh automatically!"@,
{
    String::from_str("You've lost!\nGame will refresh automatically!")
}

/// What one datagram does to the round and what is sent back: a decode or
/// registration failure is reported to the sender and changes nothing; a
/// registered play either waits for the other slot or, completing the
/// round, clears it and announces the winner by the parity of the summed
/// values.
pub open spec fn step_post<T: Eq + PartialEq>(
    pre: Game<T>,
    post: Game<T>,
    bytes: Seq<u8>,
    sender: T,
    r: ServerStep<T>,
) -> bool {
    match spec_decode(utf8_chars(bytes)) {
        Err(f) => post == pre && (r matches ServerStep::Reply(m) && m@ == f.spec_text()),
        Ok(h) => if pre.spec_contains(sender) {
            post == pre && (r matches ServerStep::Reply(m) && m@
                == GameError::AlreadyContainAddress.spec_describe())
        } else if (match h {
            HandPlayed::Even(_) => pre.even_slot() is Some,
            HandPlayed::Odd(_) => pre.odd_slot() is Some,
        }) {
            post == pre && (r matches ServerStep::Reply(m) && m@ == GameError::PlayOptionAlreadyTaken(
                h,
            ).spec_describe())
        } else {
            let played = Player { address: sender, hand_played: h };
            let even_p = match h {
                HandPlayed::Even(_) => Some(played),
                HandPlayed::Odd(_) => pre.even_slot(),
            };
            let odd_p = match h {
                HandPlayed::Even(_) => pre.odd_slot(),
                HandPlayed::Odd(_) => Some(played),
            };
            match (even_p, odd_p) {
                (Some(e), Some(o)) => {
                    let sum_even = (e.hand_played.spec_value() + o.hand_played.spec_value()) % 2
                        == 0;
                    &&& post.even_slot() is None
                    &&& post.odd_slot() is None
                    &&& (r matches ServerStep::RoundOver { winner, loser } && winner == (if sum_even {
                        e.address
                    } else {
                        o.address
                    }) && loser == (if sum_even {
                        o.address
                    } else {
                        e.address
                    }))
                },
                _ => {
                    &&& post.even_slot() == even_p
                    &&& post.odd_slot() == odd_p
                    &&& r matches ServerStep::Waiting
                },
            }
        },
    }
}

/// Handles one received datagram, as `step_post` describes. An all-ASCII
/// payload decodes to its bytes as characters, so `step_post` is concrete
/// on it.
pub fn handle_datagram<T: Eq + PartialEq>(game: &mut Game<T>, bytes: Vec<u8>, sender: T) -> (r:
    ServerStep<T>)
    requires
        T::obeys_eq_spec(),
    ensures
        step_post(*old(game), *final(game), bytes@, sender, r),
        old(game).spec_wf() ==> final(game).spec_wf(),
        (forall|i: int| 0 <= i < bytes@.len() ==> bytes@[i] < 128) ==> utf8_chars(bytes@) == Some(
            bytes@.map_values(|b: u8| b as char),
        ),
{
    match parse_byte_stream(bytes) {
        Err(e) => ServerStep::Reply(e.describe()),
        Ok(h) => match game.add_play(h, sender) {
            Err(e) => ServerStep::Reply(e.describe()),
            Ok(()) => {
                if game.can_guess() {
                    match game.finish_round() {
                        Some((w, l)) => ServerStep::RoundOver {
                            winner: w.address,
                            loser: l.address,
                        },
                        None => {
                            // can_guess was just true, so finish_round cannot
                            // come back empty; the proof shows this branch dead.
                            proof {
                                assert(false);
                            }
                            ServerStep::Waiting
                        },
                    }
                } else {
                    ServerStep::Waiting
                }
            },
        },
    }
}

} // verus!
