//! The round state machine of the odd/even guessing game: validated moves
//! (`HandPlayed`), the two round slots (`Game`), and the round outcome.
use vstd::prelude::*;
use vstd::std_specs::cmp::PartialEqSpec;
use vstd::arithmetic::div_mod::lemma_add_mod_noop;
use crate::text::{NumFailure, dec_rep, parse_u8, spec_parse_u8, u8_string};

verus! {

/// The option code a client sends to ask for the Even slot.
pub const PLAY_OPTION_EVEN: u8 = 1;

/// The option code a client sends to ask for the Odd slot.
pub const PLAY_OPTION_ODD: u8 = 2;

pub type GameResult<T> = Result<T, GameError>;

/// Everything that can go wrong while validating a move or running a round.
#[derive(Debug, Eq, PartialEq)]
pub enum GameError {
    /// The option code is neither 1 (Even) nor 2 (Odd).
    InvalidOption(u8),
    /// The value is outside 1 through 5.
    OutOfRange(u8),
    /// The sender already holds a slot this round.
    AlreadyContainAddress,
    /// The requested slot is already held by a different sender.
    PlayOptionAlreadyTaken(HandPlayed),
    /// A winner was asked for before the named slot was filled.
    MissingPlayerPlay(HandPlayed),
    /// A textual token could not be read as a number.
    ParseArgumentError(Option<String>),
}

/// A validated move: a parity tag carrying the guessed value.
#[derive(Debug, Eq, PartialEq)]
pub enum HandPlayed {
    Even(u8),
    Odd(u8),
}

/// A sender identity paired with the move it submitted.
#[derive(Debug, Eq, PartialEq)]
pub struct Player<T> {
    pub address: T,
    pub hand_played: HandPlayed,
}

/// The round state: at most one Even play and one Odd play.
pub struct Game<T> {
    even: Option<Player<T>>,
    odd: Option<Player<T>>,
}

/// The outcome of a completed round: references into the round's players,
/// valid only until the next `reset`.
#[derive(Eq, PartialEq, Debug)]
pub struct RoundResult<'a, T> {
    pub winner: &'a Player<T>,
    pub loser: &'a Player<T>,
}

impl HandPlayed {
    /// The carried value, whatever the parity tag.
    pub open spec fn spec_value(self) -> u8 {
        match self {
            HandPlayed::Even(v) => v,
            HandPlayed::Odd(v) => v,
        }
    }

    /// What validating an option code and a value returns: the value is
    /// checked first, so when both are invalid `OutOfRange` wins.
    pub open spec fn spec_new(option: u8, value: u8) -> Result<HandPlayed, GameError> {
        if value < 1 || value > 5 {
            Err(GameError::OutOfRange(value))
        } else if option == PLAY_OPTION_EVEN {
            Ok(HandPlayed::Even(value))
        } else if option == PLAY_OPTION_ODD {
            Ok(HandPlayed::Odd(value))
        } else {
            Err(GameError::InvalidOption(option))
        }
    }

    /// Validates an option code (1 = Even, 2 = Odd) and a value (1 through
    /// 5), as `spec_new` describes.
    pub fn new(option: &u8, value: u8) -> (r: GameResult<HandPlayed>)
        ensures
            r == Self::spec_new(*option, value),
    {
        if value < 1 || value > 5 {
            return Err(GameError::OutOfRange(value));
        }
        match *option {
            PLAY_OPTION_EVEN => Ok(HandPlayed::Even(value)),
            PLAY_OPTION_ODD => Ok(HandPlayed::Odd(value)),
            v => Err(GameError::InvalidOption(v)),
        }
    }

    /// What reading two textual tokens returns: each token must parse as an
    /// unsigned 8-bit number (option first), then `spec_new` validates.
    pub open spec fn spec_from_text(option: Seq<char>, value: Seq<char>) -> Result<
        HandPlayed,
        Result<GameError, NumFailure>,
    > {
        match spec_parse_u8(option) {
            Err(k) => Err(Err(k)),
            Ok(o) => match spec_parse_u8(value) {
                Err(k) => Err(Err(k)),
                Ok(v) => match HandPlayed::spec_new(o, v) {
                    Ok(h) => Ok(h),
                    Err(g) => Err(Ok(g)),
                },
            },
        }
    }

    /// Parses two textual tokens as numbers and validates them; a parse
    /// failure is reported as `ParseArgumentError` with the failure's text.
    pub fn from_str(option: &str, value: &str) -> (r: GameResult<HandPlayed>)
        ensures
            match Self::spec_from_text(option@, value@) {
                Ok(h) => r == Ok::<HandPlayed, GameError>(h),
                Err(Ok(g)) => r == Err::<HandPlayed, GameError>(g),
                Err(Err(k)) => r matches Err(GameError::ParseArgumentError(Some(m))) && m@
                    == k.spec_message(),
            },
    {
        let option: u8 = match parse_u8(option) {
            Ok(o) => o,
            Err(k) => {
                return Err(GameError::ParseArgumentError(Some(k.message())));
            },
        };
        let value: u8 = match parse_u8(value) {
            Ok(v) => v,
            Err(k) => {
                return Err(GameError::ParseArgumentError(Some(k.message())));
            },
        };
        HandPlayed::new(&option, value)
    }

    /// Whether a value is even.
    pub fn value_is_even(value: u8) -> (r: bool)
        ensures
            r == (value as int % 2 == 0),
    {
        value % 2 == 0
    }

    /// The carried value, as `spec_value` describes.
    pub fn unwrap_value(&self) -> (r: u8)
        ensures
            r == self.spec_value(),
    {
        match self {
            HandPlayed::Even(v) => *v,
            HandPlayed::Odd(v) => *v,
        }
    }

    /// The move's rendering: `Even(n)` or `Odd(n)`.
    pub open spec fn spec_describe(self) -> Seq<char> {
        match self {
            HandPlayed::Even(v) => "Even("@ + dec_rep(v as int) + ")"@,
            HandPlayed::Odd(v) => "Odd("@ + dec_rep(v as int) + ")"@,
        }
    }

    /// Renders the move, as `spec_describe` describes.
    pub fn describe(&self) -> (r: String)
        ensures
            r@ == self.spec_describe(),
    {
        let mut s = String::new();
        match self {
            HandPlayed::Even(v) => {
                s.append("Even(");
                s.append(u8_string(*v).as_str());
                s.append(")");
            },
            HandPlayed::Odd(v) => {
                s.append("Odd(");
                s.append(u8_string(*v).as_str());
                s.append(")");
            },
        }
        s
    }
}

impl GameError {
    /// The fixed report sent back for each failure.
    pub open spec fn spec_describe(self) -> Seq<char> {
        match self {
            GameError::InvalidOption(v) => dec_rep(v as int)
                + " is not a valid option. The options are: 1 for Even and 2 for Odd"@,
            GameError::OutOfRange(v) => dec_rep(v as int)
                + " is out of range. The number must be from 1 to 5."@,
            GameError::AlreadyContainAddress =>
                "The game already contain your play. Wait for other player."@,
            GameError::PlayOptionAlreadyTaken(p) => "You tried to play '"@ + p.spec_describe()
                + "' but this play option was already taken. Choose the other."@,
            GameError::MissingPlayerPlay(p) => "Cannot guess now, Missing the player option: "@
                + p.spec_describe() + "."@,
            GameError::ParseArgumentError(m) => match m {
                Some(cause) => "Error parsing arguments. Cause: "@ + cause@,
                None => "Error parsing arguments."@,
            },
        }
    }

    /// Renders the failure, as `spec_describe` describes.
    pub fn describe(&self) -> (r: String)
        ensures
            r@ == self.spec_describe(),
    {
        let mut s = String::new();
        match self {
            GameError::InvalidOption(v) => {
                s.append(u8_string(*v).as_str());
                s.append(" is not a valid option. The options are: 1 for Even and 2 for Odd");
            },
            GameError::OutOfRange(v) => {
                s.append(u8_string(*v).as_str());
                s.append(" is out of range. The number must be from 1 to 5.");
            },
            GameError::AlreadyContainAddress => {
                s.append("The game already contain your play. Wait for other player.");
            },
            GameError::PlayOptionAlreadyTaken(p) => {
                s.append("You tried to play '");
                s.append(p.describe().as_str());
                s.append("' but this play option was already taken. Choose the other.");
            },
            GameError::MissingPlayerPlay(p) => {
                s.append("Cannot guess now, Missing the player option: ");
                s.append(p.describe().as_str());
                s.append(".");
            },
            GameError::ParseArgumentError(m) => {
                match m {
                    Some(cause) => {
                        s.append("Error parsing arguments. Cause: ");
                        s.append(cause.as_str());
                    },
                    None => {
                        s.append("Error parsing arguments.");
                    },
                }
            },
        }
        proof {
            assert(s@ =~= self.spec_describe());
        }
        s
    }
}

impl<T> Player<T> {
    /// Pairs a move with the identity that submitted it.
    pub fn new(play: HandPlayed, address: T) -> (r: Player<T>)
        ensures
            r == (Player { address, hand_played: play }),
    {
        Player { hand_played: play, address }
    }
}

impl<T> Game<T> {
    /// The Even slot.
    pub closed spec fn even_slot(self) -> Option<Player<T>> {
        self.even
    }

    /// The Odd slot.
    pub closed spec fn odd_slot(self) -> Option<Player<T>> {
        self.odd
    }
}

impl<T: Eq + PartialEq> Game<T> {
    /// Whether either occupied slot holds this address, as the insertion
    /// check compares: the candidate on the left of `eq`.
    pub open spec fn spec_contains(self, address: T) -> bool {
        ||| match self.even_slot() {
            Some(p) => address.eq_spec(&p.address),
            None => false,
        }
        ||| match self.odd_slot() {
            Some(p) => address.eq_spec(&p.address),
            None => false,
        }
    }

    /// Whether both slots are occupied, so the round can be judged.
    pub open spec fn spec_can_guess(self) -> bool {
        self.even_slot() is Some && self.odd_slot() is Some
    }

    /// The round invariant: the two slots never hold the same address, as
    /// the insertion check compares in either order.
    pub open spec fn spec_wf(self) -> bool {
        match (self.even_slot(), self.odd_slot()) {
            (Some(e), Some(o)) => !(e.address.eq_spec(&o.address) && o.address.eq_spec(
                &e.address,
            )),
            _ => true,
        }
    }

    /// The round outcome: with both slots filled, an even sum of the two
    /// values makes the Even player the winner, an odd sum the Odd player;
    /// with a slot empty, the failure names the missing slot (Even first).
    pub open spec fn spec_guess(self) -> Result<(Player<T>, Player<T>), GameError> {
        match (self.even_slot(), self.odd_slot()) {
            (None, _) => Err(GameError::MissingPlayerPlay(HandPlayed::Even(0))),
            (Some(_), None) => Err(GameError::MissingPlayerPlay(HandPlayed::Odd(0))),
            (Some(e), Some(o)) => if (e.hand_played.spec_value() + o.hand_played.spec_value()) % 2
                == 0 {
                Ok((e, o))
            } else {
                Ok((o, e))
            },
        }
    }

    /// What one registration attempt does: a sender already present is
    /// turned away first; then the slot of the play's parity is filled if
    /// free, and reported taken otherwise. Failures leave the game as it
    /// was.
    pub closed spec fn spec_add_play(self, play: HandPlayed, address: T) -> (Game<T>, Result<
        (),
        GameError,
    >) {
        if self.spec_contains(address) {
            (self, Err(GameError::AlreadyContainAddress))
        } else {
            match play {
                HandPlayed::Even(_) => if self.even is None {
                    (Game { even: Some(Player { address, hand_played: play }), odd: self.odd }, Ok(()))
                } else {
                    (self, Err(GameError::PlayOptionAlreadyTaken(play)))
                },
                HandPlayed::Odd(_) => if self.odd is None {
                    (Game { even: self.even, odd: Some(Player { address, hand_played: play }) }, Ok(()))
                } else {
                    (self, Err(GameError::PlayOptionAlreadyTaken(play)))
                },
            }
        }
    }

    /// Starts a round with both slots empty.
    pub fn new() -> (g: Game<T>)
        ensures
            g.even_slot() is None,
            g.odd_slot() is None,
    {
        Game { even: None, odd: None }
    }

    /// Registers a move for a sender, as `spec_add_play` describes. The
    /// clauses below restate that definition for callers.
    pub fn add_play(&mut self, play: HandPlayed, address: T) -> (r: GameResult<()>)
        requires
            T::obeys_eq_spec(),
        ensures
            old(self).spec_add_play(play, address) == (*final(self), r),
            r is Err ==> *final(self) == *old(self),
            r == Err::<(), GameError>(GameError::AlreadyContainAddress) <==> old(
                self,
            ).spec_contains(address),
            r == Err::<(), GameError>(GameError::PlayOptionAlreadyTaken(play)) <==> (!old(
                self,
            ).spec_contains(address) && (match play {
                HandPlayed::Even(_) => old(self).even_slot() is Some,
                HandPlayed::Odd(_) => old(self).odd_slot() is Some,
            })),
            r is Ok <==> (!old(self).spec_contains(address) && (match play {
                HandPlayed::Even(_) => old(self).even_slot() is None,
                HandPlayed::Odd(_) => old(self).odd_slot() is None,
            })),
            r is Ok ==> match play {
                HandPlayed::Even(_) => final(self).even_slot() == Some(
                    Player { address, hand_played: play },
                ) && final(self).odd_slot() == old(self).odd_slot(),
                HandPlayed::Odd(_) => final(self).odd_slot() == Some(
                    Player { address, hand_played: play },
                ) && final(self).even_slot() == old(self).even_slot(),
            },
            old(self).spec_wf() ==> final(self).spec_wf(),
    {
        if self.contain_address(&address) {
            return Err(GameError::AlreadyContainAddress);
        }
        match play {
            HandPlayed::Even(_) => {
                if self.even.is_none() {
                    self.even = Some(Player::new(play, address));
                    return Ok(());
                }
            },
            HandPlayed::Odd(_) => {
                if self.odd.is_none() {
                    self.odd = Some(Player::new(play, address));
                    return Ok(());
                }
            },
        }
        Err(GameError::PlayOptionAlreadyTaken(play))
    }

    /// Whether either occupied slot holds this address, as `spec_contains`
    /// describes.
    pub fn contain_address(&self, address: &T) -> (r: bool)
        requires
            T::obeys_eq_spec(),
        ensures
            r == self.spec_contains(*address),
    {
        let in_even = match &self.even {
            Some(p) => address.eq(&p.address),
            None => false,
        };
        if in_even {
            return true;
        }
        match &self.odd {
            Some(p) => address.eq(&p.address),
            None => false,
        }
    }

    /// Whether both slots are occupied, as `spec_can_guess` describes.
    pub fn can_guess(&self) -> (r: bool)
        ensures
            r == self.spec_can_guess(),
    {
        self.odd.is_some() && self.even.is_some()
    }

    /// Judges the round, as `spec_guess` describes: the returned references
    /// point into the current round and are valid until the next `reset`.
    pub fn guess_winner(&self) -> (r: GameResult<RoundResult<'_, T>>)
        ensures
            match (r, self.spec_guess()) {
                (Ok(rr), Ok((w, l))) => *rr.winner == w && *rr.loser == l,
                (Err(e), Err(e2)) => e == e2,
                _ => false,
            },
    {
        let even = match &self.even {
            Some(v) => v,
            None => {
                return Err(GameError::MissingPlayerPlay(HandPlayed::Even(0)));
            },
        };
        let odd = match &self.odd {
            Some(v) => v,
            None => {
                return Err(GameError::MissingPlayerPlay(HandPlayed::Odd(0)));
            },
        };
        let ev = even.hand_played.unwrap_value();
        let ov = odd.hand_played.unwrap_value();
        proof {
            lemma_add_mod_noop(ev as int, ov as int, 2);
        }
        if HandPlayed::value_is_even(ev % 2 + ov % 2) {
            return Ok(RoundResult { winner: even, loser: odd });
        }
        Ok(RoundResult { winner: odd, loser: even })
    }

    /// Judges a full round and clears both slots, handing the winning and
    /// losing players out by value; with a slot empty it changes nothing.
    pub fn finish_round(&mut self) -> (r: Option<(Player<T>, Player<T>)>)
        ensures
            match r {
                Some(pair) => old(self).spec_can_guess() && old(self).spec_guess() == Ok::<
                    _,
                    GameError,
                >(pair) && final(self).even_slot() is None && final(self).odd_slot() is None,
                None => !old(self).spec_can_guess() && *final(self) == *old(self),
            },
    {
        if self.even.is_some() && self.odd.is_some() {
            let even = self.even.take().unwrap();
            let odd = self.odd.take().unwrap();
            let ev = even.hand_played.unwrap_value();
            let ov = odd.hand_played.unwrap_value();
            proof {
                lemma_add_mod_noop(ev as int, ov as int, 2);
            }
            if HandPlayed::value_is_even(ev % 2 + ov % 2) {
                Some((even, odd))
            } else {
                Some((odd, even))
            }
        } else {
            None
        }
    }

    /// Clears both slots unconditionally.
    pub fn reset(&mut self)
        ensures
            final(self).even_slot() is None,
            final(self).odd_slot() is None,
    {
        self.even = None;
        self.odd = None;
    }
}

/// Law: a code other than 1 and 2 with an in-range value is rejected as an
/// invalid option, and the failure carries the code.
pub proof fn lemma_invalid_option_rejected(code: u8, value: u8)
    requires
        code != PLAY_OPTION_EVEN,
        code != PLAY_OPTION_ODD,
        1 <= value <= 5,
    ensures
        HandPlayed::spec_new(code, value) == Err::<HandPlayed, GameError>(
            GameError::InvalidOption(code),
        ),
{
}

/// Law: with a code of 1 or 2, a value outside 1 through 5 is rejected as
/// out of range, and the failure carries the value.
pub proof fn lemma_out_of_range_rejected(code: u8, value: u8)
    requires
        code == PLAY_OPTION_EVEN || code == PLAY_OPTION_ODD,
        !(1 <= value <= 5),
    ensures
        HandPlayed::spec_new(code, value) == Err::<HandPlayed, GameError>(
            GameError::OutOfRange(value),
        ),
{
}

/// Law: once an address holds a slot, every further registration with that
/// address — whatever its parity — fails with `AlreadyContainAddress` and
/// leaves the game unchanged, so it keeps failing until a reset.
pub proof fn lemma_repeat_sender_rejected<T: Eq + PartialEq>(
    g: Game<T>,
    first: HandPlayed,
    again: HandPlayed,
    address: T,
)
    requires
        address.eq_spec(&address),
        g.spec_add_play(first, address).1 is Ok,
    ensures
        ({
            let g1 = g.spec_add_play(first, address).0;
            g1.spec_add_play(again, address) == (g1, Err::<(), GameError>(
                GameError::AlreadyContainAddress,
            ))
        }),
{
}

/// Law: two registrations of the same parity from different addresses — the
/// second is turned away with `PlayOptionAlreadyTaken` carrying its play.
pub proof fn lemma_slot_exclusive<T: Eq + PartialEq>(
    g: Game<T>,
    first: HandPlayed,
    second: HandPlayed,
    a: T,
    b: T,
)
    requires
        g.even_slot() is None,
        g.odd_slot() is None,
        !b.eq_spec(&a),
        (first matches HandPlayed::Even(_)) <==> (second matches HandPlayed::Even(_)),
    ensures
        g.spec_add_play(first, a).1 is Ok,
        ({
            let g1 = g.spec_add_play(first, a).0;
            g1.spec_add_play(second, b) == (g1, Err::<(), GameError>(
                GameError::PlayOptionAlreadyTaken(second),
            ))
        }),
{
}

/// Law: `Odd(1)` from one address and `Even(3)` from another sum to 4, an
/// even number, so the Even player wins and the Odd player loses.
pub proof fn lemma_even_sum_even_wins<T: Eq + PartialEq>(g: Game<T>, a: T, b: T)
    requires
        g.even_slot() is None,
        g.odd_slot() is None,
        !b.eq_spec(&a),
    ensures
        g.spec_add_play(HandPlayed::Odd(1), a).1 is Ok,
        g.spec_add_play(HandPlayed::Odd(1), a).0.spec_add_play(HandPlayed::Even(3), b).1 is Ok,
        ({
            let g2 = g.spec_add_play(HandPlayed::Odd(1), a).0.spec_add_play(
                HandPlayed::Even(3),
                b,
            ).0;
            g2.spec_guess() == Ok::<_, GameError>(
                (
                    Player { address: b, hand_played: HandPlayed::Even(3) },
                    Player { address: a, hand_played: HandPlayed::Odd(1) },
                ),
            )
        }),
{
}

/// Law: `Odd(2)` from one address and `Even(3)` from another sum to 5, an
/// odd number, so the Odd player wins and the Even player loses.
pub proof fn lemma_odd_sum_odd_wins<T: Eq + PartialEq>(g: Game<T>, a: T, b: T)
    requires
        g.even_slot() is None,
        g.odd_slot() is None,
        !b.eq_spec(&a),
    ensures
        g.spec_add_play(HandPlayed::Odd(2), a).1 is Ok,
        g.spec_add_play(HandPlayed::Odd(2), a).0.spec_add_play(HandPlayed::Even(3), b).1 is Ok,
        ({
            let g2 = g.spec_add_play(HandPlayed::Odd(2), a).0.spec_add_play(
                HandPlayed::Even(3),
                b,
            ).0;
            g2.spec_guess() == Ok::<_, GameError>(
                (
                    Player { address: a, hand_played: HandPlayed::Odd(2) },
                    Player { address: b, hand_played: HandPlayed::Even(3) },
                ),
            )
        }),
{
}

/// Law: the round can be judged exactly when both slots are occupied; with
/// zero or one slot filled it cannot.
pub proof fn lemma_can_guess_needs_both<T: Eq + PartialEq>(g: Game<T>)
    ensures
        g.even_slot() is None || g.odd_slot() is None ==> !g.spec_can_guess(),
        g.even_slot() is Some && g.odd_slot() is Some ==> g.spec_can_guess(),
{
}

/// Law: with both slots empty — the state `reset` leaves behind — the round
/// cannot be judged and any address may register either parity, including
/// one that held a slot before the reset.
pub proof fn lemma_empty_round_open<T: Eq + PartialEq>(g: Game<T>, play: HandPlayed, address: T)
    requires
        g.even_slot() is None,
        g.odd_slot() is None,
    ensures
        !g.spec_can_guess(),
        g.spec_add_play(play, address).1 is Ok,
{
}

} // verus!
