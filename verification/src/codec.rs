//! The message codec: a datagram payload is UTF-8 text holding exactly two
//! whitespace-separated tokens, an option code and a value.
use vstd::prelude::*;
use crate::game::{GameError, HandPlayed, PLAY_OPTION_EVEN, PLAY_OPTION_ODD};
use crate::text::{NumFailure, dec_rep, spec_parse_u8, split_ws, tokens};

verus! {

/// What a byte payload means as UTF-8 text: the decoded characters, or
/// nothing where the bytes are not valid UTF-8.
pub uninterp spec fn utf8_chars(bytes: Seq<u8>) -> Option<Seq<char>>;

/// Relies on std's `String::from_utf8`: it returns the text the bytes
/// encode exactly when they are valid UTF-8; and UTF-8 is ASCII-compatible,
/// so a payload of bytes below 128 decodes to those bytes as characters.
#[verifier::external_body]
fn utf8_to_string(bytes: Vec<u8>) -> (r: Option<String>)
    ensures
        match r {
            Some(s) => utf8_chars(bytes@) == Some(s@) && ((forall|i: int|
                0 <= i < bytes@.len() ==> bytes@[i] < 128) ==> s@ == bytes@.map_values(
                |b: u8| b as char,
            )),
            None => utf8_chars(bytes@) is None && !(forall|i: int|
                0 <= i < bytes@.len() ==> bytes@[i] < 128),
        },
{
    match String::from_utf8(bytes) {
        Ok(s) => Some(s),
        Err(_) => None,
    }
}

/// Why a payload failed to decode.
#[derive(Debug, PartialEq, Eq)]
pub enum DecodeFailure {
    /// The bytes are not valid UTF-8 text.
    NotText,
    /// The text does not hold exactly two whitespace-separated tokens.
    WrongTokenCount,
    /// A token did not read as a number.
    BadNumber(NumFailure),
    /// The tokens read as numbers but failed game validation.
    Rule(GameError),
}

impl DecodeFailure {
    /// The text sent back for this failure.
    pub open spec fn spec_text(self) -> Seq<char> {
        match self {
            DecodeFailure::NotText => "The payload must be valid UTF-8 text."@,
            DecodeFailure::WrongTokenCount => "You must pass exactly 2 arguments."@,
            DecodeFailure::BadNumber(k) => "Error parsing arguments. Cause: "@ + k.spec_message(),
            DecodeFailure::Rule(g) => g.spec_describe(),
        }
    }
}

/// What decoding a payload returns, given the text its bytes decode to:
/// exactly two tokens are demanded, then the tokens are read as an option
/// code and a value and validated.
pub open spec fn spec_decode(text: Option<Seq<char>>) -> Result<HandPlayed, DecodeFailure> {
    match text {
        None => Err(DecodeFailure::NotText),
        Some(s) => {
            let tk = tokens(s);
            if tk.len() != 2 {
                Err(DecodeFailure::WrongTokenCount)
            } else {
                match HandPlayed::spec_from_text(tk[0], tk[1]) {
                    Ok(h) => Ok(h),
                    Err(Ok(g)) => Err(DecodeFailure::Rule(g)),
                    Err(Err(k)) => Err(DecodeFailure::BadNumber(k)),
                }
            }
        },
    }
}

/// A codec failure: either a validation failure from the game's rules, or a
/// malformed payload.
#[derive(Debug, Eq, PartialEq)]
pub enum ServerError {
    GameKind(GameError),
    ParsingError(String),
}

impl ServerError {
    /// The text sent back to the offending sender.
    pub open spec fn spec_describe(self) -> Seq<char> {
        match self {
            ServerError::GameKind(e) => e.spec_describe(),
            ServerError::ParsingError(s) => s@,
        }
    }

    /// Renders the failure, as `spec_describe` describes.
    pub fn describe(&self) -> (r: String)
        ensures
            r@ == self.spec_describe(),
    {
        match self {
            ServerError::GameKind(e) => e.describe(),
            ServerError::ParsingError(s) => s.clone(),
        }
    }
}

/// Decodes a payload already known to be text, as `spec_decode` on that
/// text describes; each failure carries its `spec_text` report.
pub fn decode_text(text: &str) -> (r: Result<HandPlayed, ServerError>)
    ensures
        ({
            let d = spec_decode(Some(text@));
            match (r, d) {
                (Ok(h), Ok(h2)) => h == h2,
                (
                    Err(ServerError::ParsingError(m)),
                    Err(DecodeFailure::WrongTokenCount),
                ) => m@ == DecodeFailure::WrongTokenCount.spec_text(),
                (
                    Err(ServerError::GameKind(GameError::ParseArgumentError(Some(m)))),
                    Err(DecodeFailure::BadNumber(k)),
                ) => m@ == k.spec_message(),
                (Err(ServerError::GameKind(g)), Err(DecodeFailure::Rule(g2))) => g == g2,
                _ => false,
            }
        }),
{
    let parts = split_ws(text);
    if parts.len() != 2 {
        return Err(
            ServerError::ParsingError(String::from_str("You must pass exactly 2 arguments.")),
        );
    }
    proof {
        assert(parts.deep_view()[0] == parts@[0]@);
        assert(parts.deep_view()[1] == parts@[1]@);
    }
    match HandPlayed::from_str(parts[0].as_str(), parts[1].as_str()) {
        Ok(h) => Ok(h),
        Err(e) => Err(ServerError::GameKind(e)),
    }
}

/// Decodes one datagram payload, as `spec_decode` of the bytes' text
/// describes; each failure carries its `spec_text` report. An all-ASCII
/// payload always decodes to text, character for character.
pub fn parse_byte_stream(bytes: Vec<u8>) -> (r: Result<HandPlayed, ServerError>)
    ensures
        ({
            let d = spec_decode(utf8_chars(bytes@));
            match (r, d) {
                (Ok(h), Ok(h2)) => h == h2,
                (Err(ServerError::ParsingError(m)), Err(DecodeFailure::NotText)) => m@
                    == DecodeFailure::NotText.spec_text(),
                (
                    Err(ServerError::ParsingError(m)),
                    Err(DecodeFailure::WrongTokenCount),
                ) => m@ == DecodeFailure::WrongTokenCount.spec_text(),
                (
                    Err(ServerError::GameKind(GameError::ParseArgumentError(Some(m)))),
                    Err(DecodeFailure::BadNumber(k)),
                ) => m@ == k.spec_message(),
                (Err(ServerError::GameKind(g)), Err(DecodeFailure::Rule(g2))) => g == g2,
                _ => false,
            }
        }),
        (forall|i: int| 0 <= i < bytes@.len() ==> bytes@[i] < 128) ==> utf8_chars(bytes@) == Some(
            bytes@.map_values(|b: u8| b as char),
        ),
{
    match utf8_to_string(bytes) {
        Some(text) => decode_text(text.as_str()),
        None => Err(
            ServerError::ParsingError(String::from_str("The payload must be valid UTF-8 text.")),
        ),
    }
}

/// Law: a payload of exactly two tokens that read as a valid option code
/// and an in-range value decodes to the move they name, and that move
/// re-renders with the same parity tag and the same value.
pub proof fn lemma_decode_round_trip(
    s: Seq<char>,
    option_text: Seq<char>,
    value_text: Seq<char>,
    code: u8,
    value: u8,
)
    requires
        tokens(s) == seq![option_text, value_text],
        spec_parse_u8(option_text) == Ok::<u8, NumFailure>(code),
        spec_parse_u8(value_text) == Ok::<u8, NumFailure>(value),
        code == PLAY_OPTION_EVEN || code == PLAY_OPTION_ODD,
        1 <= value <= 5,
    ensures
        ({
            let expected = if code == PLAY_OPTION_EVEN {
                HandPlayed::Even(value)
            } else {
                HandPlayed::Odd(value)
            };
            &&& spec_decode(Some(s)) == Ok::<HandPlayed, DecodeFailure>(expected)
            &&& expected.spec_value() == value
            &&& expected.spec_describe() == (if code == PLAY_OPTION_EVEN {
                "Even("@
            } else {
                "Odd("@
            }) + dec_rep(value as int) + ")"@
        }),
{
}

/// Law: a payload whose text holds one token, or three or more, is refused
/// with the fixed two-arguments report.
pub proof fn lemma_wrong_token_count_refused(s: Seq<char>)
    requires
        tokens(s).len() == 1 || tokens(s).len() >= 3,
    ensures
        spec_decode(Some(s)) == Err::<HandPlayed, DecodeFailure>(DecodeFailure::WrongTokenCount),
        DecodeFailure::WrongTokenCount.spec_text() == "You must pass exactly 2 arguments."@,
{
}

} // verus!
