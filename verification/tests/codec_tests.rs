use odd_even::codec::decode_text;
use odd_even::codec::parse_byte_stream;
use odd_even::codec::ServerError;
use odd_even::game::GameError;
use odd_even::game::HandPlayed;
use odd_even::text::parse_u8;
use odd_even::text::split_ws;
use odd_even::text::u8_string;
use odd_even::text::NumFailure;

#[test]
fn a_valid_payload_decodes_to_its_move() {
    assert_eq!(parse_byte_stream(b"1 3".to_vec()), Ok(HandPlayed::Even(3)));
    assert_eq!(parse_byte_stream(b"2 4".to_vec()), Ok(HandPlayed::Odd(4)));
}

#[test]
fn surrounding_whitespace_is_ignored() {
    assert_eq!(parse_byte_stream(b"  1 \t 3 \n".to_vec()), Ok(HandPlayed::Even(3)));
}

#[test]
fn a_decoded_move_renders_back_to_its_tokens() {
    let hand = parse_byte_stream(b"1 3".to_vec()).unwrap();
    assert_eq!(hand.describe(), "Even(3)");
    assert_eq!(hand.unwrap_value(), 3);
    let hand = parse_byte_stream(b"2 5".to_vec()).unwrap();
    assert_eq!(hand.describe(), "Odd(5)");
    assert_eq!(hand.unwrap_value(), 5);
}

#[test]
fn non_utf8_bytes_are_refused() {
    assert_eq!(
        parse_byte_stream(vec![0xff, 0xfe, 0x31]),
        Err(ServerError::ParsingError(String::from("The payload must be valid UTF-8 text.")))
    );
}

#[test]
fn one_token_is_refused() {
    assert_eq!(
        parse_byte_stream(b"1".to_vec()),
        Err(ServerError::ParsingError(String::from("You must pass exactly 2 arguments.")))
    );
}

#[test]
fn three_tokens_are_refused() {
    assert_eq!(
        parse_byte_stream(b"1 2 3".to_vec()),
        Err(ServerError::ParsingError(String::from("You must pass exactly 2 arguments.")))
    );
    assert_eq!(
        parse_byte_stream(b"1 2 3 4".to_vec()),
        Err(ServerError::ParsingError(String::from("You must pass exactly 2 arguments.")))
    );
}

#[test]
fn an_empty_payload_is_refused() {
    assert_eq!(
        parse_byte_stream(Vec::new()),
        Err(ServerError::ParsingError(String::from("You must pass exactly 2 arguments.")))
    );
}

#[test]
fn game_validation_failures_pass_through() {
    assert_eq!(
        parse_byte_stream(b"3 3".to_vec()),
        Err(ServerError::GameKind(GameError::InvalidOption(3)))
    );
    assert_eq!(
        parse_byte_stream(b"1 9".to_vec()),
        Err(ServerError::GameKind(GameError::OutOfRange(9)))
    );
}

#[test]
fn numeric_failures_pass_through_with_their_cause() {
    assert_eq!(
        parse_byte_stream(b"a b".to_vec()),
        Err(ServerError::GameKind(GameError::ParseArgumentError(Some(String::from(
            "invalid digit found in string"
        )))))
    );
}

#[test]
fn decode_text_matches_the_byte_decoder() {
    assert_eq!(decode_text("1 3"), Ok(HandPlayed::Even(3)));
    assert_eq!(
        decode_text("1 2 3"),
        Err(ServerError::ParsingError(String::from("You must pass exactly 2 arguments.")))
    );
}

#[test]
fn server_errors_render_their_text() {
    assert_eq!(
        ServerError::GameKind(GameError::InvalidOption(3)).describe(),
        "3 is not a valid option. The options are: 1 for Even and 2 for Odd"
    );
    assert_eq!(ServerError::ParsingError(String::from("oops")).describe(), "oops");
}

#[test]
fn split_ws_finds_the_tokens() {
    let parts = split_ws("\t one  two \n");
    assert_eq!(parts, vec![String::from("one"), String::from("two")]);
    assert_eq!(split_ws("   "), Vec::<String>::new());
    assert_eq!(split_ws("abc"), vec![String::from("abc")]);
}

#[test]
fn parse_u8_reads_decimal_tokens() {
    assert_eq!(parse_u8("0"), Ok(0));
    assert_eq!(parse_u8("255"), Ok(255));
    assert_eq!(parse_u8("007"), Ok(7));
    assert_eq!(parse_u8("+12"), Ok(12));
    assert_eq!(parse_u8("256"), Err(NumFailure::TooLarge));
    assert_eq!(parse_u8(""), Err(NumFailure::EmptyText));
    assert_eq!(parse_u8("+"), Err(NumFailure::BadDigit));
    assert_eq!(parse_u8("-1"), Err(NumFailure::BadDigit));
    assert_eq!(parse_u8("1x"), Err(NumFailure::BadDigit));
}

#[test]
fn numbers_render_in_decimal() {
    assert_eq!(u8_string(0), "0");
    assert_eq!(u8_string(7), "7");
    assert_eq!(u8_string(42), "42");
    assert_eq!(u8_string(100), "100");
    assert_eq!(u8_string(255), "255");
}
