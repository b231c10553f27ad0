use tptool::data::{deg, deg_per_s, Angle, AngularSpeed};
use tptool::mount::framing::{InvalidResponseTreatment, ResponseType};
use tptool::mount::ioptron::{
    identify, info_line, model_from_id, mount_info_query, parse_position, position_query,
    slew_command, special_mode_toggle, toggle_special_mode, Command, ToggleStep, BAUD_RATE,
    READ_TIMEOUT_MS, SPECIAL_MODE_POLL_INTERVAL_MS, SPECIAL_MODE_SWITCH_MAX_MS,
};
use tptool::mount::{Axis, MountError};

fn text(command: &Command) -> String {
    String::from_utf8(command.bytes.clone()).unwrap()
}

#[test]
fn slew_command_for_one_degree_per_second_on_primary_axis() {
    let command = slew_command(Axis::Primary, deg_per_s(1));
    assert_eq!(text(&command), ":M0+00360000#");
    assert!(matches!(&command.response_type, ResponseType::CharsReceived(c) if c == b"1"));
    assert_eq!(command.on_invalid, InvalidResponseTreatment::IgnoreAndLog(true));
}

#[test]
fn slew_command_encodes_axis_sign_and_magnitude() {
    assert_eq!(text(&slew_command(Axis::Secondary, deg_per_s(-1))), ":M1-00360000#");
    assert_eq!(text(&slew_command(Axis::Primary, deg_per_s(0))), ":M0+00000000#");
    assert_eq!(text(&slew_command(Axis::Secondary, AngularSpeed::new(7))), ":M1+00000007#");
    assert_eq!(text(&slew_command(Axis::Primary, AngularSpeed::new(-12_345_678))), ":M0-12345678#");
    assert_eq!(text(&slew_command(Axis::Primary, AngularSpeed::new(99_999_999))), ":M0+99999999#");
}

#[test]
fn slew_command_grows_beyond_eight_digits_and_saturates() {
    assert_eq!(text(&slew_command(Axis::Primary, AngularSpeed::new(100_000_000))), ":M0+100000000#");
    assert_eq!(text(&slew_command(Axis::Primary, AngularSpeed::new(-1_234_567_890))), ":M0-1234567890#");
    assert_eq!(text(&slew_command(Axis::Primary, AngularSpeed::new(i64::MAX))), ":M0+2147483647#");
    assert_eq!(text(&slew_command(Axis::Primary, AngularSpeed::new(i64::MIN))), ":M0-2147483648#");
}

#[test]
fn queries_and_toggle_command() {
    let info = mount_info_query(InvalidResponseTreatment::Fail);
    assert_eq!(text(&info), ":MountInfo#");
    assert!(matches!(info.response_type, ResponseType::NumCharsReceived(4)));
    assert_eq!(info.on_invalid, InvalidResponseTreatment::Fail);
    let toggle = special_mode_toggle();
    assert_eq!(text(&toggle), ":ZZZ#");
    assert!(matches!(toggle.response_type, ResponseType::Nothing));
    let p0 = position_query(Axis::Primary);
    assert_eq!(text(&p0), ":P0#");
    assert!(matches!(p0.response_type, ResponseType::NumCharsReceived(11)));
    assert_eq!(p0.on_invalid, InvalidResponseTreatment::Fail);
    assert_eq!(text(&position_query(Axis::Secondary)), ":P1#");
}

#[test]
fn timing_constants() {
    assert_eq!(BAUD_RATE, 115_200);
    assert_eq!(READ_TIMEOUT_MS, 50);
    assert_eq!(SPECIAL_MODE_SWITCH_MAX_MS, 5_000);
    assert_eq!(SPECIAL_MODE_POLL_INTERVAL_MS, 333);
}

#[test]
fn position_reply_is_hundredths_of_an_arcsecond() {
    // the first ten of the eleven bytes hold the number
    assert_eq!(parse_position(b"+032400000#"), Ok(deg(90)));
    assert_eq!(parse_position(b"-0324000001"), Ok(deg(-90)));
    assert_eq!(parse_position(b"00000000019"), Ok(Angle::new(1)));
    assert_eq!(parse_position(b"0000000123#"), Ok(Angle::new(123)));
    assert_eq!(parse_position(b"2147483647#"), Ok(Angle::new(2_147_483_647)));
    assert_eq!(parse_position(b"-999999999#"), Ok(Angle::new(-999_999_999)));
    assert_eq!(parse_position(b"+000000000"), Ok(Angle::new(0)));
    assert_eq!(parse_position(b"+000000005 and more"), Ok(Angle::new(5)));
}

#[test]
fn position_reply_that_is_no_number_is_rejected() {
    assert_eq!(parse_position(b"2147483648#"), Err(MountError::InvalidNumber));
    assert_eq!(parse_position(b"99999999999"), Err(MountError::InvalidNumber));
    assert_eq!(parse_position(b"+00324000a0"), Err(MountError::InvalidNumber));
    assert_eq!(parse_position(b" 0032400000"), Err(MountError::InvalidNumber));
    assert_eq!(parse_position(b"+-032400000"), Err(MountError::InvalidNumber));
    assert_eq!(parse_position(b"+003240"), Err(MountError::InvalidNumber));
    assert_eq!(parse_position(b"+00324000"), Err(MountError::InvalidNumber));
    assert_eq!(parse_position(b""), Err(MountError::InvalidNumber));
    assert_eq!(parse_position(&[b'0', b'0', 0, 0, 0, 0, 0, 0, 0, 0, 0]), Err(MountError::InvalidNumber));
}

#[test]
fn model_table() {
    let table = [
        ("0026", "CEM26"), ("0027", "CEM26-EC"), ("0028", "GEM28"), ("0029", "GEM28-EC"),
        ("0033", "HAE29"), ("0034", "HAE29"), ("8033", "HAE29"), ("8034", "HAE29"),
        ("0035", "HAZ31"), ("8035", "HAZ31"),
        ("0040", "CEM40(G)"), ("0041", "CEM40(G)-EC"), ("0043", "GEM45(G)"), ("0044", "GEM45(G)-EC"),
        ("0050", "HAE43"), ("0051", "HAE43"), ("8050", "HAE43"), ("8051", "HAE43"),
        ("0052", "HAZ46"), ("8052", "HAZ46"),
        ("0066", "HAE69B"), ("0068", "HAE69B"), ("8064", "HAE69B"),
        ("0070", "CEM70(G)"), ("0071", "CEM70(G)-EC"),
        ("0120", "CEM120"), ("0121", "CEM120-EC"), ("0122", "CEM120-EC2"),
    ];
    for (id, model) in table {
        assert_eq!(model_from_id(id), model, "id {}", id);
    }
}

#[test]
fn unknown_model_quotes_the_identifier() {
    assert_eq!(model_from_id("0042"), "(unknown - 0042)");
    assert_eq!(model_from_id("8066"), "(unknown - 8066)");
    assert_eq!(model_from_id(""), "(unknown - )");
    assert_eq!(model_from_id("26"), "(unknown - 26)");
    assert_eq!(model_from_id("00260"), "(unknown - 00260)");
}

#[test]
fn identify_names_the_model_and_the_mode() {
    let normal = identify(&Ok(b"0066".to_vec())).unwrap();
    assert_eq!((normal.model.as_str(), normal.special_mode), ("HAE69B", false));
    let special = identify(&Ok(b"8064".to_vec())).unwrap();
    assert_eq!((special.model.as_str(), special.special_mode), ("HAE69B", true));
    let nine = identify(&Ok(b"9000".to_vec())).unwrap();
    assert_eq!((nine.model.as_str(), nine.special_mode), ("(unknown - 9000)", true));
    let not_text = identify(&Ok(vec![0xff, b'0', b'0', b'0'])).unwrap();
    assert_eq!((not_text.model.as_str(), not_text.special_mode), ("(unknown)", false));
}

#[test]
fn identify_fails_without_an_identifier() {
    assert_eq!(identify(&Ok(vec![])).err(), Some(MountError::EmptyMountId));
    assert_eq!(identify(&Err(MountError::UnexpectedReply)).err(), Some(MountError::EmptyMountId));
    assert_eq!(identify(&Err(MountError::Transport)).err(), Some(MountError::EmptyMountId));
}

#[test]
fn info_line_names_model_and_device() {
    assert_eq!(info_line("HAE69B", "/dev/ttyUSB0"), "iOptron HAE69B on /dev/ttyUSB0");
}

/// Drives a mode switch: replies come from `replies` in order; the clock
/// advances by `exchange_ms` with every exchange and by the pause asked for.
/// Returns the result, what was sent, and the pauses made.
fn drive(
    replies: Vec<Result<Vec<u8>, MountError>>,
    exchange_ms: u64,
) -> (Result<(), MountError>, Vec<String>, Vec<u64>) {
    let mut now = 1_000_000u64;
    let mut sent = vec![];
    let mut pauses = vec![];
    let mut next = 0;
    let mut step = toggle_special_mode();
    loop {
        step = match step {
            ToggleStep::Exchange(command, waiting) => {
                sent.push(text(&command));
                let reply = replies[next].clone();
                next += 1;
                now += exchange_ms;
                waiting.reply(&reply, now)
            }
            ToggleStep::Pause(ms, sleeping) => {
                pauses.push(ms);
                now += ms;
                sleeping.woke(now)
            }
            ToggleStep::Done(result) => return (result, sent, pauses),
        }
    }
}

#[test]
fn mode_switch_succeeds_when_the_first_character_changes() {
    let (result, sent, pauses) = drive(
        vec![
            Ok(b"0066".to_vec()),
            Ok(vec![]),
            Ok(b"0066".to_vec()),
            Err(MountError::UnexpectedReply),
            Ok(vec![b'8', b'0', 0]),
            Ok(b"8064".to_vec()),
        ],
        10,
    );
    assert_eq!(result, Ok(()));
    assert_eq!(
        sent,
        vec![":MountInfo#", ":ZZZ#", ":MountInfo#", ":MountInfo#", ":MountInfo#", ":MountInfo#"]
    );
    assert_eq!(pauses, vec![333, 333, 333]);
}

#[test]
fn mode_switch_back_to_normal_mode() {
    let (result, _, pauses) =
        drive(vec![Ok(b"8064".to_vec()), Ok(vec![]), Ok(b"0066".to_vec())], 10);
    assert_eq!(result, Ok(()));
    assert!(pauses.is_empty());
}

#[test]
fn mode_switch_times_out_after_five_seconds() {
    let mut replies = vec![Ok(b"0066".to_vec()), Ok(vec![])];
    for _ in 0..100 {
        replies.push(Ok(b"0066".to_vec()));
    }
    let (result, sent, pauses) = drive(replies, 0);
    assert_eq!(result, Err(MountError::ModeSwitchTimeout));
    // polls at 0, 333, ..., 4995 ms; the wake-up at 5328 ms is too late
    assert_eq!(sent.len(), 2 + 16);
    assert_eq!(pauses, vec![333; 16]);
}

#[test]
fn mode_switch_poll_at_exactly_five_seconds_is_still_made() {
    let step = toggle_special_mode();
    let ToggleStep::Exchange(_, waiting) = step else { panic!() };
    let ToggleStep::Exchange(_, waiting) = waiting.reply(&Ok(b"0066".to_vec()), 0) else { panic!() };
    let ToggleStep::Exchange(_, waiting) = waiting.reply(&Ok(vec![]), 100) else { panic!() };
    let ToggleStep::Pause(_, sleeping) = waiting.reply(&Ok(b"0066".to_vec()), 200) else { panic!() };
    let ToggleStep::Exchange(command, waiting) = sleeping.woke(5_100) else { panic!() };
    assert_eq!(text(&command), ":MountInfo#");
    assert_eq!(command.on_invalid, InvalidResponseTreatment::IgnoreAndLog(false));
    let ToggleStep::Pause(ms, sleeping) = waiting.reply(&Ok(b"0066".to_vec()), 5_100) else { panic!() };
    assert_eq!(ms, 333);
    assert!(matches!(sleeping.woke(5_101), ToggleStep::Done(Err(MountError::ModeSwitchTimeout))));
}

#[test]
fn mode_switch_fails_when_identifier_or_toggle_fails() {
    let (result, sent, _) = drive(vec![Err(MountError::UnexpectedReply)], 10);
    assert_eq!(result, Err(MountError::UnexpectedReply));
    assert_eq!(sent, vec![":MountInfo#"]);
    let (result, sent, _) = drive(vec![Ok(b"0066".to_vec()), Err(MountError::Transport)], 10);
    assert_eq!(result, Err(MountError::Transport));
    assert_eq!(sent, vec![":MountInfo#", ":ZZZ#"]);
    let (result, _, _) = drive(vec![Ok(vec![])], 10);
    assert_eq!(result, Err(MountError::UnexpectedReply));
}

#[test]
fn mode_switch_ignores_a_clock_that_runs_backwards() {
    let step = toggle_special_mode();
    let ToggleStep::Exchange(_, waiting) = step else { panic!() };
    let ToggleStep::Exchange(_, waiting) = waiting.reply(&Ok(b"0066".to_vec()), 9_000) else { panic!() };
    let ToggleStep::Exchange(_, waiting) = waiting.reply(&Ok(vec![]), 9_000) else { panic!() };
    let ToggleStep::Pause(_, sleeping) = waiting.reply(&Err(MountError::Transport), 9_000) else { panic!() };
    assert!(matches!(sleeping.woke(10), ToggleStep::Exchange(..)));
}
