//! The serial protocol of iOptron mounts in its extended ("special") mode:
//! the commands, what their replies mean, and the handshake that switches a
//! mount between its two protocol modes.
//!
//! Nothing here touches a port or a clock. Each function says what to send
//! or what a reply means; `ModeToggle` takes what was received, and the
//! time, and says what to do next.

use crate::data::{Angle, AngularSpeed};
use crate::mount::framing::{InvalidResponseTreatment, ResponseSpec, ResponseType};
use crate::mount::{Axis, MountError};
use crate::text::{
    all_digits, ascii_bytes, ascii_vec, digit_byte, digits_value, is_digit, parse_i32,
    parse_i32_spec,
};
use vstd::arithmetic::div_mod::{lemma_div_denominator, lemma_fundamental_div_mod};
use vstd::prelude::*;
use vstd::slice::slice_subrange;
use vstd::string::StringExecFns;
use vstd::utf8::{decode_utf8, valid_utf8};

verus! {

/// Baud rate of the serial line; eight data bits, no parity, one stop bit,
/// no flow control.
pub const BAUD_RATE: u32 = 115_200;

/// Time allowed for one read from the serial line, in milliseconds.
pub const READ_TIMEOUT_MS: u64 = 50;

/// Time allowed for the mount to confirm a switch of its protocol mode, in
/// milliseconds. Some models take up to 1.8 s.
pub const SPECIAL_MODE_SWITCH_MAX_MS: u64 = 5_000;

/// Pause between two queries while waiting for the mode switch, in
/// milliseconds.
pub const SPECIAL_MODE_POLL_INTERVAL_MS: u64 = 333;

/// Number of bytes in the reply to a query for the mount's identifier.
pub const MOUNT_ID_LEN: usize = 4;

/// Number of bytes in the reply to a position query.
pub const POSITION_REPLY_LEN: usize = 11;

/// Number of leading bytes of a position reply that hold the number.
pub const POSITION_DIGITS: usize = 10;

/// A command, and how its reply is to be read.
#[derive(Debug)]
pub struct Command {
    /// The bytes to write.
    pub bytes: Vec<u8>,
    /// How the end of the reply is recognised.
    pub response_type: ResponseType,
    /// What to do with a reply that is not the expected one.
    pub on_invalid: InvalidResponseTreatment,
}

/// `Command` as a mathematical value.
pub struct CommandSpec {
    pub bytes: Seq<u8>,
    pub response_type: ResponseSpec,
    pub on_invalid: InvalidResponseTreatment,
}

impl View for Command {
    type V = CommandSpec;

    open spec fn view(&self) -> CommandSpec {
        CommandSpec {
            bytes: self.bytes@,
            response_type: self.response_type@,
            on_invalid: self.on_invalid,
        }
    }
}

/// The query for the mount's identifier: `:MountInfo#`, answered by four
/// bytes.
pub open spec fn mount_info_query_spec(on_invalid: InvalidResponseTreatment) -> CommandSpec {
    CommandSpec {
        bytes: ascii_bytes(":MountInfo#"@),
        response_type: ResponseSpec::NumCharsReceived(MOUNT_ID_LEN as nat),
        on_invalid,
    }
}

/// The command that switches between normal and special mode: `:ZZZ#`,
/// which has no reply.
pub open spec fn special_mode_toggle_spec() -> CommandSpec {
    CommandSpec {
        bytes: ascii_bytes(":ZZZ#"@),
        response_type: ResponseSpec::Nothing,
        on_invalid: InvalidResponseTreatment::Fail,
    }
}

/// The digit that names an axis on the wire.
pub open spec fn axis_digit(axis: Axis) -> u8 {
    match axis {
        Axis::Primary => '0' as u8,
        Axis::Secondary => '1' as u8,
    }
}

/// The number sent for a speed: the speed in hundredths of an arcsecond per
/// second, held to the range of `i32`.
pub open spec fn slew_payload(speed: int) -> int {
    if speed < i32::MIN {
        i32::MIN as int
    } else if speed > i32::MAX {
        i32::MAX as int
    } else {
        speed
    }
}

/// The decimal digit of `n` at `place`, a power of ten.
pub open spec fn place_digit(n: int, place: int) -> u8 {
    digit_byte((n / place) % 10)
}

/// `n` in decimal, padded with zeros to eight digits; nine or ten digits
/// where `n` needs them. `n` is not negative and below ten thousand million.
pub open spec fn magnitude_digits(n: int) -> Seq<u8> {
    let low = seq![
        place_digit(n, 10_000_000),
        place_digit(n, 1_000_000),
        place_digit(n, 100_000),
        place_digit(n, 10_000),
        place_digit(n, 1_000),
        place_digit(n, 100),
        place_digit(n, 10),
        place_digit(n, 1),
    ];
    if n >= 1_000_000_000 {
        seq![place_digit(n, 1_000_000_000), place_digit(n, 100_000_000)] + low
    } else if n >= 100_000_000 {
        seq![place_digit(n, 100_000_000)] + low
    } else {
        low
    }
}

/// The bytes of the command that sets the speed of one axis:
/// `:M`, the axis, the sign, the digits of the payload, `#`.
pub open spec fn slew_command_bytes(axis: Axis, speed: int) -> Seq<u8> {
    let payload = slew_payload(speed);
    let sign = if payload < 0 {
        '-' as u8
    } else {
        '+' as u8
    };
    let magnitude = if payload < 0 {
        -payload
    } else {
        payload
    };
    seq![':' as u8, 'M' as u8, axis_digit(axis), sign] + magnitude_digits(magnitude) + seq![
        '#' as u8,
    ]
}

/// The command that sets the speed of one axis. The mount confirms with
/// `1`; a missing or wrong confirmation is let pass with a warning.
pub open spec fn slew_command_spec(axis: Axis, speed: int) -> CommandSpec {
    CommandSpec {
        bytes: slew_command_bytes(axis, speed),
        response_type: ResponseSpec::CharsReceived(seq!['1' as u8]),
        on_invalid: InvalidResponseTreatment::IgnoreAndLog(true),
    }
}

/// The query for the position of one axis: `:P0#` or `:P1#`, answered by
/// eleven bytes.
pub open spec fn position_query_spec(axis: Axis) -> CommandSpec {
    CommandSpec {
        bytes: seq![':' as u8, 'P' as u8, axis_digit(axis), '#' as u8],
        response_type: ResponseSpec::NumCharsReceived(POSITION_REPLY_LEN as nat),
        on_invalid: InvalidResponseTreatment::Fail,
    }
}

/// What a reply to a position query means: its first ten bytes are a
/// signed number of hundredths of an arcsecond.
pub open spec fn parse_position_spec(reply: Seq<u8>) -> Result<int, MountError> {
    if reply.len() < POSITION_DIGITS {
        Err(MountError::InvalidNumber)
    } else {
        match parse_i32_spec(reply.subrange(0, POSITION_DIGITS as int)) {
            Some(v) => Ok(v),
            None => Err(MountError::InvalidNumber),
        }
    }
}

/// The value of the first `k` of the digits `s`.
proof fn lemma_digits_value_step(s: Seq<u8>, k: int)
    requires
        0 < k <= s.len(),
    ensures
        digits_value(s.subrange(0, k)) == digits_value(s.subrange(0, k - 1)) * 10 + (s[k - 1]
            - '0' as u8),
{
    assert(s.subrange(0, k).drop_last() =~= s.subrange(0, k - 1));
}

/// The digit at `place` is what the number holds there: the places from
/// `place` upwards are ten times the places above, plus that digit.
proof fn lemma_place_step(n: int, place: int)
    requires
        0 <= n,
        0 < place,
    ensures
        n / place == (n / (place * 10)) * 10 + (n / place) % 10,
        0 <= (n / place) % 10 <= 9,
        place_digit(n, place) - '0' as u8 == (n / place) % 10,
        is_digit(place_digit(n, place)),
{
    lemma_div_denominator(n, place, 10);
    lemma_fundamental_div_mod(n / place, 10);
}

/// Eight digits for the places below a hundred million, after digits that
/// write the places above, write the whole number.
proof fn lemma_low_digits(s: Seq<u8>, start: int, n: int)
    requires
        0 <= n,
        0 <= start,
        s.len() == start + 8,
        digits_value(s.subrange(0, start)) == n / 100_000_000,
        s[start] == place_digit(n, 10_000_000),
        s[start + 1] == place_digit(n, 1_000_000),
        s[start + 2] == place_digit(n, 100_000),
        s[start + 3] == place_digit(n, 10_000),
        s[start + 4] == place_digit(n, 1_000),
        s[start + 5] == place_digit(n, 100),
        s[start + 6] == place_digit(n, 10),
        s[start + 7] == place_digit(n, 1),
    ensures
        digits_value(s) == n,
{
    lemma_digits_value_step(s, start + 1);
    lemma_place_step(n, 10_000_000);
    assert(digits_value(s.subrange(0, start + 1)) == n / 10_000_000);
    lemma_digits_value_step(s, start + 2);
    lemma_place_step(n, 1_000_000);
    assert(digits_value(s.subrange(0, start + 2)) == n / 1_000_000);
    lemma_digits_value_step(s, start + 3);
    lemma_place_step(n, 100_000);
    assert(digits_value(s.subrange(0, start + 3)) == n / 100_000);
    lemma_digits_value_step(s, start + 4);
    lemma_place_step(n, 10_000);
    assert(digits_value(s.subrange(0, start + 4)) == n / 10_000);
    lemma_digits_value_step(s, start + 5);
    lemma_place_step(n, 1_000);
    assert(digits_value(s.subrange(0, start + 5)) == n / 1_000);
    lemma_digits_value_step(s, start + 6);
    lemma_place_step(n, 100);
    assert(digits_value(s.subrange(0, start + 6)) == n / 100);
    lemma_digits_value_step(s, start + 7);
    lemma_place_step(n, 10);
    assert(digits_value(s.subrange(0, start + 7)) == n / 10);
    lemma_digits_value_step(s, start + 8);
    lemma_place_step(n, 1);
    assert(s.subrange(0, start + 8) =~= s);
}

/// The digits written for a number denote it: read as a decimal number,
/// the digits of `n` give `n` again.
pub proof fn lemma_magnitude_digits_denote(n: int)
    requires
        0 <= n < 10_000_000_000,
    ensures
        all_digits(magnitude_digits(n)),
        digits_value(magnitude_digits(n)) == n,
        8 <= magnitude_digits(n).len() <= 10,
{
    let s = magnitude_digits(n);
    lemma_place_step(n, 1_000_000_000);
    lemma_place_step(n, 100_000_000);
    lemma_place_step(n, 10_000_000);
    lemma_place_step(n, 1_000_000);
    lemma_place_step(n, 100_000);
    lemma_place_step(n, 10_000);
    lemma_place_step(n, 1_000);
    lemma_place_step(n, 100);
    lemma_place_step(n, 10);
    lemma_place_step(n, 1);
    assert forall|i: int| 0 <= i < s.len() implies is_digit(#[trigger] s[i]) by {}
    if n >= 1_000_000_000 {
        assert(n / 10_000_000_000 == 0);
        assert(digits_value(s.subrange(0, 0)) == 0);
        lemma_digits_value_step(s, 1);
        lemma_digits_value_step(s, 2);
        lemma_low_digits(s, 2, n);
    } else if n >= 100_000_000 {
        assert(n / 1_000_000_000 == 0);
        assert(digits_value(s.subrange(0, 0)) == 0);
        lemma_digits_value_step(s, 1);
        lemma_low_digits(s, 1, n);
    } else {
        assert(n / 100_000_000 == 0);
        assert(digits_value(s.subrange(0, 0)) == 0);
        lemma_low_digits(s, 0, n);
    }
}

/// The command for a speed carries that speed: the sign and the digits
/// between the axis and the closing `#` read as the payload.
pub proof fn lemma_slew_command_carries_payload(axis: Axis, speed: int)
    ensures
        ({
            let bytes = slew_command_bytes(axis, speed);
            parse_i32_spec(bytes.subrange(3, bytes.len() - 1)) == Some(slew_payload(speed))
        }),
{
    let bytes = slew_command_bytes(axis, speed);
    let payload = slew_payload(speed);
    let magnitude = if payload < 0 {
        -payload
    } else {
        payload
    };
    let number = bytes.subrange(3, bytes.len() - 1);
    lemma_magnitude_digits_denote(magnitude);
    assert(number.subrange(1, number.len() as int) =~= magnitude_digits(magnitude));
}

/// The query for the mount's identifier.
pub fn mount_info_query(on_invalid: InvalidResponseTreatment) -> (c: Command)
    ensures
        c@ == mount_info_query_spec(on_invalid),
{
    proof {
        reveal_strlit(":MountInfo#");
    }
    Command {
        bytes: ascii_vec(":MountInfo#"),
        response_type: ResponseType::NumCharsReceived(MOUNT_ID_LEN),
        on_invalid,
    }
}

/// The command that switches between normal and special mode.
pub fn special_mode_toggle() -> (c: Command)
    ensures
        c@ == special_mode_toggle_spec(),
{
    proof {
        reveal_strlit(":ZZZ#");
    }
    Command {
        bytes: ascii_vec(":ZZZ#"),
        response_type: ResponseType::Nothing,
        on_invalid: InvalidResponseTreatment::Fail,
    }
}

fn axis_byte(axis: Axis) -> (r: u8)
    ensures
        r == axis_digit(axis),
{
    match axis {
        Axis::Primary => '0' as u8,
        Axis::Secondary => '1' as u8,
    }
}

fn place_byte(n: i64, place: i64) -> (r: u8)
    requires
        0 <= n,
        0 < place,
    ensures
        r == place_digit(n as int, place as int),
{
    '0' as u8 + ((n / place) % 10) as u8
}

/// The command that sets the speed of one axis.
pub fn slew_command(axis: Axis, speed: AngularSpeed) -> (c: Command)
    ensures
        c@ == slew_command_spec(axis, speed@),
{
    let units = speed.centiarcsec_per_s;
    let payload: i64 = if units < -2_147_483_648 {
        -2_147_483_648
    } else if units > 2_147_483_647 {
        2_147_483_647
    } else {
        units
    };
    let magnitude: i64 = if payload < 0 {
        -payload
    } else {
        payload
    };
    let mut bytes: Vec<u8> = Vec::new();
    bytes.push(':' as u8);
    bytes.push('M' as u8);
    bytes.push(axis_byte(axis));
    bytes.push(
        if payload < 0 {
            '-' as u8
        } else {
            '+' as u8
        },
    );
    if magnitude >= 1_000_000_000 {
        bytes.push(place_byte(magnitude, 1_000_000_000));
    }
    if magnitude >= 100_000_000 {
        bytes.push(place_byte(magnitude, 100_000_000));
    }
    bytes.push(place_byte(magnitude, 10_000_000));
    bytes.push(place_byte(magnitude, 1_000_000));
    bytes.push(place_byte(magnitude, 100_000));
    bytes.push(place_byte(magnitude, 10_000));
    bytes.push(place_byte(magnitude, 1_000));
    bytes.push(place_byte(magnitude, 100));
    bytes.push(place_byte(magnitude, 10));
    bytes.push(place_byte(magnitude, 1));
    bytes.push('#' as u8);
    let mut confirmation: Vec<u8> = Vec::new();
    confirmation.push('1' as u8);
    assert(bytes@ =~= slew_command_bytes(axis, speed@));
    assert(confirmation@ =~= seq!['1' as u8]);
    Command {
        bytes,
        response_type: ResponseType::CharsReceived(confirmation),
        on_invalid: InvalidResponseTreatment::IgnoreAndLog(true),
    }
}

/// The query for the position of one axis.
pub fn position_query(axis: Axis) -> (c: Command)
    ensures
        c@ == position_query_spec(axis),
{
    let mut bytes: Vec<u8> = Vec::new();
    bytes.push(':' as u8);
    bytes.push('P' as u8);
    bytes.push(axis_byte(axis));
    bytes.push('#' as u8);
    assert(bytes@ =~= position_query_spec(axis).bytes);
    Command {
        bytes,
        response_type: ResponseType::NumCharsReceived(POSITION_REPLY_LEN),
        on_invalid: InvalidResponseTreatment::Fail,
    }
}

/// The axis angle that a reply to a position query reports.
pub fn parse_position(reply: &[u8]) -> (r: Result<Angle, MountError>)
    ensures
        match r {
            Ok(angle) => parse_position_spec(reply@) == Ok::<int, MountError>(angle@),
            Err(e) => parse_position_spec(reply@) == Err::<int, MountError>(e),
        },
{
    if reply.len() < POSITION_DIGITS {
        return Err(MountError::InvalidNumber);
    }
    match parse_i32(slice_subrange(reply, 0, POSITION_DIGITS)) {
        Some(v) => Ok(Angle { centiarcsec: v as i64 }),
        None => Err(MountError::InvalidNumber),
    }
}

/// The model that a mount's identifier stands for. An identifier that is
/// not in the table gives a name that quotes it.
pub open spec fn model_name(id: Seq<char>) -> Seq<char> {
    if id == "0026"@ {
        "CEM26"@
    } else if id == "0027"@ {
        "CEM26-EC"@
    } else if id == "0028"@ {
        "GEM28"@
    } else if id == "0029"@ {
        "GEM28-EC"@
    } else if id == "0033"@ || id == "0034"@ || id == "8033"@ || id == "8034"@ {
        "HAE29"@
    } else if id == "0035"@ || id == "8035"@ {
        "HAZ31"@
    } else if id == "0040"@ {
        "CEM40(G)"@
    } else if id == "0041"@ {
        "CEM40(G)-EC"@
    } else if id == "0043"@ {
        "GEM45(G)"@
    } else if id == "0044"@ {
        "GEM45(G)-EC"@
    } else if id == "0050"@ || id == "0051"@ || id == "8050"@ || id == "8051"@ {
        "HAE43"@
    } else if id == "0052"@ || id == "8052"@ {
        "HAZ46"@
    } else if id == "0066"@ || id == "0068"@ || id == "8064"@ {
        "HAE69B"@
    } else if id == "0070"@ {
        "CEM70(G)"@
    } else if id == "0071"@ {
        "CEM70(G)-EC"@
    } else if id == "0120"@ {
        "CEM120"@
    } else if id == "0121"@ {
        "CEM120-EC"@
    } else if id == "0122"@ {
        "CEM120-EC2"@
    } else {
        "(unknown - "@ + id + ")"@
    }
}

fn text_is(text: &str, literal: &str) -> (r: bool)
    ensures
        r == (text@ == literal@),
{
    String::from_str(text) == String::from_str(literal)
}

/// The model that a mount's identifier stands for.
pub fn model_from_id(id: &str) -> (name: String)
    ensures
        name@ == model_name(id@),
{
    if text_is(id, "0026") {
        String::from_str("CEM26")
    } else if text_is(id, "0027") {
        String::from_str("CEM26-EC")
    } else if text_is(id, "0028") {
        String::from_str("GEM28")
    } else if text_is(id, "0029") {
        String::from_str("GEM28-EC")
    } else if text_is(id, "0033") || text_is(id, "0034") || text_is(id, "8033") || text_is(id, "8034") {
        String::from_str("HAE29")
    } else if text_is(id, "0035") || text_is(id, "8035") {
        String::from_str("HAZ31")
    } else if text_is(id, "0040") {
        String::from_str("CEM40(G)")
    } else if text_is(id, "0041") {
        String::from_str("CEM40(G)-EC")
    } else if text_is(id, "0043") {
        String::from_str("GEM45(G)")
    } else if text_is(id, "0044") {
        String::from_str("GEM45(G)-EC")
    } else if text_is(id, "0050") || text_is(id, "0051") || text_is(id, "8050") || text_is(id, "8051") {
        String::from_str("HAE43")
    } else if text_is(id, "0052") || text_is(id, "8052") {
        String::from_str("HAZ46")
    } else if text_is(id, "0066") || text_is(id, "0068") || text_is(id, "8064") {
        String::from_str("HAE69B")
    } else if text_is(id, "0070") {
        String::from_str("CEM70(G)")
    } else if text_is(id, "0071") {
        String::from_str("CEM70(G)-EC")
    } else if text_is(id, "0120") {
        String::from_str("CEM120")
    } else if text_is(id, "0121") {
        String::from_str("CEM120-EC")
    } else if text_is(id, "0122") {
        String::from_str("CEM120-EC2")
    } else {
        String::from_str("(unknown - ").concat(id).concat(")")
    }
}

/// The name given to a mount whose identifier cannot be read as text.
pub open spec fn unknown_model() -> Seq<char> {
    "(unknown)"@
}

/// What a mount says of itself when a connection is opened.
#[derive(Debug)]
pub struct Identity {
    /// The model's name.
    pub model: String,
    /// Whether the mount is in special mode already.
    pub special_mode: bool,
}

/// `Identity` as a mathematical value.
pub struct IdentitySpec {
    pub model: Seq<char>,
    pub special_mode: bool,
}

impl View for Identity {
    type V = IdentitySpec;

    open spec fn view(&self) -> IdentitySpec {
        IdentitySpec { model: self.model@, special_mode: self.special_mode }
    }
}

/// Whether an identifier that starts with `first` stands for special mode.
pub open spec fn is_special_mode_id(first: u8) -> bool {
    first == '8' as u8 || first == '9' as u8
}

/// What the reply to the first query for the identifier means. A failed
/// query, or an empty identifier, ends the connection attempt. The model is
/// looked up where the identifier is text, and unknown where it is not.
pub open spec fn identify_spec(reply: Result<Seq<u8>, MountError>) -> Result<
    IdentitySpec,
    MountError,
> {
    match reply {
        Err(_) => Err(MountError::EmptyMountId),
        Ok(id) => if id.len() < 1 {
            Err(MountError::EmptyMountId)
        } else {
            Ok(
                IdentitySpec {
                    model: if valid_utf8(id) {
                        model_name(decode_utf8(id))
                    } else {
                        unknown_model()
                    },
                    special_mode: is_special_mode_id(id[0]),
                },
            )
        },
    }
}

/// `String::from_utf8` of std: the text that `bytes` encode, where they are
/// valid UTF-8, and nothing where they are not.
#[verifier::external_body]
fn utf8_text(bytes: &Vec<u8>) -> (r: Option<String>)
    ensures
        r is Some <==> valid_utf8(bytes@),
        r matches Some(text) ==> text@ == decode_utf8(bytes@),
{
    String::from_utf8(bytes.clone()).ok()
}

/// What the reply to the first query for the identifier means.
pub fn identify(reply: &Result<Vec<u8>, MountError>) -> (r: Result<Identity, MountError>)
    ensures
        match r {
            Ok(identity) => identify_spec(reply_view(*reply)) == Ok::<IdentitySpec, MountError>(
                identity@,
            ),
            Err(e) => identify_spec(reply_view(*reply)) == Err::<IdentitySpec, MountError>(e),
        },
{
    match reply {
        Err(_) => Err(MountError::EmptyMountId),
        Ok(id) => {
            if id.len() < 1 {
                return Err(MountError::EmptyMountId);
            }
            let model = match utf8_text(id) {
                Some(text) => model_from_id(text.as_str()),
                None => String::from_str("(unknown)"),
            };
            let first = id[0];
            Ok(Identity { model, special_mode: first == '8' as u8 || first == '9' as u8 })
        },
    }
}

/// The outcome of an exchange as a mathematical value.
pub open spec fn reply_view(reply: Result<Vec<u8>, MountError>) -> Result<Seq<u8>, MountError> {
    match reply {
        Ok(bytes) => Ok(bytes@),
        Err(e) => Err(e),
    }
}

/// The line that names an iOptron mount and its serial device.
pub fn info_line(model: &str, device: &str) -> (line: String)
    ensures
        line@ == "iOptron "@ + model@ + " on "@ + device@,
{
    String::from_str("iOptron ").concat(model).concat(" on ").concat(device)
}

/// Where the mode switch stands while it waits for the reply to a command.
#[derive(Clone, Copy, Debug, PartialEq, Eq, Structural)]
pub enum TogglePhase {
    /// The identifier that the mount has before the switch was asked for.
    Identify,
    /// The toggle command was sent; `before` is the first byte of the
    /// identifier that the mount had.
    Switch { before: u8 },
    /// The identifier was asked for again; the toggle command was through
    /// at `since_ms`.
    Poll { before: u8, since_ms: u64 },
}

/// A mode switch that waits for the reply to the command it handed out.
#[derive(Debug)]
pub struct AwaitingReply {
    phase: TogglePhase,
}

/// A mode switch that waits for its pause to pass.
#[derive(Debug)]
pub struct Sleeping {
    before: u8,
    since_ms: u64,
}

/// What the caller of a mode switch does next.
#[derive(Debug)]
pub enum ToggleStep {
    /// Send the command, read its reply, and hand the outcome to `reply`.
    Exchange(Command, AwaitingReply),
    /// Pause for so many milliseconds, then call `woke`.
    Pause(u64, Sleeping),
    /// The switch is over.
    Done(Result<(), MountError>),
}

/// `ToggleStep` as a mathematical value.
pub enum ToggleStepSpec {
    Exchange(CommandSpec, TogglePhase),
    Pause { ms: u64, before: u8, since_ms: u64 },
    Done(Result<(), MountError>),
}

impl AwaitingReply {
    /// Which reply is waited for.
    pub closed spec fn phase(&self) -> TogglePhase {
        self.phase
    }
}

impl Sleeping {
    /// The first byte of the identifier that the mount had before the switch.
    pub closed spec fn before(&self) -> u8 {
        self.before
    }

    /// When the toggle command was through.
    pub closed spec fn since_ms(&self) -> u64 {
        self.since_ms
    }
}

impl View for ToggleStep {
    type V = ToggleStepSpec;

    open spec fn view(&self) -> ToggleStepSpec {
        match self {
            ToggleStep::Exchange(command, waiting) => ToggleStepSpec::Exchange(
                command@,
                waiting.phase(),
            ),
            ToggleStep::Pause(ms, sleeping) => ToggleStepSpec::Pause {
                ms: *ms,
                before: sleeping.before(),
                since_ms: sleeping.since_ms(),
            },
            ToggleStep::Done(result) => ToggleStepSpec::Done(*result),
        }
    }
}

/// The time from `since_ms` to `now_ms` on a clock that does not run
/// backwards; nothing if it did.
pub open spec fn elapsed_ms(since_ms: u64, now_ms: u64) -> int {
    if now_ms >= since_ms {
        now_ms - since_ms
    } else {
        0
    }
}

/// The first step of a mode switch: ask for the identifier.
pub open spec fn toggle_start_spec() -> ToggleStepSpec {
    ToggleStepSpec::Exchange(
        mount_info_query_spec(InvalidResponseTreatment::Fail),
        TogglePhase::Identify,
    )
}

/// The step that follows a reply, which came at `now_ms`.
///
/// The first reply gives the identifier before the switch, and is followed
/// by the toggle command; where it failed, so does the switch. Once the
/// toggle command is through, the identifier is asked for until a reply of
/// four bytes starts with another byte than before: then the switch has
/// succeeded. After any other reply comes a pause.
pub open spec fn toggle_reply_spec(
    phase: TogglePhase,
    reply: Result<Seq<u8>, MountError>,
    now_ms: u64,
) -> ToggleStepSpec {
    match phase {
        TogglePhase::Identify => match reply {
            Err(e) => ToggleStepSpec::Done(Err(e)),
            Ok(id) => if id.len() < 1 {
                ToggleStepSpec::Done(Err(MountError::UnexpectedReply))
            } else {
                ToggleStepSpec::Exchange(
                    special_mode_toggle_spec(),
                    TogglePhase::Switch { before: id[0] },
                )
            },
        },
        TogglePhase::Switch { before } => match reply {
            Err(e) => ToggleStepSpec::Done(Err(e)),
            Ok(_) => ToggleStepSpec::Exchange(
                mount_info_query_spec(InvalidResponseTreatment::IgnoreAndLog(false)),
                TogglePhase::Poll { before, since_ms: now_ms },
            ),
        },
        TogglePhase::Poll { before, since_ms } => if reply matches Ok(id) && id.len()
            == MOUNT_ID_LEN && id[0] != before {
            ToggleStepSpec::Done(Ok(()))
        } else {
            ToggleStepSpec::Pause { ms: SPECIAL_MODE_POLL_INTERVAL_MS, before, since_ms }
        },
    }
}

/// The step that follows a pause, which ended at `now_ms`: the identifier
/// is asked for again unless the time allowed has passed.
pub open spec fn toggle_woke_spec(before: u8, since_ms: u64, now_ms: u64) -> ToggleStepSpec {
    if elapsed_ms(since_ms, now_ms) <= SPECIAL_MODE_SWITCH_MAX_MS {
        ToggleStepSpec::Exchange(
            mount_info_query_spec(InvalidResponseTreatment::IgnoreAndLog(false)),
            TogglePhase::Poll { before, since_ms },
        )
    } else {
        ToggleStepSpec::Done(Err(MountError::ModeSwitchTimeout))
    }
}

/// Starts a switch between normal and special mode.
pub fn toggle_special_mode() -> (step: ToggleStep)
    ensures
        step@ == toggle_start_spec(),
{
    ToggleStep::Exchange(
        mount_info_query(InvalidResponseTreatment::Fail),
        AwaitingReply { phase: TogglePhase::Identify },
    )
}

impl AwaitingReply {
    /// Takes the outcome of the exchange and the time in milliseconds, read
    /// from a clock that does not run backwards.
    pub fn reply(self, reply: &Result<Vec<u8>, MountError>, now_ms: u64) -> (step: ToggleStep)
        ensures
            step@ == toggle_reply_spec(self.phase(), reply_view(*reply), now_ms),
    {
        match self.phase {
            TogglePhase::Identify => match reply {
                Err(e) => ToggleStep::Done(Err(*e)),
                Ok(id) => if id.len() < 1 {
                    ToggleStep::Done(Err(MountError::UnexpectedReply))
                } else {
                    ToggleStep::Exchange(
                        special_mode_toggle(),
                        AwaitingReply { phase: TogglePhase::Switch { before: id[0] } },
                    )
                },
            },
            TogglePhase::Switch { before } => match reply {
                Err(e) => ToggleStep::Done(Err(*e)),
                Ok(_) => ToggleStep::Exchange(
                    mount_info_query(InvalidResponseTreatment::IgnoreAndLog(false)),
                    AwaitingReply { phase: TogglePhase::Poll { before, since_ms: now_ms } },
                ),
            },
            TogglePhase::Poll { before, since_ms } => {
                let changed = match reply {
                    Ok(id) => id.len() == MOUNT_ID_LEN && id[0] != before,
                    Err(_) => false,
                };
                if changed {
                    ToggleStep::Done(Ok(()))
                } else {
                    ToggleStep::Pause(SPECIAL_MODE_POLL_INTERVAL_MS, Sleeping { before, since_ms })
                }
            },
        }
    }
}

impl Sleeping {
    /// Takes the time in milliseconds at the end of the pause.
    pub fn woke(self, now_ms: u64) -> (step: ToggleStep)
        ensures
            step@ == toggle_woke_spec(self.before(), self.since_ms(), now_ms),
    {
        let elapsed: u64 = if now_ms >= self.since_ms {
            now_ms - self.since_ms
        } else {
            0
        };
        if elapsed <= SPECIAL_MODE_SWITCH_MAX_MS {
            ToggleStep::Exchange(
                mount_info_query(InvalidResponseTreatment::IgnoreAndLog(false)),
                AwaitingReply {
                    phase: TogglePhase::Poll { before: self.before, since_ms: self.since_ms },
                },
            )
        } else {
            ToggleStep::Done(Err(MountError::ModeSwitchTimeout))
        }
    }
}

} // verus!
