//! What a game controller can be asked to do: the actions of the tool, the
//! controller events assigned to them, and how an assignment is written
//! down.

use crate::data::{Slewing, FULL_DEFLECTION};
use crate::text::{
    first_word, first_word_spec, hex_digit_char, hex_digits, hex_text, lemma_word_len,
    lemma_word_len_is, text_chars,
};
use vstd::arithmetic::div_mod::{lemma_mod_breakdown, lemma_small_mod};
use vstd::prelude::*;
use vstd::string::{StrSliceExecFns, StringExecFns};

verus! {

/// An event of the `stick` crate. Nothing of its contents is known here.
#[verifier::external_type_specification]
#[verifier::external_body]
pub struct ExStickEvent(stick::Event);

/// Why a text is no assignment.
#[derive(Clone, Copy, Debug, PartialEq, Eq, Structural)]
pub enum ControllerError {
    /// The text is not of the form `[`, hexadecimal digits, `]`, event.
    InvalidSourceAction,
}

/// The kind of a controller event, without its value: the first word of
/// what the event prints as.
#[derive(Clone, Debug)]
pub struct SerializedEvent(String);

impl View for SerializedEvent {
    type V = Seq<char>;

    closed spec fn view(&self) -> Seq<char> {
        self.0@
    }
}

/// The text that an event of the `stick` crate prints as: the name of its
/// kind, a space, and its value in words or as a number. `Display` of
/// `stick::Event` writes it from the event alone, by a table of about a
/// hundred kinds that is not repeated here.
pub uninterp spec fn stick_event_text(event: stick::Event) -> Seq<char>;

/// The kind of an event of the `stick` crate: what it prints as, up to the
/// first space.
pub open spec fn event_kind(event: stick::Event) -> Seq<char> {
    first_word_spec(stick_event_text(event))
}

/// `Display` of `stick::Event`: the text that the event prints as. The
/// text depends on nothing but the event; what it is, is left to
/// `stick_event_text`.
#[verifier::external_body]
fn event_text(event: &stick::Event) -> (text: String)
    ensures
        text@ == stick_event_text(*event),
{
    format!("{}", event)
}

impl SerializedEvent {
    /// The kind as text.
    pub fn as_str(&self) -> (r: &str)
        ensures
            r@ == self@,
    {
        self.0.as_str()
    }

    /// The kind that `s` names. Every text names one.
    pub fn from_str(s: &str) -> (r: Result<SerializedEvent, ControllerError>)
        ensures
            r matches Ok(event) && event@ == s@,
    {
        Ok(SerializedEvent(String::from_str(s)))
    }

    /// The kind of an event that prints as `text`: the text up to its first
    /// space.
    pub fn from_text(text: &str) -> (r: SerializedEvent)
        ensures
            r@ == first_word_spec(text@),
    {
        SerializedEvent(first_word(text))
    }

    /// The kind of `event`: what it prints as, up to the first space.
    pub fn from_event(event: &stick::Event) -> (r: SerializedEvent)
        ensures
            r@ == event_kind(*event),
            forall|i: int| 0 <= i < r@.len() ==> r@[i] != ' ',
    {
        let text = event_text(event);
        proof {
            lemma_word_len(text@);
        }
        SerializedEvent::from_text(text.as_str())
    }
}

/// A controller event together with the controller it came from.
#[derive(Debug)]
pub struct StickEvent {
    pub id: u64,
    pub event: stick::Event,
}

/// An event of one controller, as assigned to an action.
#[derive(Clone, Debug)]
pub struct SourceAction {
    /// Which controller.
    pub ctrl_id: u64,
    /// The controller's name, for the user to read. It takes no part in
    /// telling events apart.
    pub ctrl_name: String,
    /// Which kind of event.
    pub event: SerializedEvent,
}

/// `SourceAction` as a mathematical value.
pub struct SourceActionView {
    pub ctrl_id: u64,
    pub ctrl_name: Seq<char>,
    pub event: Seq<char>,
}

impl View for SourceAction {
    type V = SourceActionView;

    open spec fn view(&self) -> SourceActionView {
        SourceActionView { ctrl_id: self.ctrl_id, ctrl_name: self.ctrl_name@, event: self.event@ }
    }
}

/// How an assignment is written down: the controller's number as sixteen
/// hexadecimal digits in square brackets, then the kind of event.
pub open spec fn serialized_spec(ctrl_id: u64, event: Seq<char>) -> Seq<char> {
    seq!['['] + hex_digits(ctrl_id as nat, 16) + seq![']'] + event
}

/// Whether `c` is a hexadecimal digit, in either case.
pub open spec fn is_hex_digit(c: char) -> bool {
    ('0' <= c <= '9') || ('a' <= c <= 'f') || ('A' <= c <= 'F')
}

/// The value of the hexadecimal digit `c`.
pub open spec fn hex_digit_value(c: char) -> int {
    if '0' <= c <= '9' {
        c as u32 - '0' as u32
    } else if 'a' <= c <= 'f' {
        c as u32 - 'a' as u32 + 10
    } else {
        c as u32 - 'A' as u32 + 10
    }
}

/// The number that the hexadecimal digits `s` write; zero for no digits.
pub open spec fn hex_value(s: Seq<char>) -> int
    decreases s.len(),
{
    if s.len() == 0 {
        0
    } else {
        hex_value(s.drop_last()) * 16 + hex_digit_value(s.last())
    }
}

/// The number of hexadecimal digits at the start of `s`.
pub open spec fn hex_run(s: Seq<char>) -> nat
    decreases s.len(),
{
    if s.len() == 0 || !is_hex_digit(s[0]) {
        0
    } else {
        1 + hex_run(s.drop_first())
    }
}

/// What a text means as an assignment: the controller's number and the kind
/// of event, or nothing where the text is no assignment.
///
/// An assignment is `[`, at least one hexadecimal digit, `]`, and the kind
/// of event, which is not empty and ends at the first space. The number
/// fits 64 bits.
pub open spec fn parse_spec(s: Seq<char>) -> Option<(u64, Seq<char>)> {
    if s.len() == 0 || s[0] != '[' {
        None
    } else {
        let n = hex_run(s.subrange(1, s.len() as int)) as int;
        let id = hex_value(s.subrange(1, 1 + n));
        if n == 0 || 1 + n >= s.len() || s[1 + n] != ']' || id > u64::MAX {
            None
        } else {
            let event = first_word_spec(s.subrange(2 + n, s.len() as int));
            if event.len() == 0 {
                None
            } else {
                Some((id as u64, event))
            }
        }
    }
}

proof fn lemma_hex_run_is(s: Seq<char>, n: nat)
    requires
        n <= s.len(),
        forall|i: int| 0 <= i < n ==> is_hex_digit(s[i]),
        n < s.len() ==> !is_hex_digit(s[n as int]),
    ensures
        hex_run(s) == n,
    decreases s.len(),
{
    if s.len() == 0 || !is_hex_digit(s[0]) {
    } else {
        let rest = s.drop_first();
        assert forall|i: int| 0 <= i < n - 1 implies is_hex_digit(rest[i]) by {
            assert(rest[i] == s[i + 1]);
        }
        if n < s.len() {
            assert(rest[n - 1] == s[n as int]);
        }
        lemma_hex_run_is(rest, (n - 1) as nat);
    }
}

proof fn lemma_hex_value_nonnegative(s: Seq<char>)
    requires
        forall|i: int| 0 <= i < s.len() ==> is_hex_digit(s[i]),
    ensures
        0 <= hex_value(s),
    decreases s.len(),
{
    if s.len() > 0 {
        assert(is_hex_digit(s[s.len() - 1]));
        lemma_hex_value_nonnegative(s.drop_last());
    }
}

fn hex_digit_of(c: char) -> (r: Option<u64>)
    ensures
        r is Some <==> is_hex_digit(c),
        r matches Some(v) ==> v == hex_digit_value(c) && v < 16,
{
    let code: u32 = c as u32;
    if code >= '0' as u32 && code <= '9' as u32 {
        Some((code - '0' as u32) as u64)
    } else if code >= 'a' as u32 && code <= 'f' as u32 {
        Some((code - 'a' as u32 + 10) as u64)
    } else if code >= 'A' as u32 && code <= 'F' as u32 {
        Some((code - 'A' as u32 + 10) as u64)
    } else {
        None
    }
}

impl SourceAction {
    /// The assignment written down.
    pub fn serialize(&self) -> (r: String)
        ensures
            r@ == serialized_spec(self.ctrl_id, self.event@),
    {
        proof {
            reveal_strlit("[");
            reveal_strlit("]");
        }
        let r = String::from_str("[").concat(hex_text(self.ctrl_id, 16).as_str()).concat(
            "]",
        ).concat(self.event.as_str());
        assert(r@ =~= serialized_spec(self.ctrl_id, self.event@));
        r
    }

    /// Whether this assignment names the events of kind `kind` from the
    /// controller `ctrl_id`.
    pub fn matches_kind(&self, ctrl_id: u64, kind: &SerializedEvent) -> (r: bool)
        ensures
            r == (self.ctrl_id == ctrl_id && self.event@ == kind@),
    {
        self.ctrl_id == ctrl_id && kind.0 == self.event.0
    }

    /// Whether `event` is the event that this assignment names: it comes
    /// from the same controller and is of the same kind.
    pub fn matches(&self, event: &StickEvent) -> (r: bool)
        ensures
            r == (self.ctrl_id == event.id && self.event@ == event_kind(event.event)),
    {
        let kind = SerializedEvent::from_event(&event.event);
        self.matches_kind(event.id, &kind)
    }

    /// Reads an assignment as `serialize` writes it. The controller's name
    /// is not written down and comes back empty.
    pub fn parse(s: &str) -> (r: Result<SourceAction, ControllerError>)
        ensures
            match r {
                Ok(action) => parse_spec(s@) == Some((action@.ctrl_id, action@.event))
                    && action@.ctrl_name.len() == 0,
                Err(e) => parse_spec(s@) is None && e == ControllerError::InvalidSourceAction,
            },
    {
        let chars = text_chars(s);
        let len = chars.len();
        if len == 0 || chars[0] != '[' {
            return Err(ControllerError::InvalidSourceAction);
        }
        let ghost tail = s@.subrange(1, len as int);
        let mut id: u64 = 0;
        let mut i: usize = 1;
        let mut overflow = false;
        while i < len
            invariant
                chars@ == s@,
                len == s@.len(),
                tail == s@.subrange(1, len as int),
                1 <= i <= len,
                forall|j: int| 0 <= j < i - 1 ==> is_hex_digit(tail[j]),
                !overflow ==> id == hex_value(tail.subrange(0, i - 1)),
                overflow ==> hex_value(tail.subrange(0, i - 1)) > u64::MAX,
            ensures
                1 <= i <= len,
                forall|j: int| 0 <= j < i - 1 ==> is_hex_digit(tail[j]),
                i < len ==> !is_hex_digit(tail[i - 1]),
                !overflow ==> id == hex_value(tail.subrange(0, i - 1)),
                overflow ==> hex_value(tail.subrange(0, i - 1)) > u64::MAX,
            decreases len - i,
        {
            assert(tail[i - 1] == chars@[i as int]);
            let digit = match hex_digit_of(chars[i]) {
                Some(d) => d,
                None => {
                    break;
                },
            };
            let ghost before = tail.subrange(0, i - 1);
            let ghost after = tail.subrange(0, i as int);
            assert(after.drop_last() =~= before);
            assert(after.last() == chars@[i as int]);
            if overflow || id > (u64::MAX - digit) / 16 {
                proof {
                    assert forall|j: int| 0 <= j < before.len() implies is_hex_digit(
                        before[j],
                    ) by {
                        assert(before[j] == tail[j]);
                    }
                    lemma_hex_value_nonnegative(before);
                }
                overflow = true;
            } else {
                id = id * 16 + digit;
            }
            i = i + 1;
        }
        let n: usize = i - 1;
        proof {
            lemma_hex_run_is(tail, n as nat);
            assert(tail.subrange(0, n as int) =~= s@.subrange(1, 1 + n));
        }
        if n == 0 || i >= len || chars[i] != ']' || overflow {
            return Err(ControllerError::InvalidSourceAction);
        }
        let event = first_word(s.substring_char(i + 1, len));
        if event.as_str().unicode_len() == 0 {
            return Err(ControllerError::InvalidSourceAction);
        }
        Ok(SourceAction { ctrl_id: id, ctrl_name: String::new(), event: SerializedEvent(event) })
    }
}

impl core::str::FromStr for SourceAction {
    type Err = ControllerError;

    /// Reads an assignment as `SourceAction::parse` does.
    fn from_str(s: &str) -> (r: Result<SourceAction, ControllerError>)
        ensures
            match r {
                Ok(action) => parse_spec(s@) == Some((action@.ctrl_id, action@.event))
                    && action@.ctrl_name.len() == 0,
                Err(e) => parse_spec(s@) is None && e == ControllerError::InvalidSourceAction,
            },
    {
        SourceAction::parse(s)
    }
}

/// What the tool can be asked to do through a controller.
#[derive(Clone, Copy, Debug, PartialEq, Eq, Hash, Structural)]
pub enum TargetAction {
    /// Mount axis 1, through an analog axis of the controller.
    MountAxis1,
    /// Mount axis 2, through an analog axis of the controller.
    MountAxis2,
    /// Mount axis 1 / positive, through a button.
    MountAxis1Pos,
    /// Mount axis 1 / negative, through a button.
    MountAxis1Neg,
    /// Mount axis 2 / positive, through a button.
    MountAxis2Pos,
    /// Mount axis 2 / negative, through a button.
    MountAxis2Neg,
    /// Stop mount.
    StopMount,
    /// Toggle tracking.
    ToggleTracking,
    /// Save adjustment.
    SaveAdjustment,
    /// Cancel adjustment.
    CancelAdjustment,
    /// Increase slew speed.
    IncreaseSlewSpeed,
    /// Decrease slew speed.
    DecreaseSlewSpeed,
}

/// Number of actions.
pub const ACTION_COUNT: usize = 12;

impl TargetAction {
    /// The place of the action in the list of all actions.
    pub open spec fn index_spec(self) -> int {
        match self {
            TargetAction::MountAxis1 => 0,
            TargetAction::MountAxis2 => 1,
            TargetAction::MountAxis1Pos => 2,
            TargetAction::MountAxis1Neg => 3,
            TargetAction::MountAxis2Pos => 4,
            TargetAction::MountAxis2Neg => 5,
            TargetAction::StopMount => 6,
            TargetAction::ToggleTracking => 7,
            TargetAction::SaveAdjustment => 8,
            TargetAction::CancelAdjustment => 9,
            TargetAction::IncreaseSlewSpeed => 10,
            TargetAction::DecreaseSlewSpeed => 11,
        }
    }

    /// The name under which the action's assignment is stored.
    pub open spec fn key_spec(self) -> Seq<char> {
        match self {
            TargetAction::MountAxis1 => "MountAxis1"@,
            TargetAction::MountAxis2 => "MountAxis2"@,
            TargetAction::MountAxis1Pos => "MountAxis1Pos"@,
            TargetAction::MountAxis1Neg => "MountAxis1Neg"@,
            TargetAction::MountAxis2Pos => "MountAxis2Pos"@,
            TargetAction::MountAxis2Neg => "MountAxis2Neg"@,
            TargetAction::StopMount => "StopMount"@,
            TargetAction::ToggleTracking => "ToggleTracking"@,
            TargetAction::SaveAdjustment => "SaveAdjustment"@,
            TargetAction::CancelAdjustment => "CancelAdjustment"@,
            TargetAction::IncreaseSlewSpeed => "IncreaseSlewSpeed"@,
            TargetAction::DecreaseSlewSpeed => "DecreaseSlewSpeed"@,
        }
    }

    /// The action as shown to the user.
    pub open spec fn description_spec(self) -> Seq<char> {
        match self {
            TargetAction::MountAxis1 => "Mount axis 1"@,
            TargetAction::MountAxis2 => "Mount axis 2"@,
            TargetAction::MountAxis1Pos => "Mount axis 1 / positive"@,
            TargetAction::MountAxis1Neg => "Mount axis 1 / negative"@,
            TargetAction::MountAxis2Pos => "Mount axis 2 / positive"@,
            TargetAction::MountAxis2Neg => "Mount axis 2 / negative"@,
            TargetAction::StopMount => "Stop mount"@,
            TargetAction::ToggleTracking => "Toggle tracking"@,
            TargetAction::SaveAdjustment => "Save adjustment"@,
            TargetAction::CancelAdjustment => "Cancel adjustment"@,
            TargetAction::IncreaseSlewSpeed => "Increase slew speed"@,
            TargetAction::DecreaseSlewSpeed => "Decrease slew speed"@,
        }
    }

    /// All actions, in the order in which they are listed and stored.
    pub open spec fn all_spec() -> Seq<TargetAction> {
        seq![
            TargetAction::MountAxis1,
            TargetAction::MountAxis2,
            TargetAction::MountAxis1Pos,
            TargetAction::MountAxis1Neg,
            TargetAction::MountAxis2Pos,
            TargetAction::MountAxis2Neg,
            TargetAction::StopMount,
            TargetAction::ToggleTracking,
            TargetAction::SaveAdjustment,
            TargetAction::CancelAdjustment,
            TargetAction::IncreaseSlewSpeed,
            TargetAction::DecreaseSlewSpeed,
        ]
    }

    /// The place of the action in the list of all actions.
    pub fn index(self) -> (r: usize)
        ensures
            r == self.index_spec(),
            r < ACTION_COUNT,
    {
        match self {
            TargetAction::MountAxis1 => 0,
            TargetAction::MountAxis2 => 1,
            TargetAction::MountAxis1Pos => 2,
            TargetAction::MountAxis1Neg => 3,
            TargetAction::MountAxis2Pos => 4,
            TargetAction::MountAxis2Neg => 5,
            TargetAction::StopMount => 6,
            TargetAction::ToggleTracking => 7,
            TargetAction::SaveAdjustment => 8,
            TargetAction::CancelAdjustment => 9,
            TargetAction::IncreaseSlewSpeed => 10,
            TargetAction::DecreaseSlewSpeed => 11,
        }
    }

    /// All actions, in the order in which they are listed and stored.
    pub fn all() -> (r: Vec<TargetAction>)
        ensures
            r@ == TargetAction::all_spec(),
    {
        let r = vec![
            TargetAction::MountAxis1,
            TargetAction::MountAxis2,
            TargetAction::MountAxis1Pos,
            TargetAction::MountAxis1Neg,
            TargetAction::MountAxis2Pos,
            TargetAction::MountAxis2Neg,
            TargetAction::StopMount,
            TargetAction::ToggleTracking,
            TargetAction::SaveAdjustment,
            TargetAction::CancelAdjustment,
            TargetAction::IncreaseSlewSpeed,
            TargetAction::DecreaseSlewSpeed,
        ];
        assert(r@ =~= TargetAction::all_spec());
        r
    }

    /// The name under which the action's assignment is stored.
    pub fn config_key(&self) -> (r: &'static str)
        ensures
            r@ == self.key_spec(),
    {
        match self {
            TargetAction::MountAxis1 => "MountAxis1",
            TargetAction::MountAxis2 => "MountAxis2",
            TargetAction::MountAxis1Pos => "MountAxis1Pos",
            TargetAction::MountAxis1Neg => "MountAxis1Neg",
            TargetAction::MountAxis2Pos => "MountAxis2Pos",
            TargetAction::MountAxis2Neg => "MountAxis2Neg",
            TargetAction::StopMount => "StopMount",
            TargetAction::ToggleTracking => "ToggleTracking",
            TargetAction::SaveAdjustment => "SaveAdjustment",
            TargetAction::CancelAdjustment => "CancelAdjustment",
            TargetAction::IncreaseSlewSpeed => "IncreaseSlewSpeed",
            TargetAction::DecreaseSlewSpeed => "DecreaseSlewSpeed",
        }
    }

    /// The action as shown to the user.
    pub fn description(&self) -> (r: &'static str)
        ensures
            r@ == self.description_spec(),
    {
        match self {
            TargetAction::MountAxis1 => "Mount axis 1",
            TargetAction::MountAxis2 => "Mount axis 2",
            TargetAction::MountAxis1Pos => "Mount axis 1 / positive",
            TargetAction::MountAxis1Neg => "Mount axis 1 / negative",
            TargetAction::MountAxis2Pos => "Mount axis 2 / positive",
            TargetAction::MountAxis2Neg => "Mount axis 2 / negative",
            TargetAction::StopMount => "Stop mount",
            TargetAction::ToggleTracking => "Toggle tracking",
            TargetAction::SaveAdjustment => "Save adjustment",
            TargetAction::CancelAdjustment => "Cancel adjustment",
            TargetAction::IncreaseSlewSpeed => "Increase slew speed",
            TargetAction::DecreaseSlewSpeed => "Decrease slew speed",
        }
    }

    /// Every action stands at its own place in the list of all actions.
    pub proof fn lemma_all_indexed(self)
        ensures
            0 <= self.index_spec() < ACTION_COUNT,
            TargetAction::all_spec().len() == ACTION_COUNT,
            TargetAction::all_spec()[self.index_spec()] == self,
    {
    }
}

/// An optional assignment as a mathematical value.
pub open spec fn assignment_view(src: Option<SourceAction>) -> Option<SourceActionView> {
    match src {
        Some(action) => Some(action@),
        None => None,
    }
}

/// Which controller event is assigned to which action. Every action has a
/// place; some places are empty.
#[derive(Debug)]
pub struct ActionAssignments {
    slots: Vec<Option<SourceAction>>,
}

impl ActionAssignments {
    #[verifier::type_invariant]
    closed spec fn wf(&self) -> bool {
        self.slots@.len() == ACTION_COUNT
    }

    /// The event assigned to `target_action`, if one is.
    pub closed spec fn assigned(&self, target_action: TargetAction) -> Option<SourceActionView> {
        assignment_view(self.slots@[target_action.index_spec()])
    }

    /// No action has an event assigned.
    pub fn new() -> (r: ActionAssignments)
        ensures
            forall|action: TargetAction| r.assigned(action) is None,
    {
        let mut slots: Vec<Option<SourceAction>> = Vec::new();
        let mut i: usize = 0;
        while i < ACTION_COUNT
            invariant
                i <= ACTION_COUNT,
                slots@.len() == i,
                forall|j: int| 0 <= j < i ==> slots@[j] is None,
            decreases ACTION_COUNT - i,
        {
            slots.push(None);
            i = i + 1;
        }
        ActionAssignments { slots }
    }

    /// The event assigned to `target_action`, if one is.
    pub fn get(&self, target_action: TargetAction) -> (r: &Option<SourceAction>)
        ensures
            assignment_view(*r) == self.assigned(target_action),
    {
        proof {
            use_type_invariant(self);
        }
        &self.slots[target_action.index()]
    }

    /// Assigns `src_action` to `target_action`, or nothing. The other
    /// actions keep what they have.
    pub fn set(&mut self, target_action: TargetAction, src_action: Option<SourceAction>)
        ensures
            final(self).assigned(target_action) == assignment_view(src_action),
            forall|other: TargetAction|
                other != target_action ==> final(self).assigned(other) == old(self).assigned(other),
    {
        proof {
            use_type_invariant(&*self);
        }
        let i = target_action.index();
        self.slots[i] = src_action;
    }
}

/// Sixteen to the power of `count`.
pub open spec fn pow16(count: nat) -> nat
    decreases count,
{
    if count == 0 {
        1
    } else {
        16 * pow16((count - 1) as nat)
    }
}

proof fn lemma_hex_digits(n: nat, count: nat)
    ensures
        hex_digits(n, count).len() == count,
        forall|i: int| 0 <= i < count ==> is_hex_digit(#[trigger] hex_digits(n, count)[i]),
        hex_value(hex_digits(n, count)) == n % pow16(count),
        pow16(count) > 0,
    decreases count,
{
    if count == 0 {
    } else {
        let shorter = hex_digits(n / 16, (count - 1) as nat);
        let all = hex_digits(n, count);
        lemma_hex_digits(n / 16, (count - 1) as nat);
        assert(all.drop_last() =~= shorter);
        let low = (n % 16) as int;
        assert(is_hex_digit(hex_digit_char(low)) && hex_digit_value(hex_digit_char(low)) == low);
        assert forall|i: int| 0 <= i < count implies is_hex_digit(#[trigger] all[i]) by {
            if i < count - 1 {
                assert(all[i] == shorter[i]);
            }
        }
        let m = pow16((count - 1) as nat) as int;
        lemma_mod_breakdown(n as int, 16, m);
    }
}

/// What `serialize` writes, `parse` reads back: the same controller and
/// the same kind of event, where the kind is not empty and holds no space.
pub proof fn lemma_parse_serialized(ctrl_id: u64, event: Seq<char>)
    requires
        event.len() > 0,
        forall|i: int| 0 <= i < event.len() ==> event[i] != ' ',
    ensures
        parse_spec(serialized_spec(ctrl_id, event)) == Some((ctrl_id, event)),
{
    let digits = hex_digits(ctrl_id as nat, 16);
    let s = serialized_spec(ctrl_id, event);
    lemma_hex_digits(ctrl_id as nat, 16);
    let tail = s.subrange(1, s.len() as int);
    assert forall|i: int| 0 <= i < 16 implies is_hex_digit(tail[i]) by {
        assert(tail[i] == digits[i]);
    }
    assert(tail[16] == ']');
    lemma_hex_run_is(tail, 16);
    assert(s.subrange(1, 17) =~= digits);
    assert(pow16(16) == 0x1_0000_0000_0000_0000) by {
        reveal_with_fuel(pow16, 17);
    }
    lemma_small_mod(ctrl_id as nat, pow16(16));
    assert(s.subrange(18, s.len() as int) =~= event);
    lemma_word_len_is(event, event.len());
    assert(event.subrange(0, event.len() as int) =~= event);
}

impl ActionAssignments {
    /// Whether the events of kind `kind` from the controller `ctrl_id` are
    /// assigned to `action`.
    pub open spec fn names(&self, action: TargetAction, ctrl_id: u64, kind: Seq<char>) -> bool {
        self.assigned(action) matches Some(src) && src.ctrl_id == ctrl_id && src.event == kind
    }

    /// The first action, in the order of the list of all actions, to which
    /// the events of kind `kind` from the controller `ctrl_id` are assigned,
    /// if they are assigned to any.
    pub fn find_kind(&self, ctrl_id: u64, kind: &SerializedEvent) -> (r: Option<TargetAction>)
        ensures
            match r {
                Some(action) => self.names(action, ctrl_id, kind@) && forall|earlier: TargetAction|
                    earlier.index_spec() < action.index_spec() ==> !self.names(
                        earlier,
                        ctrl_id,
                        kind@,
                    ),
                None => forall|action: TargetAction| !self.names(action, ctrl_id, kind@),
            },
    {
        let actions = TargetAction::all();
        let mut i: usize = 0;
        while i < actions.len()
            invariant
                i <= actions.len(),
                actions@ == TargetAction::all_spec(),
                forall|earlier: TargetAction|
                    earlier.index_spec() < i ==> !self.names(earlier, ctrl_id, kind@),
            decreases actions.len() - i,
        {
            let action = actions[i];
            proof {
                action.lemma_all_indexed();
                assert(action.index_spec() == i);
            }
            if let Some(src) = self.get(action) {
                if src.matches_kind(ctrl_id, kind) {
                    return Some(action);
                }
            }
            proof {
                assert forall|earlier: TargetAction| earlier.index_spec() < i + 1 implies !self.names(
                    earlier,
                    ctrl_id,
                    kind@,
                ) by {
                    earlier.lemma_all_indexed();
                    if earlier.index_spec() == i {
                        assert(earlier == action);
                    }
                }
            }
            i = i + 1;
        }
        proof {
            assert forall|action: TargetAction| !self.names(action, ctrl_id, kind@) by {
                action.lemma_all_indexed();
            }
        }
        None
    }

    /// The first action, in the order of the list of all actions, whose
    /// assignment `event` matches, if it matches any.
    pub fn find(&self, event: &StickEvent) -> (r: Option<TargetAction>)
        ensures
            match r {
                Some(action) => self.names(action, event.id, event_kind(event.event))
                    && forall|earlier: TargetAction|
                    earlier.index_spec() < action.index_spec() ==> !self.names(
                        earlier,
                        event.id,
                        event_kind(event.event),
                    ),
                None => forall|action: TargetAction|
                    !self.names(action, event.id, event_kind(event.event)),
            },
    {
        let kind = SerializedEvent::from_event(&event.event);
        self.find_kind(event.id, &kind)
    }
}

/// The value that a controller event carries.
#[derive(Clone, Copy, Debug, PartialEq, Eq, Structural)]
pub enum EventValue {
    /// A button: pressed or released.
    Discrete(bool),
    /// An analog axis: its deflection, where a full deflection is one
    /// million.
    Analog(i32),
}

/// What is to be done on a controller event, besides taking note of the
/// relative speeds.
#[derive(Clone, Copy, Debug, PartialEq, Eq, Structural)]
pub enum ControllerCommand {
    /// Nothing.
    Nothing,
    /// The relative speed of an axis has changed: slew accordingly.
    Slew,
    /// Stop the mount and tracking.
    StopMount,
    /// Start tracking if it is not active, stop it if it is.
    ToggleTracking,
    /// Save the manual adjustment.
    SaveAdjustment,
    /// Give up the manual adjustment.
    CancelAdjustment,
    /// Make slewing faster by the usual factor.
    IncreaseSlewSpeed,
    /// Make slewing slower by the usual factor.
    DecreaseSlewSpeed,
}

/// `v` with its sign turned, where that fits; the greatest value where it
/// does not.
pub open spec fn reversed(v: i32) -> i32 {
    if v == i32::MIN {
        i32::MAX
    } else {
        (-v) as i32
    }
}

/// The relative speed that a button asks for: full speed in the direction
/// `sign` while it is pressed, none once it is released.
pub open spec fn button_speed(pressed: bool, sign: int) -> i32 {
    if pressed {
        (sign * FULL_DEFLECTION) as i32
    } else {
        0
    }
}

/// The relative speeds after `action` came with `value`. An action for an
/// analog axis heeds analog values only, with the sign turned where the
/// axis is reversed; every other action heeds buttons only.
pub open spec fn slewing_after(
    slewing: Slewing,
    action: TargetAction,
    value: EventValue,
    axis1_reversed: bool,
    axis2_reversed: bool,
) -> Slewing {
    match (action, value) {
        (TargetAction::MountAxis1, EventValue::Analog(v)) => Slewing {
            axis1_rel: if axis1_reversed {
                reversed(v)
            } else {
                v
            },
            ..slewing
        },
        (TargetAction::MountAxis2, EventValue::Analog(v)) => Slewing {
            axis2_rel: if axis2_reversed {
                reversed(v)
            } else {
                v
            },
            ..slewing
        },
        (TargetAction::MountAxis1Pos, EventValue::Discrete(p)) => Slewing {
            axis1_rel: button_speed(p, 1),
            ..slewing
        },
        (TargetAction::MountAxis1Neg, EventValue::Discrete(p)) => Slewing {
            axis1_rel: button_speed(p, -1),
            ..slewing
        },
        (TargetAction::MountAxis2Pos, EventValue::Discrete(p)) => Slewing {
            axis2_rel: button_speed(p, 1),
            ..slewing
        },
        (TargetAction::MountAxis2Neg, EventValue::Discrete(p)) => Slewing {
            axis2_rel: button_speed(p, -1),
            ..slewing
        },
        _ => slewing,
    }
}

/// What is to be done after `action` came with `value`. The actions that
/// are no slewing are done when their button is pressed, not when it is
/// released.
pub open spec fn command_for(action: TargetAction, value: EventValue) -> ControllerCommand {
    match (action, value) {
        (TargetAction::MountAxis1, EventValue::Analog(_)) => ControllerCommand::Slew,
        (TargetAction::MountAxis2, EventValue::Analog(_)) => ControllerCommand::Slew,
        (TargetAction::MountAxis1Pos, EventValue::Discrete(_)) => ControllerCommand::Slew,
        (TargetAction::MountAxis1Neg, EventValue::Discrete(_)) => ControllerCommand::Slew,
        (TargetAction::MountAxis2Pos, EventValue::Discrete(_)) => ControllerCommand::Slew,
        (TargetAction::MountAxis2Neg, EventValue::Discrete(_)) => ControllerCommand::Slew,
        (TargetAction::StopMount, EventValue::Discrete(true)) => ControllerCommand::StopMount,
        (TargetAction::ToggleTracking, EventValue::Discrete(true)) => ControllerCommand::ToggleTracking,
        (TargetAction::SaveAdjustment, EventValue::Discrete(true)) => ControllerCommand::SaveAdjustment,
        (TargetAction::CancelAdjustment, EventValue::Discrete(true)) => ControllerCommand::CancelAdjustment,
        (TargetAction::IncreaseSlewSpeed, EventValue::Discrete(true)) => ControllerCommand::IncreaseSlewSpeed,
        (TargetAction::DecreaseSlewSpeed, EventValue::Discrete(true)) => ControllerCommand::DecreaseSlewSpeed,
        _ => ControllerCommand::Nothing,
    }
}

fn reverse(v: i32) -> (r: i32)
    ensures
        r == reversed(v),
{
    if v == i32::MIN {
        i32::MAX
    } else {
        -v
    }
}

fn button(pressed: bool, positive: bool) -> (r: i32)
    ensures
        r == button_speed(
            pressed,
            if positive {
                1
            } else {
                -1
            },
        ),
{
    if !pressed {
        0
    } else if positive {
        FULL_DEFLECTION
    } else {
        -FULL_DEFLECTION
    }
}

/// Takes a controller event that is assigned to `action`: notes the
/// relative speed that it asks for, and says what is to be done.
pub fn on_controller_action(
    slewing: &mut Slewing,
    action: TargetAction,
    value: EventValue,
    axis1_reversed: bool,
    axis2_reversed: bool,
) -> (command: ControllerCommand)
    ensures
        *final(slewing) == slewing_after(*old(slewing), action, value, axis1_reversed, axis2_reversed),
        command == command_for(action, value),
{
    match (action, value) {
        (TargetAction::MountAxis1, EventValue::Analog(v)) => {
            slewing.axis1_rel = if axis1_reversed {
                reverse(v)
            } else {
                v
            };
            ControllerCommand::Slew
        },
        (TargetAction::MountAxis2, EventValue::Analog(v)) => {
            slewing.axis2_rel = if axis2_reversed {
                reverse(v)
            } else {
                v
            };
            ControllerCommand::Slew
        },
        (TargetAction::MountAxis1Pos, EventValue::Discrete(p)) => {
            slewing.axis1_rel = button(p, true);
            ControllerCommand::Slew
        },
        (TargetAction::MountAxis1Neg, EventValue::Discrete(p)) => {
            slewing.axis1_rel = button(p, false);
            ControllerCommand::Slew
        },
        (TargetAction::MountAxis2Pos, EventValue::Discrete(p)) => {
            slewing.axis2_rel = button(p, true);
            ControllerCommand::Slew
        },
        (TargetAction::MountAxis2Neg, EventValue::Discrete(p)) => {
            slewing.axis2_rel = button(p, false);
            ControllerCommand::Slew
        },
        (TargetAction::StopMount, EventValue::Discrete(true)) => ControllerCommand::StopMount,
        (TargetAction::ToggleTracking, EventValue::Discrete(true)) => ControllerCommand::ToggleTracking,
        (TargetAction::SaveAdjustment, EventValue::Discrete(true)) => ControllerCommand::SaveAdjustment,
        (TargetAction::CancelAdjustment, EventValue::Discrete(true)) => ControllerCommand::CancelAdjustment,
        (TargetAction::IncreaseSlewSpeed, EventValue::Discrete(true)) => ControllerCommand::IncreaseSlewSpeed,
        (TargetAction::DecreaseSlewSpeed, EventValue::Discrete(true)) => ControllerCommand::DecreaseSlewSpeed,
        _ => ControllerCommand::Nothing,
    }
}

} // verus!
