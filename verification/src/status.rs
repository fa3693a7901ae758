//! What the device reports about itself.

use vstd::prelude::*;
use vstd::string::*;

use crate::led::{level_to_delay_ms, mode_str, MODE_BLINK};
use crate::text::push_number;

verus! {

/// Why a status is published.
#[derive(Clone, Copy, Debug, PartialEq, Eq, Structural)]
pub enum Reason {
    /// A speed command was accepted.
    Updated,
    /// A speed command named no level that exists.
    RejectedOutOfRange,
    SwitchOn,
    SwitchOff,
    SwitchToggle,
    /// A switch command named no switch action.
    RejectedInvalidSwitch,
    /// The device is connected and has had no command yet.
    ConnectedDefault,
    /// The broker was out of reach for the whole boot window.
    OfflineFallback,
    /// The state as it is, published at regular times.
    Heartbeat,
}

impl Reason {
    /// The reason as it stands in the payload.
    pub open spec fn name(self) -> Seq<char> {
        match self {
            Reason::Updated => "updated"@,
            Reason::RejectedOutOfRange => "rejected_out_of_range"@,
            Reason::SwitchOn => "switch_on"@,
            Reason::SwitchOff => "switch_off"@,
            Reason::SwitchToggle => "switch_toggle"@,
            Reason::RejectedInvalidSwitch => "rejected_invalid_switch"@,
            Reason::ConnectedDefault => "connected_default"@,
            Reason::OfflineFallback => "offline_fallback"@,
            Reason::Heartbeat => "heartbeat"@,
        }
    }

    /// The reason as it stands in the payload.
    pub fn as_str(self) -> (text: &'static str)
        ensures
            text@ == self.name(),
    {
        match self {
            Reason::Updated => "updated",
            Reason::RejectedOutOfRange => "rejected_out_of_range",
            Reason::SwitchOn => "switch_on",
            Reason::SwitchOff => "switch_off",
            Reason::SwitchToggle => "switch_toggle",
            Reason::RejectedInvalidSwitch => "rejected_invalid_switch",
            Reason::ConnectedDefault => "connected_default",
            Reason::OfflineFallback => "offline_fallback",
            Reason::Heartbeat => "heartbeat",
        }
    }
}

/// One report of the device.
#[derive(Clone, Copy, Debug, PartialEq, Eq, Structural)]
pub struct Status {
    pub level: u32,
    pub mode: u8,
    pub reason: Reason,
}

/// The level that a status shows: none unless the LED blinks.
pub open spec fn shown_level(level: u32, mode: u8) -> Option<u32> {
    if mode == MODE_BLINK {
        Some(level)
    } else {
        None
    }
}

/// The half-period that a status shows: none unless the LED blinks at a level that has one.
pub open spec fn shown_delay(level: u32, mode: u8) -> Option<u32> {
    if mode == MODE_BLINK {
        crate::led::half_period(level)
    } else {
        None
    }
}

/// A JSON number, or `null`.
pub open spec fn json_number(n: Option<u32>) -> Seq<char> {
    match n {
        Some(n) => crate::text::decimal(n as nat),
        None => "null"@,
    }
}

/// The status payload, a JSON object with four members.
pub open spec fn payload_text(level: u32, mode: u8, reason: Seq<char>) -> Seq<char> {
    "{\"mode\":\""@ + crate::led::mode_name(mode) + "\",\"level\":"@ + json_number(
        shown_level(level, mode),
    ) + ",\"delay_ms\":"@ + json_number(shown_delay(level, mode)) + ",\"reason\":\""@ + reason
        + "\"}"@
}

/// Appends a JSON number, or `null`.
fn push_json_number(out: &mut String, n: Option<u32>)
    ensures
        final(out)@ == old(out)@ + json_number(n),
{
    match n {
        Some(n) => push_number(out, n),
        None => out.append("null"),
    }
}

/// The status payload for a level, a mode and a reason, such as
/// `{"mode":"blink","level":5,"delay_ms":578,"reason":"updated"}` or
/// `{"mode":"on","level":null,"delay_ms":null,"reason":"switch_on"}`.
pub fn status_payload(level: u32, mode: u8, reason: &str) -> (payload: String)
    ensures
        payload@ == payload_text(level, mode, reason@),
{
    let mut payload: String = String::new();
    payload.append("{\"mode\":\"");
    payload.append(mode_str(mode));
    payload.append("\",\"level\":");
    if mode == MODE_BLINK {
        push_json_number(&mut payload, Some(level));
        payload.append(",\"delay_ms\":");
        push_json_number(&mut payload, level_to_delay_ms(level));
    } else {
        push_json_number(&mut payload, None);
        payload.append(",\"delay_ms\":");
        push_json_number(&mut payload, None);
    }
    payload.append(",\"reason\":\"");
    payload.append(reason);
    payload.append("\"}");
    payload
}

impl Status {
    /// The payload of this status.
    pub open spec fn text(self) -> Seq<char> {
        payload_text(self.level, self.mode, self.reason.name())
    }

    /// The payload of this status.
    pub fn payload(&self) -> (payload: String)
        ensures
            payload@ == self.text(),
    {
        status_payload(self.level, self.mode, self.reason.as_str())
    }
}

/// A status shows neither a level nor a delay unless the LED blinks.
pub proof fn law_static_modes_show_no_level(level: u32, mode: u8, reason: Seq<char>)
    requires
        mode != MODE_BLINK,
    ensures
        payload_text(level, mode, reason) == "{\"mode\":\""@ + crate::led::mode_name(mode)
            + "\",\"level\":"@ + "null"@ + ",\"delay_ms\":"@ + "null"@ + ",\"reason\":\""@ + reason
            + "\"}"@,
{
}

/// Two texts are equal up to the first delimiter, and from there on, if they are equal as a whole.
proof fn lemma_split_at_delimiter(
    a: Seq<char>,
    a_rest: Seq<char>,
    b: Seq<char>,
    b_rest: Seq<char>,
    delimiter: char,
)
    requires
        a + a_rest == b + b_rest,
        a_rest.len() > 0 && a_rest[0] == delimiter,
        b_rest.len() > 0 && b_rest[0] == delimiter,
        forall|i: int| 0 <= i < a.len() ==> #[trigger] a[i] != delimiter,
        forall|i: int| 0 <= i < b.len() ==> #[trigger] b[i] != delimiter,
    ensures
        a == b,
        a_rest == b_rest,
{
    assert((a + a_rest)[a.len() as int] == delimiter);
    assert((b + b_rest)[b.len() as int] == delimiter);
    if a.len() < b.len() {
        assert((b + b_rest)[a.len() as int] == b[a.len() as int]);
    }
    if b.len() < a.len() {
        assert((a + a_rest)[b.len() as int] == a[b.len() as int]);
    }
    lemma_cancel_front(a, a_rest, b, b_rest);
}

/// Equal texts with fronts of equal length have equal fronts and equal rests.
proof fn lemma_cancel_front(a: Seq<char>, a_rest: Seq<char>, b: Seq<char>, b_rest: Seq<char>)
    requires
        a + a_rest == b + b_rest,
        a.len() == b.len(),
    ensures
        a == b,
        a_rest == b_rest,
{
    assert(a =~= (a + a_rest).take(a.len() as int));
    assert(b =~= (b + b_rest).take(b.len() as int));
    assert(a_rest =~= (a + a_rest).skip(a.len() as int));
    assert(b_rest =~= (b + b_rest).skip(b.len() as int));
}

/// A JSON number holds no comma and shows which number it is.
proof fn lemma_json_number(n: Option<u32>)
    ensures
        forall|i: int| 0 <= i < json_number(n).len() ==> #[trigger] json_number(n)[i] != ',',
        crate::text::number_in(json_number(n)) == n,
{
    match n {
        Some(n) => {
            crate::text::lemma_decimal_value(n as nat);
            crate::text::law_number_round_trip(n);
        },
        None => {
            reveal_strlit("null");
            assert(!crate::text::is_digit("null"@[0]));
        },
    }
}

/// The part of the payload behind the mode.
spec fn payload_tail(level: Option<u32>, delay: Option<u32>, reason: Seq<char>) -> Seq<char> {
    "\",\"level\":"@ + (json_number(level) + (",\"delay_ms\":"@ + (json_number(delay) + (
    ",\"reason\":\""@ + (reason + "\"}"@)))))
}

/// The part of the payload behind the mode shows the level, the delay and the reason.
proof fn lemma_tail_shows_all(
    level1: Option<u32>,
    delay1: Option<u32>,
    reason1: Seq<char>,
    level2: Option<u32>,
    delay2: Option<u32>,
    reason2: Seq<char>,
)
    requires
        payload_tail(level1, delay1, reason1) == payload_tail(level2, delay2, reason2),
    ensures
        level1 == level2,
        delay1 == delay2,
        reason1 == reason2,
{
    reveal_strlit(",\"delay_ms\":");
    reveal_strlit(",\"reason\":\"");
    lemma_json_number(level1);
    lemma_json_number(level2);
    lemma_json_number(delay1);
    lemma_json_number(delay2);
    let end1 = reason1 + "\"}"@;
    let end2 = reason2 + "\"}"@;
    let from_reason1 = ",\"reason\":\""@ + end1;
    let from_reason2 = ",\"reason\":\""@ + end2;
    let from_delay1 = ",\"delay_ms\":"@ + (json_number(delay1) + from_reason1);
    let from_delay2 = ",\"delay_ms\":"@ + (json_number(delay2) + from_reason2);
    lemma_cancel_front(
        "\",\"level\":"@,
        json_number(level1) + from_delay1,
        "\",\"level\":"@,
        json_number(level2) + from_delay2,
    );
    lemma_split_at_delimiter(json_number(level1), from_delay1, json_number(level2), from_delay2, ',');
    lemma_cancel_front(
        ",\"delay_ms\":"@,
        json_number(delay1) + from_reason1,
        ",\"delay_ms\":"@,
        json_number(delay2) + from_reason2,
    );
    lemma_split_at_delimiter(
        json_number(delay1),
        from_reason1,
        json_number(delay2),
        from_reason2,
        ',',
    );
    lemma_cancel_front(",\"reason\":\""@, end1, ",\"reason\":\""@, end2);
    assert(end1.len() == end2.len());
    lemma_cancel_front(reason1, "\"}"@, reason2, "\"}"@);
}

/// The name of a mode holds no quotation mark, and the three modes have three names.
proof fn lemma_mode_names(mode: u8)
    ensures
        forall|i: int|
            0 <= i < crate::led::mode_name(mode).len() ==> #[trigger] crate::led::mode_name(mode)[i]
                != '"',
        mode == crate::led::MODE_OFF <==> crate::led::mode_name(mode) == "off"@,
        mode == crate::led::MODE_ON <==> crate::led::mode_name(mode) == "on"@,
{
    reveal_strlit("off");
    reveal_strlit("on");
    reveal_strlit("blink");
    assert("off"@.len() == 3 && "on"@.len() == 2 && "blink"@.len() == 5);
}

/// The payload is the mode between its opening and the rest.
proof fn lemma_payload_parts(level: u32, mode: u8, reason: Seq<char>)
    ensures
        payload_text(level, mode, reason) == "{\"mode\":\""@ + (crate::led::mode_name(mode)
            + payload_tail(shown_level(level, mode), shown_delay(level, mode), reason)),
{
    let opening = "{\"mode\":\""@ + crate::led::mode_name(mode) + "\",\"level\":"@;
    let level_text = json_number(shown_level(level, mode));
    let delay_text = json_number(shown_delay(level, mode));
    let from_reason = ",\"reason\":\""@ + (reason + "\"}"@);
    let from_delay = ",\"delay_ms\":"@ + (delay_text + from_reason);
    let before_reason = opening + level_text + ",\"delay_ms\":"@ + delay_text;
    assert(payload_text(level, mode, reason) =~= before_reason + from_reason);
    assert(before_reason + from_reason =~= opening + level_text + from_delay);
    assert(opening + level_text + from_delay =~= opening + (level_text + from_delay));
    assert(opening + (level_text + from_delay) =~= "{\"mode\":\""@ + (crate::led::mode_name(mode) + (
    "\",\"level\":"@ + (level_text + from_delay))));
}

/// A payload tells what it was made from: equal payloads show the same mode, the same level and
/// delay, and the same reason, whatever the reason's text is.
pub proof fn law_payload_shows_all(
    level1: u32,
    mode1: u8,
    reason1: Seq<char>,
    level2: u32,
    mode2: u8,
    reason2: Seq<char>,
)
    requires
        payload_text(level1, mode1, reason1) == payload_text(level2, mode2, reason2),
    ensures
        crate::led::mode_name(mode1) == crate::led::mode_name(mode2),
        shown_level(level1, mode1) == shown_level(level2, mode2),
        shown_delay(level1, mode1) == shown_delay(level2, mode2),
        reason1 == reason2,
{
    let tail1 = payload_tail(shown_level(level1, mode1), shown_delay(level1, mode1), reason1);
    let tail2 = payload_tail(shown_level(level2, mode2), shown_delay(level2, mode2), reason2);
    let name1 = crate::led::mode_name(mode1);
    let name2 = crate::led::mode_name(mode2);
    lemma_payload_parts(level1, mode1, reason1);
    lemma_payload_parts(level2, mode2, reason2);
    lemma_cancel_front("{\"mode\":\""@, name1 + tail1, "{\"mode\":\""@, name2 + tail2);
    reveal_strlit("\",\"level\":");
    lemma_mode_names(mode1);
    lemma_mode_names(mode2);
    lemma_split_at_delimiter(name1, tail1, name2, tail2, '"');
    lemma_tail_shows_all(
        shown_level(level1, mode1),
        shown_delay(level1, mode1),
        reason1,
        shown_level(level2, mode2),
        shown_delay(level2, mode2),
        reason2,
    );
}

/// Different reasons have different names.
pub proof fn law_reasons_are_distinct(a: Reason, b: Reason)
    requires
        a.name() == b.name(),
    ensures
        a == b,
{
    reveal_strlit("updated");
    reveal_strlit("rejected_out_of_range");
    reveal_strlit("switch_on");
    reveal_strlit("switch_off");
    reveal_strlit("switch_toggle");
    reveal_strlit("rejected_invalid_switch");
    reveal_strlit("connected_default");
    reveal_strlit("offline_fallback");
    reveal_strlit("heartbeat");
    assert("updated"@.len() == 7);
    assert("rejected_out_of_range"@.len() == 21);
    assert("switch_on"@.len() == 9);
    assert("switch_off"@.len() == 10);
    assert("switch_toggle"@.len() == 13);
    assert("rejected_invalid_switch"@.len() == 23);
    assert("connected_default"@.len() == 17);
    assert("offline_fallback"@.len() == 16);
    assert("heartbeat"@.len() == 9);
    assert("switch_on"@[0] != "heartbeat"@[0]);
}

/// A reader of the status topic never has to guess: the payload of a status gives back its mode,
/// its reason and, when the LED blinks, its level.
pub proof fn law_payload_gives_back_status(a: Status, b: Status)
    requires
        a.mode <= MODE_BLINK,
        b.mode <= MODE_BLINK,
        a.text() == b.text(),
    ensures
        a.mode == b.mode,
        a.reason == b.reason,
        a.mode == MODE_BLINK ==> a.level == b.level,
{
    law_payload_shows_all(a.level, a.mode, a.reason.name(), b.level, b.mode, b.reason.name());
    law_reasons_are_distinct(a.reason, b.reason);
    lemma_mode_names(a.mode);
    lemma_mode_names(b.mode);
}

/// The payload of a blinking LED, letter by letter, at every level and for every reason: the level
/// in base ten, then its half-period in base ten, or `null` at level 0.
pub proof fn law_blink_payload_letter_by_letter(level: u32, reason: Seq<char>)
    ensures
        level > 0 ==> crate::led::half_period(level) is Some && payload_text(
            level,
            MODE_BLINK,
            reason,
        ) == "{\"mode\":\"blink\",\"level\":"@ + crate::text::decimal(level as nat)
            + ",\"delay_ms\":"@ + crate::text::decimal(crate::led::half_period(level)->0 as nat)
            + ",\"reason\":\""@ + reason + "\"}"@,
        level == 0 ==> payload_text(level, MODE_BLINK, reason)
            == "{\"mode\":\"blink\",\"level\":0,\"delay_ms\":null,\"reason\":\""@ + reason + "\"}"@,
{
    reveal_strlit("{\"mode\":\"");
    reveal_strlit("blink");
    reveal_strlit("\",\"level\":");
    reveal_strlit("{\"mode\":\"blink\",\"level\":");
    assert("{\"mode\":\""@ + "blink"@ + "\",\"level\":"@ =~= "{\"mode\":\"blink\",\"level\":"@);
    if level == 0 {
        reveal_strlit("null");
        reveal_strlit(",\"delay_ms\":");
        reveal_strlit(",\"reason\":\"");
        reveal_strlit("{\"mode\":\"blink\",\"level\":0,\"delay_ms\":null,\"reason\":\"");
        assert(crate::text::decimal(0) =~= seq!['0']);
        assert("{\"mode\":\"blink\",\"level\":"@ + crate::text::decimal(0) + ",\"delay_ms\":"@ + "null"@
            + ",\"reason\":\""@
            =~= "{\"mode\":\"blink\",\"level\":0,\"delay_ms\":null,\"reason\":\""@);
    }
}

/// The payload of a LED that does not blink, letter by letter, at every level and for every
/// reason: the level never shows.
pub proof fn law_static_payload_letter_by_letter(level: u32, mode: u8, reason: Seq<char>)
    ensures
        mode == crate::led::MODE_OFF ==> payload_text(level, mode, reason)
            == "{\"mode\":\"off\",\"level\":null,\"delay_ms\":null,\"reason\":\""@ + reason + "\"}"@,
        mode == crate::led::MODE_ON ==> payload_text(level, mode, reason)
            == "{\"mode\":\"on\",\"level\":null,\"delay_ms\":null,\"reason\":\""@ + reason + "\"}"@,
        mode > MODE_BLINK ==> payload_text(level, mode, reason)
            == "{\"mode\":\"blink\",\"level\":null,\"delay_ms\":null,\"reason\":\""@ + reason + "\"}"@,
{
    reveal_strlit("{\"mode\":\"");
    reveal_strlit("off");
    reveal_strlit("on");
    reveal_strlit("blink");
    reveal_strlit("\",\"level\":");
    reveal_strlit("null");
    reveal_strlit(",\"delay_ms\":");
    reveal_strlit(",\"reason\":\"");
    if mode == crate::led::MODE_OFF {
        reveal_strlit("{\"mode\":\"off\",\"level\":null,\"delay_ms\":null,\"reason\":\"");
        assert("{\"mode\":\""@ + "off"@ + "\",\"level\":"@ + "null"@ + ",\"delay_ms\":"@ + "null"@
            + ",\"reason\":\""@
            =~= "{\"mode\":\"off\",\"level\":null,\"delay_ms\":null,\"reason\":\""@);
    } else if mode == crate::led::MODE_ON {
        reveal_strlit("{\"mode\":\"on\",\"level\":null,\"delay_ms\":null,\"reason\":\"");
        assert("{\"mode\":\""@ + "on"@ + "\",\"level\":"@ + "null"@ + ",\"delay_ms\":"@ + "null"@
            + ",\"reason\":\""@
            =~= "{\"mode\":\"on\",\"level\":null,\"delay_ms\":null,\"reason\":\""@);
    } else {
        reveal_strlit("{\"mode\":\"blink\",\"level\":null,\"delay_ms\":null,\"reason\":\"");
        assert("{\"mode\":\""@ + "blink"@ + "\",\"level\":"@ + "null"@ + ",\"delay_ms\":"@ + "null"@
            + ",\"reason\":\""@
            =~= "{\"mode\":\"blink\",\"level\":null,\"delay_ms\":null,\"reason\":\""@);
    }
}

/// The word that every reason has in the payload.
pub proof fn law_reason_words(reason: Reason)
    ensures
        reason is Updated ==> reason.name() == "updated"@,
        reason is RejectedOutOfRange ==> reason.name() == "rejected_out_of_range"@,
        reason is SwitchOn ==> reason.name() == "switch_on"@,
        reason is SwitchOff ==> reason.name() == "switch_off"@,
        reason is SwitchToggle ==> reason.name() == "switch_toggle"@,
        reason is RejectedInvalidSwitch ==> reason.name() == "rejected_invalid_switch"@,
        reason is ConnectedDefault ==> reason.name() == "connected_default"@,
        reason is OfflineFallback ==> reason.name() == "offline_fallback"@,
        reason is Heartbeat ==> reason.name() == "heartbeat"@,
{
}

/// The payload of a status is that of its level, its mode and the word of its reason.
pub proof fn law_status_payload_is_of_its_fields(status: Status)
    ensures
        status.text() == payload_text(status.level, status.mode, status.reason.name()),
{
}

/// A level and a delay show exactly while the LED blinks, the delay only at a level that has one.
pub proof fn law_what_a_status_shows(level: u32, mode: u8)
    ensures
        mode == MODE_BLINK ==> shown_level(level, mode) == Some(level),
        mode == MODE_BLINK ==> shown_delay(level, mode) == crate::led::half_period(level),
        mode != MODE_BLINK ==> shown_level(level, mode) is None,
        mode != MODE_BLINK ==> shown_delay(level, mode) is None,
{
}

} // verus!
