//! The state of the device and what changes it.

use vstd::prelude::*;

use crate::led::{display_frame, Frame, MAX_LEVEL, MODE_BLINK, MODE_OFF, MODE_ON};
use crate::message::{Message, SwitchAction};
use crate::status::{Reason, Status};

verus! {

/// The level a device starts with; it shows only once the LED blinks.
pub const INITIAL_LEVEL: u32 = 5;

/// How long after the WiFi connection a device without subscriptions falls back.
pub const OFFLINE_FALLBACK_SECS: u64 = 10;

/// How often the state is published as it is.
pub const HEARTBEAT_SECS: u64 = 30;

/// The state of the device.
#[derive(Clone, Copy, Debug, PartialEq, Eq, Structural)]
pub struct Device {
    /// The blink speed; it means something only in `MODE_BLINK`.
    pub level: u32,
    /// One of `MODE_OFF`, `MODE_ON` and `MODE_BLINK`.
    pub mode: u8,
    /// Whether any command, rejected ones among them, has arrived.
    pub got_real_command: bool,
    /// Whether both command topics are subscribed.
    pub subscribed: bool,
}

/// What can happen to a device.
pub enum Event {
    /// A message arrives.
    Received(Message),
    /// The last of the two subscriptions succeeds.
    Connected,
    /// The boot window ends.
    WindowEnds,
}

/// Whether a message is a command, accepted or rejected: everything on the two command topics.
pub open spec fn is_command(message: Message) -> bool {
    !(message is UnexpectedTopic)
}

impl Device {
    /// The level exists and the mode is one of the three.
    pub open spec fn valid(self) -> bool {
        &&& self.level <= MAX_LEVEL
        &&& self.mode == MODE_OFF || self.mode == MODE_ON || self.mode == MODE_BLINK
    }

    /// A device that was just switched on: dark, not connected, no command yet.
    pub open spec fn initial() -> Device {
        Device {
            level: INITIAL_LEVEL,
            mode: MODE_OFF,
            got_real_command: false,
            subscribed: false,
        }
    }

    /// The mode after a switch action. Toggling counts blinking as being on.
    pub open spec fn switched_mode(self, action: SwitchAction) -> u8 {
        match action {
            SwitchAction::On => MODE_ON,
            SwitchAction::Off => MODE_OFF,
            SwitchAction::Toggle => if self.mode == MODE_OFF {
                MODE_ON
            } else {
                MODE_OFF
            },
        }
    }

    /// The device after a message.
    pub open spec fn after_message(self, message: Message) -> Device {
        match message {
            Message::Speed(level) => if level <= MAX_LEVEL {
                Device { level: level, mode: MODE_BLINK, got_real_command: true, ..self }
            } else {
                Device { got_real_command: true, ..self }
            },
            Message::Switch(action) => Device {
                mode: self.switched_mode(action),
                got_real_command: true,
                ..self
            },
            Message::InvalidSpeed | Message::InvalidSwitch => Device {
                got_real_command: true,
                ..self
            },
            Message::UnexpectedTopic => self,
        }
    }

    /// What is reported on a message: the state after it, but for a number that is no level,
    /// which is reported as it came.
    pub open spec fn report_on_message(self, message: Message) -> Option<Status> {
        let mode = self.after_message(message).mode;
        match message {
            Message::Speed(level) => Some(
                Status {
                    level: level,
                    mode: mode,
                    reason: if level <= MAX_LEVEL {
                        Reason::Updated
                    } else {
                        Reason::RejectedOutOfRange
                    },
                },
            ),
            Message::Switch(action) => Some(
                Status {
                    level: self.level,
                    mode: mode,
                    reason: match action {
                        SwitchAction::On => Reason::SwitchOn,
                        SwitchAction::Off => Reason::SwitchOff,
                        SwitchAction::Toggle => Reason::SwitchToggle,
                    },
                },
            ),
            Message::InvalidSpeed => Some(
                Status { level: self.level, mode: mode, reason: Reason::RejectedOutOfRange },
            ),
            Message::InvalidSwitch => Some(
                Status { level: self.level, mode: mode, reason: Reason::RejectedInvalidSwitch },
            ),
            Message::UnexpectedTopic => None,
        }
    }

    /// The device once both topics are subscribed: lit, unless a command came before.
    pub open spec fn after_connect(self) -> Device {
        Device {
            mode: if self.got_real_command {
                self.mode
            } else {
                MODE_ON
            },
            subscribed: true,
            ..self
        }
    }

    /// What is reported once both topics are subscribed.
    pub open spec fn report_on_connect(self) -> Option<Status> {
        if self.got_real_command {
            None
        } else {
            Some(Status { level: self.level, mode: MODE_ON, reason: Reason::ConnectedDefault })
        }
    }

    /// The device at the end of the boot window: blinking at full speed, unless it is subscribed.
    pub open spec fn after_window(self) -> Device {
        if self.subscribed {
            self
        } else {
            Device { level: MAX_LEVEL, mode: MODE_BLINK, ..self }
        }
    }

    /// What is reported at the end of the boot window.
    pub open spec fn report_on_window(self) -> Option<Status> {
        if self.subscribed {
            None
        } else {
            Some(Status { level: MAX_LEVEL, mode: MODE_BLINK, reason: Reason::OfflineFallback })
        }
    }

    /// The device after an event.
    pub open spec fn after(self, event: Event) -> Device {
        match event {
            Event::Received(message) => self.after_message(message),
            Event::Connected => self.after_connect(),
            Event::WindowEnds => self.after_window(),
        }
    }

    /// What is reported on an event.
    pub open spec fn report_on(self, event: Event) -> Option<Status> {
        match event {
            Event::Received(message) => self.report_on_message(message),
            Event::Connected => self.report_on_connect(),
            Event::WindowEnds => self.report_on_window(),
        }
    }

    /// The device after some events in turn.
    pub open spec fn run(self, events: Seq<Event>) -> Device
        decreases events.len(),
    {
        if events.len() == 0 {
            self
        } else {
            self.run(events.drop_last()).after(events.last())
        }
    }

    /// A device that was just switched on.
    pub fn new() -> (device: Device)
        ensures
            device == Device::initial(),
            device.valid(),
    {
        Device { level: INITIAL_LEVEL, mode: MODE_OFF, got_real_command: false, subscribed: false }
    }

    /// Obeys a message and returns what to report on it.
    pub fn receive(&mut self, message: Message) -> (report: Option<Status>)
        ensures
            *final(self) == old(self).after_message(message),
            report == old(self).report_on_message(message),
            old(self).valid() ==> final(self).valid(),
    {
        match message {
            Message::Speed(level) => {
                self.got_real_command = true;
                if level <= MAX_LEVEL {
                    self.level = level;
                    self.mode = MODE_BLINK;
                    Some(Status { level: level, mode: MODE_BLINK, reason: Reason::Updated })
                } else {
                    Some(Status { level: level, mode: self.mode, reason: Reason::RejectedOutOfRange })
                }
            },
            Message::Switch(action) => {
                let (mode, reason): (u8, Reason) = match action {
                    SwitchAction::On => (MODE_ON, Reason::SwitchOn),
                    SwitchAction::Off => (MODE_OFF, Reason::SwitchOff),
                    SwitchAction::Toggle => {
                        let next: u8 = if self.mode == MODE_OFF { MODE_ON } else { MODE_OFF };
                        (next, Reason::SwitchToggle)
                    },
                };
                self.got_real_command = true;
                self.mode = mode;
                Some(Status { level: self.level, mode: mode, reason: reason })
            },
            Message::InvalidSpeed => {
                self.got_real_command = true;
                Some(
                    Status {
                        level: self.level,
                        mode: self.mode,
                        reason: Reason::RejectedOutOfRange,
                    },
                )
            },
            Message::InvalidSwitch => {
                self.got_real_command = true;
                Some(
                    Status {
                        level: self.level,
                        mode: self.mode,
                        reason: Reason::RejectedInvalidSwitch,
                    },
                )
            },
            Message::UnexpectedTopic => None,
        }
    }

    /// Notes that both topics are subscribed. Lights the LED if no command has come yet, also
    /// when the boot window had ended before, and returns what to report.
    pub fn connected(&mut self) -> (report: Option<Status>)
        ensures
            *final(self) == old(self).after_connect(),
            report == old(self).report_on_connect(),
            old(self).valid() ==> final(self).valid(),
    {
        self.subscribed = true;
        if !self.got_real_command {
            self.mode = MODE_ON;
            Some(Status { level: self.level, mode: MODE_ON, reason: Reason::ConnectedDefault })
        } else {
            None
        }
    }

    /// Ends the boot window: a device that is not subscribed blinks at full speed. Returns what
    /// to report.
    pub fn window_ends(&mut self) -> (report: Option<Status>)
        ensures
            *final(self) == old(self).after_window(),
            report == old(self).report_on_window(),
            old(self).valid() ==> final(self).valid(),
    {
        if !self.subscribed {
            self.level = MAX_LEVEL;
            self.mode = MODE_BLINK;
            Some(Status { level: MAX_LEVEL, mode: MODE_BLINK, reason: Reason::OfflineFallback })
        } else {
            None
        }
    }

    /// The state as it is, for the heartbeat.
    pub fn heartbeat(&self) -> (report: Status)
        ensures
            report == (Status { level: self.level, mode: self.mode, reason: Reason::Heartbeat }),
    {
        Status { level: self.level, mode: self.mode, reason: Reason::Heartbeat }
    }

    /// What the LED shows next.
    pub fn frame(&self) -> (frame: Frame)
        ensures
            frame@ == crate::led::phases(self.mode, self.level),
    {
        display_frame(self.mode, self.level)
    }
}

/// Some events followed by one more.
proof fn lemma_run_push(device: Device, events: Seq<Event>, event: Event)
    ensures
        device.run(events.push(event)) == device.run(events).after(event),
{
    assert(events.push(event).drop_last() =~= events);
}

/// Some events followed by others.
proof fn lemma_run_concat(device: Device, first: Seq<Event>, second: Seq<Event>)
    ensures
        device.run(first + second) == device.run(first).run(second),
    decreases second.len(),
{
    if second.len() == 0 {
        assert(first + second =~= first);
    } else {
        assert((first + second).drop_last() =~= first + second.drop_last());
        assert((first + second).last() == second.last());
        lemma_run_concat(device, first, second.drop_last());
    }
}

/// Whatever happens, the level exists and the mode is one of the three.
pub proof fn law_state_stays_valid(device: Device, events: Seq<Event>)
    requires
        device.valid(),
    ensures
        device.run(events).valid(),
    decreases events.len(),
{
    if events.len() > 0 {
        law_state_stays_valid(device, events.drop_last());
    }
}

/// A command or a subscription, once seen, is never forgotten.
pub proof fn law_flags_never_fall(device: Device, events: Seq<Event>)
    ensures
        device.got_real_command ==> device.run(events).got_real_command,
        device.subscribed ==> device.run(events).subscribed,
    decreases events.len(),
{
    if events.len() > 0 {
        law_flags_never_fall(device, events.drop_last());
    }
}

/// Once the device is subscribed, the end of the boot window changes and reports nothing, however
/// late it comes and whatever happened before and in between.
pub proof fn law_no_fallback_once_connected(device: Device, before: Seq<Event>, between: Seq<Event>)
    ensures
        ({
            let connected = device.run(before.push(Event::Connected) + between);
            &&& connected.after(Event::WindowEnds) == connected
            &&& connected.report_on(Event::WindowEnds) is None
        }),
{
    lemma_run_push(device, before, Event::Connected);
    lemma_run_concat(device, before.push(Event::Connected), between);
    law_flags_never_fall(device.run(before.push(Event::Connected)), between);
}

/// Once a command has come, connecting changes neither mode nor level and reports nothing: a
/// command always wins over the connect-time default.
pub proof fn law_command_wins_over_connect(
    device: Device,
    before: Seq<Event>,
    command: Message,
    between: Seq<Event>,
)
    requires
        !(command is UnexpectedTopic),
    ensures
        ({
            let commanded = device.run(before.push(Event::Received(command)) + between);
            &&& commanded.after(Event::Connected).mode == commanded.mode
            &&& commanded.after(Event::Connected).level == commanded.level
            &&& commanded.report_on(Event::Connected) is None
        }),
{
    lemma_run_push(device, before, Event::Received(command));
    lemma_run_concat(device, before.push(Event::Received(command)), between);
    law_flags_never_fall(device.run(before.push(Event::Received(command))), between);
}

/// Whether no event is a command.
pub open spec fn without_commands(events: Seq<Event>) -> bool {
    forall|i: int|
        0 <= i < events.len() ==> !(#[trigger] events[i] matches Event::Received(m) && is_command(m))
}

/// Only a command counts as one.
proof fn lemma_no_command_noted(device: Device, events: Seq<Event>)
    requires
        !device.got_real_command,
        without_commands(events),
    ensures
        !device.run(events).got_real_command,
    decreases events.len(),
{
    if events.len() > 0 {
        assert(without_commands(events.drop_last())) by {
            assert forall|i: int| 0 <= i < events.len() - 1 implies !(
            #[trigger] events.drop_last()[i] matches Event::Received(m) && is_command(m)) by {
                assert(events.drop_last()[i] == events[i]);
            }
        }
        lemma_no_command_noted(device, events.drop_last());
        assert(events.last() == events[events.len() - 1]);
    }
}

/// A device without a command is lit when it connects, keeps its level and reports so, even after
/// the boot window has ended.
pub proof fn law_idle_device_lights_on_connect(events: Seq<Event>)
    requires
        forall|i: int|
            0 <= i < events.len() ==> (#[trigger] events[i] matches Event::Received(message)
                ==> message is UnexpectedTopic),
    ensures
        ({
            let idle = Device::initial().run(events);
            &&& idle.after(Event::Connected).mode == MODE_ON
            &&& idle.after(Event::Connected).level == idle.level
            &&& idle.report_on(Event::Connected) == Some(
                Status { level: idle.level, mode: MODE_ON, reason: Reason::ConnectedDefault },
            )
        }),
{
    lemma_no_command_noted(Device::initial(), events);
}

/// Whether no event is a completed subscription.
pub open spec fn without_connect(events: Seq<Event>) -> bool {
    forall|i: int| 0 <= i < events.len() ==> !(#[trigger] events[i] is Connected)
}

/// A device that has not connected by the end of the boot window blinks at full speed and reports
/// so.
pub proof fn law_unconnected_device_falls_back(events: Seq<Event>)
    requires
        forall|i: int| 0 <= i < events.len() ==> !(#[trigger] events[i] is Connected),
    ensures
        ({
            let offline = Device::initial().run(events);
            &&& offline.after(Event::WindowEnds).mode == MODE_BLINK
            &&& offline.after(Event::WindowEnds).level == MAX_LEVEL
            &&& offline.report_on(Event::WindowEnds) == Some(
                Status { level: MAX_LEVEL, mode: MODE_BLINK, reason: Reason::OfflineFallback },
            )
        }),
{
    lemma_no_connect_noted(events);
}

/// Only a completed subscription counts as one.
proof fn lemma_no_connect_noted(events: Seq<Event>)
    requires
        without_connect(events),
    ensures
        !Device::initial().run(events).subscribed,
    decreases events.len(),
{
    if events.len() > 0 {
        assert(without_connect(events.drop_last())) by {
            assert forall|i: int| 0 <= i < events.len() - 1 implies !(
            #[trigger] events.drop_last()[i] is Connected) by {
                assert(events.drop_last()[i] == events[i]);
            }
        }
        lemma_no_connect_noted(events.drop_last());
        assert(events.last() == events[events.len() - 1]);
    }
}

/// The boot-time defaults take nothing from a device that has had a command, but for the end of
/// the boot window on a device that is not subscribed.
pub proof fn law_boot_defaults_respect_commands(device: Device, event: Event)
    requires
        device.got_real_command,
        event is Connected || event is WindowEnds,
        event is WindowEnds ==> device.subscribed,
    ensures
        device.after(event).mode == device.mode,
        device.after(event).level == device.level,
        device.report_on(event) is None,
{
}

/// The two boot-time signals look different: a steady light when connected, a blink at full speed
/// when not.
pub proof fn law_boot_signals_look_different(device: Device)
    requires
        !device.got_real_command,
        !device.subscribed,
    ensures
        ({
            let lit = device.after(Event::Connected);
            let offline = device.after(Event::WindowEnds);
            &&& crate::led::phases(lit.mode, lit.level) == crate::led::held(true)
            &&& crate::led::phases(offline.mode, offline.level) == seq![
                crate::led::Phase { high: true, ms: crate::led::MIN_DELAY_MS },
                crate::led::Phase { high: false, ms: crate::led::MIN_DELAY_MS },
            ]
        }),
{
}

/// A level in range sets the level and starts the blink, whatever the state was.
pub proof fn law_speed_command_sets_all(device: Device, level: u32)
    requires
        level <= MAX_LEVEL,
    ensures
        ({
            let blinking = device.after(Event::Received(Message::Speed(level)));
            &&& blinking.level == level
            &&& blinking.mode == MODE_BLINK
        }),
{
}

/// A switch action never leads to blinking and never touches the level.
pub proof fn law_switch_bypasses_the_blink(device: Device, action: SwitchAction)
    ensures
        ({
            let switched = device.after(Event::Received(Message::Switch(action)));
            &&& switched.mode == MODE_ON || switched.mode == MODE_OFF
            &&& switched.level == device.level
        }),
{
}

/// Toggling after any accepted speed command turns the LED off, and toggling again turns it on
/// without blinking.
pub proof fn law_toggle_after_blink(device: Device, level: u32)
    requires
        level <= MAX_LEVEL,
    ensures
        ({
            let toggle = Event::Received(Message::Switch(SwitchAction::Toggle));
            let blinking = device.after(Event::Received(Message::Speed(level)));
            &&& blinking.after(toggle).mode == MODE_OFF
            &&& blinking.after(toggle).after(toggle).mode == MODE_ON
        }),
{
}

/// Toggling flips between on and off.
pub proof fn law_toggle_flips(device: Device)
    ensures
        ({
            let toggle = Event::Received(Message::Switch(SwitchAction::Toggle));
            &&& device.mode == MODE_OFF ==> device.after(toggle).mode == MODE_ON
            &&& device.mode == MODE_ON ==> device.after(toggle).mode == MODE_OFF
            &&& device.mode == MODE_OFF || device.mode == MODE_ON ==> device.after(toggle).after(
                toggle,
            ).mode == device.mode
        }),
{
}

/// Whether an event makes `device` blink: an accepted speed command, or the end of the boot
/// window without subscriptions.
pub open spec fn starts_blink(device: Device, event: Event) -> bool {
    match event {
        Event::Received(Message::Speed(level)) => level <= MAX_LEVEL,
        Event::WindowEnds => !device.subscribed,
        _ => false,
    }
}

/// A device that does not blink stays so until an event that starts the blink: after a switch
/// action nothing resumes it.
pub proof fn law_blink_is_never_resumed(device: Device, events: Seq<Event>)
    requires
        device.mode != MODE_BLINK,
        forall|i: int|
            #![trigger events[i]]
            0 <= i < events.len() ==> !starts_blink(device.run(events.take(i)), events[i]),
    ensures
        device.run(events).mode != MODE_BLINK,
    decreases events.len(),
{
    if events.len() > 0 {
        let shorter = events.drop_last();
        assert forall|i: int| #![trigger shorter[i]] 0 <= i < shorter.len() implies !starts_blink(
            device.run(shorter.take(i)),
            shorter[i],
        ) by {
            assert(shorter[i] == events[i]);
            assert(shorter.take(i) =~= events.take(i));
        }
        law_blink_is_never_resumed(device, shorter);
        assert(events.take(events.len() - 1) =~= shorter);
        assert(!starts_blink(device.run(shorter), events[events.len() - 1]));
    }
}

/// A rejected command changes neither mode nor level, and is reported with its reason.
pub proof fn law_rejections_are_reported(device: Device, level: u32)
    requires
        level > MAX_LEVEL,
    ensures
        ({
            let rejected = device.after(Event::Received(Message::Speed(level)));
            &&& rejected.mode == device.mode
            &&& rejected.level == device.level
            &&& device.report_on(Event::Received(Message::Speed(level))) == Some(
                Status { level: level, mode: device.mode, reason: Reason::RejectedOutOfRange },
            )
        }),
        ({
            let rejected = device.after(Event::Received(Message::InvalidSpeed));
            &&& rejected.mode == device.mode
            &&& rejected.level == device.level
            &&& device.report_on(Event::Received(Message::InvalidSpeed)) == Some(
                Status {
                    level: device.level,
                    mode: device.mode,
                    reason: Reason::RejectedOutOfRange,
                },
            )
        }),
        ({
            let rejected = device.after(Event::Received(Message::InvalidSwitch));
            &&& rejected.mode == device.mode
            &&& rejected.level == device.level
            &&& device.report_on(Event::Received(Message::InvalidSwitch)) == Some(
                Status {
                    level: device.level,
                    mode: device.mode,
                    reason: Reason::RejectedInvalidSwitch,
                },
            )
        }),
{
}

/// Every command, accepted or rejected, is reported and noted; any other message is neither, and
/// changes nothing.
pub proof fn law_commands_are_reported(device: Device, message: Message)
    ensures
        is_command(message) ==> device.report_on(Event::Received(message)) is Some,
        is_command(message) ==> device.after(Event::Received(message)).got_real_command,
        !is_command(message) ==> device.report_on(Event::Received(message)) is None,
        !is_command(message) ==> device.after(Event::Received(message)) == device,
{
}

/// No change of mode or level goes unreported.
pub proof fn law_changes_are_reported(device: Device, event: Event)
    ensures
        device.after(event).mode != device.mode || device.after(event).level != device.level
            ==> device.report_on(event) is Some,
{
}

/// A report shows the state that holds after the event; only a number that is no level is shown
/// in place of the level that stays.
pub proof fn law_reports_show_the_state(device: Device, event: Event)
    requires
        device.report_on(event) is Some,
    ensures
        device.report_on(event)->0.mode == device.after(event).mode,
        !(event matches Event::Received(Message::Speed(level)) && level > MAX_LEVEL)
            ==> device.report_on(event)->0.level == device.after(event).level,
{
}

/// A level from 0 to `MAX_LEVEL`, published in base ten on the speed topic, sets the blink to that
/// level and is answered with the mode, the level and its delay.
pub proof fn law_published_level_blinks(
    device: Device,
    topic_speed: Seq<char>,
    topic_switch: Seq<char>,
    level: u32,
)
    requires
        level <= MAX_LEVEL,
    ensures
        ({
            let data = vstd::utf8::encode_utf8(crate::text::decimal(level as nat));
            let event = Event::Received(
                crate::message::message_on(topic_speed, topic_switch, Some(topic_speed), data),
            );
            &&& device.after(event).mode == MODE_BLINK
            &&& device.after(event).level == level
            &&& device.report_on(event) is Some
            &&& device.report_on(event)->0.text() == "{\"mode\":\""@ + "blink"@ + "\",\"level\":"@
                + crate::text::decimal(level as nat) + ",\"delay_ms\":"@
                + crate::status::json_number(crate::led::half_period(level)) + ",\"reason\":\""@
                + "updated"@ + "\"}"@
        }),
{
    let word = crate::text::decimal(level as nat);
    let none = Seq::<char>::empty();
    crate::message::law_written_level_is_understood(none, level, none);
    assert(none + word + none =~= word);
}

/// The words `on`, `off` and `toggle`, published on a switch topic of its own, set the mode and
/// are answered with it.
pub proof fn law_published_words_switch(
    device: Device,
    topic_speed: Seq<char>,
    topic_switch: Seq<char>,
)
    requires
        topic_speed != topic_switch,
    ensures
        ({
            let on = crate::message::message_on(
                topic_speed,
                topic_switch,
                Some(topic_switch),
                vstd::utf8::encode_utf8("on"@),
            );
            let off = crate::message::message_on(
                topic_speed,
                topic_switch,
                Some(topic_switch),
                vstd::utf8::encode_utf8("off"@),
            );
            let toggle = crate::message::message_on(
                topic_speed,
                topic_switch,
                Some(topic_switch),
                vstd::utf8::encode_utf8("toggle"@),
            );
            let toggled = if device.mode == MODE_OFF {
                MODE_ON
            } else {
                MODE_OFF
            };
            &&& device.after(Event::Received(on)).mode == MODE_ON
            &&& device.after(Event::Received(off)).mode == MODE_OFF
            &&& device.after(Event::Received(toggle)).mode == toggled
            &&& device.report_on(Event::Received(on)) is Some
            &&& device.report_on(Event::Received(on))->0.text() == crate::status::payload_text(
                device.level,
                MODE_ON,
                "switch_on"@,
            )
            &&& device.report_on(Event::Received(off)) is Some
            &&& device.report_on(Event::Received(off))->0.text() == crate::status::payload_text(
                device.level,
                MODE_OFF,
                "switch_off"@,
            )
            &&& device.report_on(Event::Received(toggle)) is Some
            &&& device.report_on(Event::Received(toggle))->0.text() == crate::status::payload_text(
                device.level,
                toggled,
                "switch_toggle"@,
            )
        }),
{
    let none = Seq::<char>::empty();
    crate::message::law_switch_words_are_understood(none, none);
    assert(none + "on"@ + none =~= "on"@);
    assert(none + "off"@ + none =~= "off"@);
    assert(none + "toggle"@ + none =~= "toggle"@);
}

/// Anything else on a switch topic of its own, text or not, leaves mode and level alone, counts as
/// a command and is answered with a rejection.
pub proof fn law_other_words_are_rejected(
    device: Device,
    topic_speed: Seq<char>,
    topic_switch: Seq<char>,
    data: Seq<u8>,
)
    requires
        topic_speed != topic_switch,
        crate::message::payload_action(data) is None,
    ensures
        ({
            let event = Event::Received(
                crate::message::message_on(topic_speed, topic_switch, Some(topic_switch), data),
            );
            &&& device.after(event) == Device { got_real_command: true, ..device }
            &&& device.report_on(event) is Some
            &&& device.report_on(event)->0.text() == crate::status::payload_text(
                device.level,
                device.mode,
                "rejected_invalid_switch"@,
            )
        }),
{
}

/// Anything on the speed topic but a level from 0 to `MAX_LEVEL`, text or not, leaves mode and
/// level alone, counts as a command and is answered with a rejection, which shows the number that
/// came, if one came.
pub proof fn law_other_speeds_are_rejected(
    device: Device,
    topic_speed: Seq<char>,
    topic_switch: Seq<char>,
    data: Seq<u8>,
)
    requires
        crate::message::payload_number(data) matches Some(level) ==> level > MAX_LEVEL,
    ensures
        ({
            let event = Event::Received(
                crate::message::message_on(topic_speed, topic_switch, Some(topic_speed), data),
            );
            let shown = match crate::message::payload_number(data) {
                Some(level) => level,
                None => device.level,
            };
            &&& device.after(event) == Device { got_real_command: true, ..device }
            &&& device.report_on(event) is Some
            &&& device.report_on(event)->0.text() == crate::status::payload_text(
                shown,
                device.mode,
                "rejected_out_of_range"@,
            )
        }),
{
}

/// A message on neither command topic changes and reports nothing, whatever it holds.
pub proof fn law_other_topics_are_ignored(
    device: Device,
    topic_speed: Seq<char>,
    topic_switch: Seq<char>,
    topic: Option<Seq<char>>,
    data: Seq<u8>,
)
    requires
        topic != Some(topic_speed),
        topic != Some(topic_switch),
    ensures
        ({
            let event = Event::Received(
                crate::message::message_on(topic_speed, topic_switch, topic, data),
            );
            device.after(event) == device && device.report_on(event) is None
        }),
{
}

/// A device that was just switched on is dark, has the level 5 in store, has had no command and is
/// not subscribed.
pub proof fn law_device_starts_dark()
    ensures
        Device::initial() == (Device {
            level: 5,
            mode: MODE_OFF,
            got_real_command: false,
            subscribed: false,
        }),
{
}

/// A state is valid exactly if its level exists and its mode is one of the three.
pub proof fn law_valid_states(device: Device)
    ensures
        device.valid() <==> device.level <= MAX_LEVEL && (device.mode == MODE_OFF || device.mode
            == MODE_ON || device.mode == MODE_BLINK),
{
}

/// Everything on the command topics is a command.
pub proof fn law_commands_come_on_the_command_topics(message: Message)
    ensures
        is_command(message) <==> !(message is UnexpectedTopic),
{
}

/// An event does to the device what its operation does, and is reported as its operation is.
pub proof fn law_events_are_operations(device: Device, message: Message)
    ensures
        device.after(Event::Received(message)) == device.after_message(message),
        device.report_on(Event::Received(message)) == device.report_on_message(message),
        device.after(Event::Connected) == device.after_connect(),
        device.report_on(Event::Connected) == device.report_on_connect(),
        device.after(Event::WindowEnds) == device.after_window(),
        device.report_on(Event::WindowEnds) == device.report_on_window(),
{
}

/// Events happen one after the other.
pub proof fn law_events_happen_in_turn(device: Device, events: Seq<Event>, event: Event)
    ensures
        device.run(Seq::<Event>::empty()) == device,
        device.run(events.push(event)) == device.run(events).after(event),
{
    lemma_run_push(device, events, event);
}

/// A speed command with a level that exists replaces level and mode, is noted, leaves the
/// subscriptions alone, and is reported as an update with that level.
pub proof fn law_speed_command_in_full(device: Device, level: u32)
    requires
        level <= MAX_LEVEL,
    ensures
        device.after_message(Message::Speed(level)) == (Device {
            level: level,
            mode: MODE_BLINK,
            got_real_command: true,
            subscribed: device.subscribed,
        }),
        device.report_on_message(Message::Speed(level)) == Some(
            Status { level: level, mode: MODE_BLINK, reason: Reason::Updated },
        ),
{
}

/// A switch command replaces the mode alone, is noted, and is reported with the mode that it set
/// and the reason of its action.
pub proof fn law_switch_command_in_full(device: Device)
    ensures
        ({
            let on = Message::Switch(SwitchAction::On);
            let off = Message::Switch(SwitchAction::Off);
            let toggle = Message::Switch(SwitchAction::Toggle);
            let dark = device.mode == MODE_OFF;
            let toggled = if dark {
                MODE_ON
            } else {
                MODE_OFF
            };
            &&& device.after_message(on) == (Device {
                level: device.level,
                mode: MODE_ON,
                got_real_command: true,
                subscribed: device.subscribed,
            })
            &&& device.report_on_message(on) == Some(
                Status { level: device.level, mode: MODE_ON, reason: Reason::SwitchOn },
            )
            &&& device.after_message(off) == (Device {
                level: device.level,
                mode: MODE_OFF,
                got_real_command: true,
                subscribed: device.subscribed,
            })
            &&& device.report_on_message(off) == Some(
                Status { level: device.level, mode: MODE_OFF, reason: Reason::SwitchOff },
            )
            &&& device.after_message(toggle) == (Device {
                level: device.level,
                mode: toggled,
                got_real_command: true,
                subscribed: device.subscribed,
            })
            &&& device.report_on_message(toggle) == Some(
                Status { level: device.level, mode: toggled, reason: Reason::SwitchToggle },
            )
        }),
{
}

/// Rejected commands and messages on other topics, in full: the first are noted and reported, and
/// nothing else of the device changes; the second leave no trace.
pub proof fn law_refused_messages_in_full(device: Device, level: u32)
    requires
        level > MAX_LEVEL,
    ensures
        ({
            let noted = Device {
                level: device.level,
                mode: device.mode,
                got_real_command: true,
                subscribed: device.subscribed,
            };
            &&& device.after_message(Message::Speed(level)) == noted
            &&& device.report_on_message(Message::Speed(level)) == Some(
                Status { level: level, mode: device.mode, reason: Reason::RejectedOutOfRange },
            )
            &&& device.after_message(Message::InvalidSpeed) == noted
            &&& device.report_on_message(Message::InvalidSpeed) == Some(
                Status {
                    level: device.level,
                    mode: device.mode,
                    reason: Reason::RejectedOutOfRange,
                },
            )
            &&& device.after_message(Message::InvalidSwitch) == noted
            &&& device.report_on_message(Message::InvalidSwitch) == Some(
                Status {
                    level: device.level,
                    mode: device.mode,
                    reason: Reason::RejectedInvalidSwitch,
                },
            )
            &&& device.after_message(Message::UnexpectedTopic) == device
            &&& device.report_on_message(Message::UnexpectedTopic) is None
        }),
{
}

/// Connecting in full: the subscriptions are noted; a device without a command is lit and reports
/// so, any other keeps its mode and stays silent; level and noted commands stay.
pub proof fn law_connect_in_full(device: Device)
    ensures
        !device.got_real_command ==> device.after_connect() == (Device {
            level: device.level,
            mode: MODE_ON,
            got_real_command: false,
            subscribed: true,
        }),
        !device.got_real_command ==> device.report_on_connect() == Some(
            Status { level: device.level, mode: MODE_ON, reason: Reason::ConnectedDefault },
        ),
        device.got_real_command ==> device.after_connect() == (Device {
            level: device.level,
            mode: device.mode,
            got_real_command: true,
            subscribed: true,
        }),
        device.got_real_command ==> device.report_on_connect() is None,
{
}

/// The end of the boot window in full: a subscribed device stays as it is and silent; any other
/// blinks at full speed and reports so, and no flag changes.
pub proof fn law_window_in_full(device: Device)
    ensures
        device.subscribed ==> device.after_window() == device,
        device.subscribed ==> device.report_on_window() is None,
        !device.subscribed ==> device.after_window() == (Device {
            level: MAX_LEVEL,
            mode: MODE_BLINK,
            got_real_command: device.got_real_command,
            subscribed: false,
        }),
        !device.subscribed ==> device.report_on_window() == Some(
            Status { level: MAX_LEVEL, mode: MODE_BLINK, reason: Reason::OfflineFallback },
        ),
{
}

/// The blink starts with a speed command whose level exists, and with the end of the boot window
/// on a device that is not subscribed; with nothing else.
pub proof fn law_what_starts_the_blink(device: Device, event: Event)
    ensures
        starts_blink(device, event) <==> (event matches Event::Received(Message::Speed(level))
            && level <= MAX_LEVEL) || (event is WindowEnds && !device.subscribed),
        starts_blink(device, event) ==> device.after(event).mode == MODE_BLINK,
        !starts_blink(device, event) && device.mode != MODE_BLINK ==> device.after(event).mode
            != MODE_BLINK,
{
}

/// A level from 0 to `MAX_LEVEL` in base ten on the speed topic, with any white space around it,
/// blinks at that level and is answered as an update with that level.
pub proof fn law_padded_level_blinks(
    device: Device,
    topic_speed: Seq<char>,
    topic_switch: Seq<char>,
    front: Seq<char>,
    level: u32,
    back: Seq<char>,
)
    requires
        level <= MAX_LEVEL,
        forall|i: int| 0 <= i < front.len() ==> crate::text::is_white_space(#[trigger] front[i]),
        forall|i: int| 0 <= i < back.len() ==> crate::text::is_white_space(#[trigger] back[i]),
    ensures
        ({
            let message = crate::message::message_on(
                topic_speed,
                topic_switch,
                Some(topic_speed),
                vstd::utf8::encode_utf8(front + crate::text::decimal(level as nat) + back),
            );
            &&& message == Message::Speed(level)
            &&& device.after_message(message).mode == MODE_BLINK
            &&& device.after_message(message).level == level
            &&& device.report_on_message(message) == Some(
                Status { level: level, mode: MODE_BLINK, reason: Reason::Updated },
            )
            &&& device.report_on_message(message)->0.text() == crate::status::payload_text(
                level,
                MODE_BLINK,
                "updated"@,
            )
        }),
{
    crate::message::law_padded_number_on_the_speed_topic(
        topic_speed,
        topic_switch,
        front,
        level,
        back,
    );
}

/// The words `on`, `off` and `toggle` on a switch topic of its own, with any white space around
/// them, set the mode of their own action, keep the level and are answered with the reason of
/// that action.
pub proof fn law_padded_words_switch(
    device: Device,
    topic_speed: Seq<char>,
    topic_switch: Seq<char>,
    front: Seq<char>,
    back: Seq<char>,
)
    requires
        topic_speed != topic_switch,
        forall|i: int| 0 <= i < front.len() ==> crate::text::is_white_space(#[trigger] front[i]),
        forall|i: int| 0 <= i < back.len() ==> crate::text::is_white_space(#[trigger] back[i]),
    ensures
        ({
            let on = crate::message::message_on(
                topic_speed,
                topic_switch,
                Some(topic_switch),
                vstd::utf8::encode_utf8(front + "on"@ + back),
            );
            let off = crate::message::message_on(
                topic_speed,
                topic_switch,
                Some(topic_switch),
                vstd::utf8::encode_utf8(front + "off"@ + back),
            );
            let toggle = crate::message::message_on(
                topic_speed,
                topic_switch,
                Some(topic_switch),
                vstd::utf8::encode_utf8(front + "toggle"@ + back),
            );
            let toggled = if device.mode == MODE_OFF {
                MODE_ON
            } else {
                MODE_OFF
            };
            &&& device.after_message(on).mode == MODE_ON
            &&& device.after_message(on).level == device.level
            &&& device.report_on_message(on) == Some(
                Status { level: device.level, mode: MODE_ON, reason: Reason::SwitchOn },
            )
            &&& device.after_message(off).mode == MODE_OFF
            &&& device.after_message(off).level == device.level
            &&& device.report_on_message(off) == Some(
                Status { level: device.level, mode: MODE_OFF, reason: Reason::SwitchOff },
            )
            &&& device.after_message(toggle).mode == toggled
            &&& device.after_message(toggle).level == device.level
            &&& device.report_on_message(toggle) == Some(
                Status { level: device.level, mode: toggled, reason: Reason::SwitchToggle },
            )
        }),
{
    crate::message::law_padded_word_on_the_switch_topic(topic_speed, topic_switch, front, back);
}

/// Bytes on a switch topic of its own that are no text, or whose text without the white space
/// around it is none of the three words, letter by letter, leave mode and level alone and are
/// answered with a rejection.
pub proof fn law_any_other_switch_payload_is_rejected(
    device: Device,
    topic_speed: Seq<char>,
    topic_switch: Seq<char>,
    data: Seq<u8>,
)
    requires
        topic_speed != topic_switch,
        vstd::utf8::valid_utf8(data) ==> {
            let word = crate::text::trimmed(vstd::utf8::decode_utf8(data));
            word != seq!['o', 'n'] && word != seq!['o', 'f', 'f'] && word != seq![
                't',
                'o',
                'g',
                'g',
                'l',
                'e',
            ]
        },
    ensures
        ({
            let message = crate::message::message_on(
                topic_speed,
                topic_switch,
                Some(topic_switch),
                data,
            );
            &&& message == Message::InvalidSwitch
            &&& device.after_message(message).mode == device.mode
            &&& device.after_message(message).level == device.level
            &&& device.after_message(message).got_real_command
            &&& device.report_on_message(message) == Some(
                Status {
                    level: device.level,
                    mode: device.mode,
                    reason: Reason::RejectedInvalidSwitch,
                },
            )
        }),
{
    crate::message::law_switch_topic_carries_three_words(topic_speed, topic_switch, data);
}

/// Bytes on the speed topic that are no text, or whose text without the white space around it is
/// no number up to `MAX_LEVEL`, leave mode and level alone and are answered with a rejection.
pub proof fn law_any_other_speed_payload_is_rejected(
    device: Device,
    topic_speed: Seq<char>,
    topic_switch: Seq<char>,
    data: Seq<u8>,
)
    requires
        vstd::utf8::valid_utf8(data) ==> (crate::text::number_in(
            crate::text::trimmed(vstd::utf8::decode_utf8(data)),
        ) matches Some(number) ==> number > MAX_LEVEL),
    ensures
        ({
            let message = crate::message::message_on(
                topic_speed,
                topic_switch,
                Some(topic_speed),
                data,
            );
            &&& device.after_message(message).mode == device.mode
            &&& device.after_message(message).level == device.level
            &&& device.after_message(message).got_real_command
            &&& device.report_on_message(message) is Some
            &&& device.report_on_message(message)->0.mode == device.mode
            &&& device.report_on_message(message)->0.reason == Reason::RejectedOutOfRange
        }),
{
}

} // verus!
