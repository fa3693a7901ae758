//! What a message from the broker asks for.

use vstd::prelude::*;

use crate::config::Config;
use crate::text::{parse_number, same_text};

verus! {

/// What a switch command asks for.
#[derive(Clone, Copy, Debug, PartialEq, Eq, Structural)]
pub enum SwitchAction {
    On,
    Off,
    Toggle,
}

/// A message from the broker, as far as the device understands it.
#[derive(Clone, Copy, Debug, PartialEq, Eq, Structural)]
pub enum Message {
    /// A number on the speed topic, in the range of levels or not.
    Speed(u32),
    /// Anything on the speed topic that is no number.
    InvalidSpeed,
    /// A switch action on the switch topic.
    Switch(SwitchAction),
    /// Anything on the switch topic that is no switch action.
    InvalidSwitch,
    /// A message on neither topic.
    UnexpectedTopic,
}

/// The number that the bytes of a payload hold, if they are the text of one, with white space
/// around it or not.
pub open spec fn payload_number(data: Seq<u8>) -> Option<u32> {
    if vstd::utf8::valid_utf8(data) {
        crate::text::number_in(crate::text::trimmed(vstd::utf8::decode_utf8(data)))
    } else {
        None
    }
}

/// What the bytes of a payload ask for on the speed topic.
pub open spec fn speed_message(data: Seq<u8>) -> Message {
    match payload_number(data) {
        Some(level) => Message::Speed(level),
        None => Message::InvalidSpeed,
    }
}

/// The switch action that a word names, if any.
pub open spec fn switch_word(word: Seq<char>) -> Option<SwitchAction> {
    if word == "on"@ {
        Some(SwitchAction::On)
    } else if word == "off"@ {
        Some(SwitchAction::Off)
    } else if word == "toggle"@ {
        Some(SwitchAction::Toggle)
    } else {
        None
    }
}

/// The switch action that the bytes of a payload name, if they are the text of one, with white
/// space around it or not.
pub open spec fn payload_action(data: Seq<u8>) -> Option<SwitchAction> {
    if vstd::utf8::valid_utf8(data) {
        switch_word(crate::text::trimmed(vstd::utf8::decode_utf8(data)))
    } else {
        None
    }
}

/// What the bytes of a payload ask for on the switch topic.
pub open spec fn switch_message(data: Seq<u8>) -> Message {
    match payload_action(data) {
        Some(action) => Message::Switch(action),
        None => Message::InvalidSwitch,
    }
}

/// The characters of a topic, where there is one.
pub open spec fn topic_text(topic: Option<&str>) -> Option<Seq<char>> {
    match topic {
        Some(topic) => Some(topic@),
        None => None,
    }
}

/// What a message asks for, given the two command topics.
pub open spec fn message_on(
    topic_speed: Seq<char>,
    topic_switch: Seq<char>,
    topic: Option<Seq<char>>,
    data: Seq<u8>,
) -> Message {
    if topic == Some(topic_speed) {
        speed_message(data)
    } else if topic == Some(topic_switch) {
        switch_message(data)
    } else {
        Message::UnexpectedTopic
    }
}

/// Reads a payload of the speed topic.
pub fn read_speed(data: &[u8]) -> (message: Message)
    ensures
        message == speed_message(data@),
{
    match core::str::from_utf8(data) {
        Ok(text) => match parse_number(text.trim()) {
            Some(level) => Message::Speed(level),
            None => Message::InvalidSpeed,
        },
        Err(_) => Message::InvalidSpeed,
    }
}

/// Reads a payload of the switch topic.
pub fn read_switch(data: &[u8]) -> (message: Message)
    ensures
        message == switch_message(data@),
{
    match core::str::from_utf8(data) {
        Ok(text) => {
            let word: &str = text.trim();
            if same_text(word, "on") {
                Message::Switch(SwitchAction::On)
            } else if same_text(word, "off") {
                Message::Switch(SwitchAction::Off)
            } else if same_text(word, "toggle") {
                Message::Switch(SwitchAction::Toggle)
            } else {
                Message::InvalidSwitch
            }
        },
        Err(_) => Message::InvalidSwitch,
    }
}

/// Reads a message from the broker. Should both commands share one topic, its messages are read
/// as speed commands.
pub fn read_message(config: &Config, topic: Option<&str>, data: &[u8]) -> (message: Message)
    ensures
        message == message_on(
            config.topic_speed@,
            config.topic_switch@,
            topic_text(topic),
            data@,
        ),
{
    match topic {
        Some(topic) => if same_text(topic, config.topic_speed) {
            read_speed(data)
        } else if same_text(topic, config.topic_switch) {
            read_switch(data)
        } else {
            Message::UnexpectedTopic
        },
        None => Message::UnexpectedTopic,
    }
}

/// Whether a text is made of white space alone.
pub open spec fn all_white_space(text: Seq<char>) -> bool {
    forall|i: int| 0 <= i < text.len() ==> crate::text::is_white_space(#[trigger] text[i])
}

/// White space in front of a word is removed.
proof fn lemma_leading_space(space: Seq<char>, word: Seq<char>)
    requires
        all_white_space(space),
        word.len() > 0,
        !crate::text::is_white_space(word[0]),
    ensures
        crate::text::without_leading_space(space + word) == word,
    decreases space.len(),
{
    if space.len() > 0 {
        assert((space + word)[0] == space[0]);
        assert((space + word).drop_first() =~= space.drop_first() + word);
        lemma_leading_space(space.drop_first(), word);
    } else {
        assert(space + word =~= word);
    }
}

/// White space behind a word is removed.
proof fn lemma_trailing_space(word: Seq<char>, space: Seq<char>)
    requires
        all_white_space(space),
        word.len() > 0,
        !crate::text::is_white_space(word.last()),
    ensures
        crate::text::without_trailing_space(word + space) == word,
    decreases space.len(),
{
    if space.len() > 0 {
        assert((word + space).last() == space.last());
        assert((word + space).drop_last() =~= word + space.drop_last());
        lemma_trailing_space(word, space.drop_last());
    } else {
        assert(word + space =~= word);
    }
}

/// White space around a word is removed, and the bytes of the text are read back.
proof fn lemma_payload_word(front: Seq<char>, word: Seq<char>, back: Seq<char>)
    requires
        all_white_space(front),
        all_white_space(back),
        word.len() > 0,
        !crate::text::is_white_space(word[0]),
        !crate::text::is_white_space(word.last()),
    ensures
        ({
            let data = vstd::utf8::encode_utf8(front + word + back);
            vstd::utf8::valid_utf8(data) && crate::text::trimmed(vstd::utf8::decode_utf8(data)) == word
        }),
{
    let text = front + word + back;
    vstd::utf8::encode_utf8_valid_utf8(text);
    vstd::utf8::encode_utf8_decode_utf8(text);
    assert(text =~= front + (word + back));
    assert((word + back)[0] == word[0]);
    lemma_leading_space(front, word + back);
    lemma_trailing_space(word, back);
}

/// A level written in base ten is understood on the speed topic, with white space around it or
/// not.
pub proof fn law_written_level_is_understood(front: Seq<char>, level: u32, back: Seq<char>)
    requires
        forall|i: int| 0 <= i < front.len() ==> crate::text::is_white_space(#[trigger] front[i]),
        forall|i: int| 0 <= i < back.len() ==> crate::text::is_white_space(#[trigger] back[i]),
    ensures
        speed_message(
            vstd::utf8::encode_utf8(front + crate::text::decimal(level as nat) + back),
        ) == Message::Speed(level),
{
    let word = crate::text::decimal(level as nat);
    crate::text::lemma_decimal_value(level as nat);
    assert(crate::text::is_digit(word[0]) && crate::text::is_digit(word[word.len() - 1]));
    lemma_payload_word(front, word, back);
    crate::text::law_number_round_trip(level);
}

/// The three switch words are understood on the switch topic, with white space around them or
/// not.
pub proof fn law_switch_words_are_understood(front: Seq<char>, back: Seq<char>)
    requires
        forall|i: int| 0 <= i < front.len() ==> crate::text::is_white_space(#[trigger] front[i]),
        forall|i: int| 0 <= i < back.len() ==> crate::text::is_white_space(#[trigger] back[i]),
    ensures
        switch_message(vstd::utf8::encode_utf8(front + "on"@ + back)) == Message::Switch(
            SwitchAction::On,
        ),
        switch_message(vstd::utf8::encode_utf8(front + "off"@ + back)) == Message::Switch(
            SwitchAction::Off,
        ),
        switch_message(vstd::utf8::encode_utf8(front + "toggle"@ + back)) == Message::Switch(
            SwitchAction::Toggle,
        ),
{
    reveal_strlit("on");
    reveal_strlit("off");
    reveal_strlit("toggle");
    assert("on"@.len() == 2 && "off"@.len() == 3 && "toggle"@.len() == 6);
    lemma_payload_word(front, "on"@, back);
    lemma_payload_word(front, "off"@, back);
    lemma_payload_word(front, "toggle"@, back);
}

/// Trimming gives back any word from between white space, if the word itself neither begins nor
/// ends with white space.
pub proof fn law_trimming_gives_back_the_word(front: Seq<char>, word: Seq<char>, back: Seq<char>)
    requires
        forall|i: int| 0 <= i < front.len() ==> crate::text::is_white_space(#[trigger] front[i]),
        forall|i: int| 0 <= i < back.len() ==> crate::text::is_white_space(#[trigger] back[i]),
        word.len() > 0,
        !crate::text::is_white_space(word[0]),
        !crate::text::is_white_space(word[word.len() - 1]),
    ensures
        crate::text::trimmed(front + word + back) == word,
{
    assert(front + word + back =~= front + (word + back));
    assert((word + back)[0] == word[0]);
    lemma_leading_space(front, word + back);
    lemma_trailing_space(word, back);
}

/// Trimming leaves nothing of a text of white space alone.
pub proof fn law_trimming_empties_white_space(space: Seq<char>)
    requires
        forall|i: int| 0 <= i < space.len() ==> crate::text::is_white_space(#[trigger] space[i]),
    ensures
        crate::text::trimmed(space).len() == 0,
    decreases space.len(),
{
    if space.len() > 0 {
        law_trimming_empties_white_space(space.drop_first());
    }
}

/// A topic is its characters.
pub proof fn law_topic_is_its_characters(topic: &str)
    ensures
        topic_text(Some(topic)) == Some(topic@),
        topic_text(None) is None,
{
}

/// On the speed topic, a payload is read as a number exactly if it is text that holds that number
/// once the white space around it is gone; anything else there is an invalid speed.
pub proof fn law_speed_topic_carries_numbers(
    topic_speed: Seq<char>,
    topic_switch: Seq<char>,
    data: Seq<u8>,
    number: u32,
)
    ensures
        ({
            let message = message_on(topic_speed, topic_switch, Some(topic_speed), data);
            let text = crate::text::trimmed(vstd::utf8::decode_utf8(data));
            &&& message == speed_message(data)
            &&& message == Message::Speed(number) <==> vstd::utf8::valid_utf8(data)
                && crate::text::number_in(text) == Some(number)
            &&& message == Message::InvalidSpeed <==> !vstd::utf8::valid_utf8(data)
                || crate::text::number_in(text) is None
            &&& payload_number(data) == Some(number) <==> vstd::utf8::valid_utf8(data)
                && crate::text::number_in(text) == Some(number)
        }),
{
}

/// On a switch topic of its own, a payload is read as an action exactly if it is text and, once
/// the white space around it is gone, is literally the word of that action; anything else there
/// is an invalid switch.
pub proof fn law_switch_topic_carries_three_words(
    topic_speed: Seq<char>,
    topic_switch: Seq<char>,
    data: Seq<u8>,
)
    requires
        topic_speed != topic_switch,
    ensures
        ({
            let message = message_on(topic_speed, topic_switch, Some(topic_switch), data);
            let valid = vstd::utf8::valid_utf8(data);
            let word = crate::text::trimmed(vstd::utf8::decode_utf8(data));
            let on = valid && word == seq!['o', 'n'];
            let off = valid && word == seq!['o', 'f', 'f'];
            let toggle = valid && word == seq!['t', 'o', 'g', 'g', 'l', 'e'];
            &&& message == switch_message(data)
            &&& message == Message::Switch(SwitchAction::On) <==> on
            &&& message == Message::Switch(SwitchAction::Off) <==> off
            &&& message == Message::Switch(SwitchAction::Toggle) <==> toggle
            &&& message == Message::InvalidSwitch <==> !on && !off && !toggle
            &&& payload_action(data) is None <==> !on && !off && !toggle
        }),
{
    reveal_strlit("on");
    reveal_strlit("off");
    reveal_strlit("toggle");
    assert("on"@ =~= seq!['o', 'n']);
    assert("off"@ =~= seq!['o', 'f', 'f']);
    assert("toggle"@ =~= seq!['t', 'o', 'g', 'g', 'l', 'e']);
    assert(seq!['o', 'n'].len() == 2 && seq!['o', 'f', 'f'].len() == 3 && seq![
        't',
        'o',
        'g',
        'g',
        'l',
        'e',
    ].len() == 6);
}

/// The three words name the three actions, and no other word names any.
pub proof fn law_three_words_and_no_other(word: Seq<char>)
    ensures
        switch_word(word) == Some(SwitchAction::On) <==> word == seq!['o', 'n'],
        switch_word(word) == Some(SwitchAction::Off) <==> word == seq!['o', 'f', 'f'],
        switch_word(word) == Some(SwitchAction::Toggle) <==> word == seq![
            't',
            'o',
            'g',
            'g',
            'l',
            'e',
        ],
        switch_word(word) is Some ==> word == seq!['o', 'n'] || word == seq!['o', 'f', 'f'] || word
            == seq!['t', 'o', 'g', 'g', 'l', 'e'],
{
    reveal_strlit("on");
    reveal_strlit("off");
    reveal_strlit("toggle");
    assert("on"@ =~= seq!['o', 'n']);
    assert("off"@ =~= seq!['o', 'f', 'f']);
    assert("toggle"@ =~= seq!['t', 'o', 'g', 'g', 'l', 'e']);
    assert(seq!['o', 'n'].len() == 2 && seq!['o', 'f', 'f'].len() == 3 && seq![
        't',
        'o',
        'g',
        'g',
        'l',
        'e',
    ].len() == 6);
}

/// A message is left unread exactly if it comes on neither command topic.
pub proof fn law_only_other_topics_are_unread(
    topic_speed: Seq<char>,
    topic_switch: Seq<char>,
    topic: Option<Seq<char>>,
    data: Seq<u8>,
)
    ensures
        message_on(topic_speed, topic_switch, topic, data) is UnexpectedTopic <==> topic != Some(
            topic_speed,
        ) && topic != Some(topic_switch),
{
}

/// A message is read alike on every pair of topics on which it comes in the same role.
pub proof fn law_topic_names_do_not_matter(
    speed1: Seq<char>,
    switch1: Seq<char>,
    speed2: Seq<char>,
    switch2: Seq<char>,
    data: Seq<u8>,
)
    requires
        speed1 != switch1,
        speed2 != switch2,
    ensures
        message_on(speed1, switch1, Some(speed1), data) == message_on(
            speed2,
            switch2,
            Some(speed2),
            data,
        ),
        message_on(speed1, switch1, Some(switch1), data) == message_on(
            speed2,
            switch2,
            Some(switch2),
            data,
        ),
{
}

/// A number in base ten, with any white space around it, is read as that number on the speed
/// topic.
pub proof fn law_padded_number_on_the_speed_topic(
    topic_speed: Seq<char>,
    topic_switch: Seq<char>,
    front: Seq<char>,
    number: u32,
    back: Seq<char>,
)
    requires
        forall|i: int| 0 <= i < front.len() ==> crate::text::is_white_space(#[trigger] front[i]),
        forall|i: int| 0 <= i < back.len() ==> crate::text::is_white_space(#[trigger] back[i]),
    ensures
        message_on(
            topic_speed,
            topic_switch,
            Some(topic_speed),
            vstd::utf8::encode_utf8(front + crate::text::decimal(number as nat) + back),
        ) == Message::Speed(number),
{
    law_written_level_is_understood(front, number, back);
}

/// A switch word, with any white space around it, is read as its own action on a switch topic of
/// its own.
pub proof fn law_padded_word_on_the_switch_topic(
    topic_speed: Seq<char>,
    topic_switch: Seq<char>,
    front: Seq<char>,
    back: Seq<char>,
)
    requires
        topic_speed != topic_switch,
        forall|i: int| 0 <= i < front.len() ==> crate::text::is_white_space(#[trigger] front[i]),
        forall|i: int| 0 <= i < back.len() ==> crate::text::is_white_space(#[trigger] back[i]),
    ensures
        message_on(
            topic_speed,
            topic_switch,
            Some(topic_switch),
            vstd::utf8::encode_utf8(front + "on"@ + back),
        ) == Message::Switch(SwitchAction::On),
        message_on(
            topic_speed,
            topic_switch,
            Some(topic_switch),
            vstd::utf8::encode_utf8(front + "off"@ + back),
        ) == Message::Switch(SwitchAction::Off),
        message_on(
            topic_speed,
            topic_switch,
            Some(topic_switch),
            vstd::utf8::encode_utf8(front + "toggle"@ + back),
        ) == Message::Switch(SwitchAction::Toggle),
{
    law_switch_words_are_understood(front, back);
}

} // verus!
