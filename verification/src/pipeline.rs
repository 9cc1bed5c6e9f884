//! The steps of the logging loop, without the device and without the log.
//!
//! The caller owns both streams. It reads one block from the device and asks
//! [`handle_chunk`] what the block calls for; where that is a token, it appends
//! the token's bytes to the log and asks [`check_write`] what to make of the
//! outcome. Whatever happens to one token, the state that the next block meets
//! is the same.
//!
//! Only key presses are logged. A held key repeats with events of its own,
//! which are neither presses nor releases: they change nothing and log nothing.

use crate::event::{
    decode, decoded, DecodeError, InputEvent, EVENT_SIZE, EV_KEY, KEY_PRESS, KEY_RELEASE,
    KEY_REPEAT,
};
use crate::keymap::{get_key, key_symbol, KeyError, KEY_MAX};
use crate::modifier::{pressed, released, ModifierState};
use vstd::prelude::*;

verus! {

/// What the caller is to do about one event.
#[derive(Debug, Clone, Copy, PartialEq, Eq)]
pub enum Action {
    /// Nothing: the event is not a key press.
    Idle,
    /// Append this token to the log.
    Append(&'static str),
    /// Say that the pressed key has no text, append nothing, and go on.
    Report(KeyError),
}

/// Why a token did not reach the log whole.
#[derive(Debug, Clone, Copy, PartialEq, Eq, Structural)]
pub enum WriteError {
    /// The log took `written` bytes of the `requested` ones. The rest of the
    /// token is lost; the loop goes on.
    ShortWrite { written: usize, requested: usize },
    /// The log refused the write. The loop ends.
    StreamError,
}

/// Whether `event` says that a key went down.
pub open spec fn is_key_press(event: InputEvent) -> bool {
    event.type_ == EV_KEY && event.value == KEY_PRESS
}

/// Whether `event` says that a key went up.
pub open spec fn is_key_release(event: InputEvent) -> bool {
    event.type_ == EV_KEY && event.value == KEY_RELEASE
}

/// Whether `event` says that a held key repeats.
pub open spec fn is_key_repeat(event: InputEvent) -> bool {
    event.type_ == EV_KEY && event.value == KEY_REPEAT
}

/// The Shift count after `event`, met at count `depth`.
pub open spec fn depth_after(depth: nat, event: InputEvent) -> nat {
    if is_key_press(event) {
        pressed(depth, event.code)
    } else if is_key_release(event) {
        released(depth, event.code)
    } else {
        depth
    }
}

/// The token that `event` puts into the log when it is met at count `depth`,
/// if it puts one: the text of the pressed key, shifted if a Shift key is held
/// once the press itself is counted.
pub open spec fn logged(depth: nat, event: InputEvent) -> Option<Seq<char>> {
    if is_key_press(event) && event.code <= KEY_MAX {
        Some(key_symbol(event.code, depth_after(depth, event) != 0))
    } else {
        None
    }
}

/// Whether `action` is what `event` calls for when it is met at count `depth`:
/// [`Action::Append`] with the token of [`logged`] where there is one,
/// [`Action::Report`] with the code for a press of a key above [`KEY_MAX`],
/// [`Action::Idle`] for all that is no press.
pub open spec fn called_for(action: Action, depth: nat, event: InputEvent) -> bool {
    match action {
        Action::Idle => !is_key_press(event),
        Action::Append(token) => logged(depth, event) == Some(token@),
        Action::Report(KeyError::OutOfBounds(code)) => {
            &&& is_key_press(event)
            &&& event.code > KEY_MAX
            &&& code == event.code
        },
    }
}

/// The Shift count after all of `events` in order, starting at count `depth`.
pub open spec fn depth_after_all(depth: nat, events: Seq<InputEvent>) -> nat
    decreases events.len(),
{
    if events.len() == 0 {
        depth
    } else {
        depth_after_all(depth_after(depth, events[0]), events.drop_first())
    }
}

/// The tokens that `events` put into the log, in order, starting at count
/// `depth`.
pub open spec fn transcript(depth: nat, events: Seq<InputEvent>) -> Seq<Seq<char>>
    decreases events.len(),
{
    if events.len() == 0 {
        Seq::empty()
    } else {
        let rest = transcript(depth_after(depth, events[0]), events.drop_first());
        match logged(depth, events[0]) {
            Some(token) => seq![token] + rest,
            None => rest,
        }
    }
}

/// The texts of `tokens`.
pub open spec fn texts(tokens: Seq<&'static str>) -> Seq<Seq<char>> {
    tokens.map_values(|token: &'static str| token@)
}

/// Takes one event: updates the Shift count and says what the event calls for.
///
/// A press of a Shift key is counted before the key is resolved, so the token
/// of the Shift key itself comes from the shifted table.
pub fn handle_event(state: &mut ModifierState, event: &InputEvent) -> (action: Action)
    ensures
        final(state)@ == depth_after(old(state)@, *event),
        called_for(action, old(state)@, *event),
{
    if event.type_ != EV_KEY {
        return Action::Idle;
    }
    if event.value == KEY_PRESS {
        state.press(event.code);
        match get_key(event.code, state.shift_depth()) {
            Ok(token) => Action::Append(token),
            Err(error) => Action::Report(error),
        }
    } else {
        if event.value == KEY_RELEASE {
            state.release(event.code);
        }
        Action::Idle
    }
}

/// Takes one block as it was read from the device: decodes it and handles the
/// event.
///
/// A block that is no record leaves the state as it was. The caller is to
/// stop then: from there on the stream cannot be trusted.
pub fn handle_chunk(state: &mut ModifierState, chunk: &[u8]) -> (result: Result<
    Action,
    DecodeError,
>)
    ensures
        match result {
            Ok(action) => {
                &&& chunk@.len() == EVENT_SIZE
                &&& final(state)@ == depth_after(old(state)@, decoded(chunk@))
                &&& called_for(action, old(state)@, decoded(chunk@))
            },
            Err(DecodeError::SizeMismatch { expected, actual }) => {
                &&& chunk@.len() != EVENT_SIZE
                &&& expected == EVENT_SIZE
                &&& actual == chunk@.len()
                &&& final(state)@ == old(state)@
            },
        },
{
    match decode(chunk) {
        Ok(event) => Ok(handle_event(state, &event)),
        Err(error) => Err(error),
    }
}

/// Takes a run of events in order and gives the tokens that they put into the
/// log, in the order of the presses. Events that call for no token, and
/// presses of keys that have no text, add nothing.
pub fn transcribe(state: &mut ModifierState, events: &[InputEvent]) -> (tokens: Vec<&'static str>)
    ensures
        final(state)@ == depth_after_all(old(state)@, events@),
        texts(tokens@) == transcript(old(state)@, events@),
{
    let ghost start = state@;
    let mut tokens: Vec<&'static str> = Vec::new();
    let mut i: usize = 0;
    assert(events@.subrange(0, events@.len() as int) =~= events@);
    while i < events.len()
        invariant
            i <= events.len(),
            depth_after_all(state@, events@.subrange(i as int, events@.len() as int))
                == depth_after_all(start, events@),
            texts(tokens@) + transcript(state@, events@.subrange(i as int, events@.len() as int))
                == transcript(start, events@),
        decreases events.len() - i,
    {
        assert(events@.subrange(i as int, events@.len() as int).drop_first()
            =~= events@.subrange(i + 1, events@.len() as int));
        let ghost taken = texts(tokens@);
        match handle_event(state, &events[i]) {
            Action::Append(token) => {
                tokens.push(token);
                assert(texts(tokens@) =~= taken + seq![token@]);
            },
            _ => {},
        }
        i = i + 1;
    }
    tokens
}

/// Judges the outcome of appending a token of `requested` bytes to the log:
/// `written` is the number of bytes that the log took, or `None` if it refused
/// the write. Any number but `requested` counts as a short write.
pub fn check_write(requested: usize, written: Option<usize>) -> (result: Result<(), WriteError>)
    ensures
        match result {
            Ok(()) => written == Some(requested),
            Err(WriteError::ShortWrite { written: taken, requested: asked }) => {
                &&& written == Some(taken)
                &&& taken != requested
                &&& asked == requested
            },
            Err(WriteError::StreamError) => written is None,
        },
{
    match written {
        None => Err(WriteError::StreamError),
        Some(taken) => {
            if taken == requested {
                Ok(())
            } else {
                Err(WriteError::ShortWrite { written: taken, requested })
            }
        },
    }
}

impl WriteError {
    /// Whether the loop must end on this error. A short write never ends it.
    pub fn is_fatal(&self) -> (fatal: bool)
        ensures
            fatal == (*self is StreamError),
    {
        match self {
            WriteError::ShortWrite { .. } => false,
            WriteError::StreamError => true,
        }
    }
}

/// An event calls for one action only: two actions that it calls for are the
/// same action, two tokens being the same by their text.
pub proof fn lemma_one_action(first: Action, second: Action, depth: nat, event: InputEvent)
    requires
        called_for(first, depth, event),
        called_for(second, depth, event),
    ensures
        match (first, second) {
            (Action::Append(one), Action::Append(other)) => one@ == other@,
            _ => first == second,
        },
{
}

/// Events are taken one after the other: a run in two parts logs what the
/// first part logs and then what the second logs from the count that the
/// first has left.
pub proof fn lemma_transcript_in_parts(depth: nat, first: Seq<InputEvent>, second: Seq<InputEvent>)
    ensures
        depth_after_all(depth, first + second) == depth_after_all(
            depth_after_all(depth, first),
            second,
        ),
        transcript(depth, first + second) == transcript(depth, first) + transcript(
            depth_after_all(depth, first),
            second,
        ),
    decreases first.len(),
{
    if first.len() == 0 {
        assert(first + second =~= second);
    } else {
        assert((first + second).drop_first() =~= first.drop_first() + second);
        lemma_transcript_in_parts(depth_after(depth, first[0]), first.drop_first(), second);
    }
}

/// A repeat event changes nothing and logs nothing: all that it calls for is
/// [`Action::Idle`].
pub proof fn lemma_repeat_is_ignored(depth: nat, event: InputEvent)
    requires
        is_key_repeat(event),
    ensures
        depth_after(depth, event) == depth,
        logged(depth, event) is None,
        forall|action: Action| called_for(action, depth, event) <==> action == Action::Idle,
{
}

/// A run of repeat events changes nothing and logs nothing.
pub proof fn lemma_repeats_are_ignored(depth: nat, repeats: Seq<InputEvent>)
    requires
        forall|i: int| 0 <= i < repeats.len() ==> is_key_repeat(#[trigger] repeats[i]),
    ensures
        depth_after_all(depth, repeats) == depth,
        transcript(depth, repeats) == Seq::<Seq<char>>::empty(),
    decreases repeats.len(),
{
    if repeats.len() > 0 {
        lemma_repeats_are_ignored(depth, repeats.drop_first());
    }
}

/// A held key is logged once: a press with any number of repeat events behind
/// it logs what the press alone logs, which for a key that has a text is that
/// one token.
pub proof fn lemma_held_key_logs_once(depth: nat, press: InputEvent, repeats: Seq<InputEvent>)
    requires
        is_key_press(press),
        forall|i: int|
            0 <= i < repeats.len() ==> is_key_repeat(#[trigger] repeats[i]) && repeats[i].code
                == press.code,
    ensures
        transcript(depth, seq![press] + repeats) == transcript(depth, seq![press]),
        depth_after_all(depth, seq![press] + repeats) == pressed(depth, press.code),
        press.code <= KEY_MAX ==> transcript(depth, seq![press]) == seq![
            key_symbol(press.code, pressed(depth, press.code) != 0),
        ],
        press.code > KEY_MAX ==> transcript(depth, seq![press]) == Seq::<Seq<char>>::empty(),
{
    lemma_transcript_in_parts(depth, seq![press], repeats);
    lemma_repeats_are_ignored(pressed(depth, press.code), repeats);
    assert(seq![press].drop_first() =~= Seq::<InputEvent>::empty());
    reveal_with_fuel(depth_after_all, 2);
    reveal_with_fuel(transcript, 2);
}

} // verus!
