//! The main menu's server address field, edited from the keyboard.

use vstd::prelude::*;

verus! {

/// The logical key of a keyboard event, as far as text entry reads it.
pub enum TextKey {
    /// A key that produces text.
    Character(String),
    /// The backspace key.
    Backspace,
    /// Any other key.
    Other,
}

/// A keyboard event: a key that went down (`pressed`) or up.
pub struct KeyboardTextEvent {
    pub pressed: bool,
    pub key: TextKey,
}

/// The text after `events`, in order: each key press that produces text
/// appends it, each backspace press removes the last character (if any), and
/// key releases and other keys change nothing.
pub open spec fn edited_text(text: Seq<char>, events: Seq<KeyboardTextEvent>) -> Seq<char>
    decreases events.len(),
{
    if events.len() == 0 {
        text
    } else {
        let before = edited_text(text, events.drop_last());
        let e = events.last();
        if !e.pressed {
            before
        } else {
            match e.key {
                TextKey::Character(c) => before + c@,
                TextKey::Backspace => if before.len() > 0 {
                    before.drop_last()
                } else {
                    before
                },
                TextKey::Other => before,
            }
        }
    }
}

/// Applies a frame's keyboard events to the server address being typed.
pub fn main_menu_text_input_system(server_addr: &mut String, events: &Vec<KeyboardTextEvent>)
    ensures
        final(server_addr)@ == edited_text(old(server_addr)@, events@),
{
    let mut i: usize = 0;
    while i < events.len()
        invariant
            0 <= i <= events.len(),
            server_addr@ == edited_text(old(server_addr)@, events@.subrange(0, i as int)),
        decreases events.len() - i,
    {
        proof {
            assert(events@.subrange(0, i + 1).drop_last() =~= events@.subrange(0, i as int));
        }
        let event = &events[i];
        if event.pressed {
            match &event.key {
                TextKey::Character(c) => {
                    server_addr.append(c.as_str());
                },
                TextKey::Backspace => {
                    let len = server_addr.as_str().unicode_len();
                    if len > 0 {
                        let shortened = String::from_str(server_addr.as_str().substring_char(0, len - 1));
                        *server_addr = shortened;
                    }
                },
                TextKey::Other => {},
            }
        }
        i = i + 1;
    }
    assert(events@.subrange(0, events@.len() as int) =~= events@);
}

/// A key release never changes the text: whatever came before, the text after
/// `events` followed by a release equals the text after `events`.
pub proof fn lemma_release_changes_nothing(text: Seq<char>, events: Seq<KeyboardTextEvent>, release: KeyboardTextEvent)
    requires
        !release.pressed,
    ensures
        edited_text(text, events.push(release)) == edited_text(text, events),
{
    assert(events.push(release).drop_last() =~= events);
}

/// Pressing a key that produces text appends exactly that text.
pub proof fn lemma_typing_appends(text: Seq<char>, events: Seq<KeyboardTextEvent>, c: String)
    ensures
        edited_text(text, events.push(KeyboardTextEvent { pressed: true, key: TextKey::Character(c) }))
            == edited_text(text, events) + c@,
{
    assert(events.push(KeyboardTextEvent { pressed: true, key: TextKey::Character(c) }).drop_last() =~= events);
}

/// One tap of backspace (a press, then its release) removes exactly the last
/// character, and nothing from an empty text.
pub proof fn lemma_backspace_tap_removes_one(text: Seq<char>, events: Seq<KeyboardTextEvent>)
    ensures
        ({
            let before = edited_text(text, events);
            let tapped = events.push(KeyboardTextEvent { pressed: true, key: TextKey::Backspace }).push(
                KeyboardTextEvent { pressed: false, key: TextKey::Backspace },
            );
            &&& before.len() > 0 ==> edited_text(text, tapped) == before.subrange(0, before.len() - 1)
            &&& before.len() > 0 ==> edited_text(text, tapped).len() == before.len() - 1
            &&& before.len() == 0 ==> edited_text(text, tapped) == before
        }),
{
    let pressed = events.push(KeyboardTextEvent { pressed: true, key: TextKey::Backspace });
    assert(pressed.drop_last() =~= events);
    lemma_release_changes_nothing(text, pressed, KeyboardTextEvent { pressed: false, key: TextKey::Backspace });
}

} // verus!
