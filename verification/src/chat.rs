//! The data behind a scripted classroom chat session: messages, the
//! presenter, and what each student does at every step. Spawning the threads,
//! the channel itself and the console output stay in the application.

use vstd::prelude::*;

verus! {

/// How many students take part in the session.
pub const NUMBER_OF_STUDENTS: u8 = 3;

/// How many concepts the presenter walks through.
pub const NUMBER_OF_CONCEPTS: u8 = 6;

/// Relies on `chrono::Utc::now` and `chrono::DateTime::timestamp_millis` for
/// the current wall-clock time. Nothing is assumed about the value.
#[verifier::external_body]
fn now_millis() -> i64 {
    chrono::Utc::now().timestamp_millis()
}

/// One message shown on the chat screen, stamped with the milliseconds since
/// the Unix epoch at which it was created.
#[derive(Debug)]
pub struct ChatMessage {
    pub username: String,
    pub text: String,
    pub timestamp_millis: i64,
}

impl ChatMessage {
    /// A new message from `username` with body `text`, stamped with the
    /// current time.
    pub fn new(username: &str, text: &str) -> (m: ChatMessage)
        ensures
            m.username@ == username@,
            m.text@ == text@,
    {
        ChatMessage {
            username: username.to_owned(),
            text: text.to_owned(),
            timestamp_millis: now_millis(),
        }
    }
}

/// The person presenting the session.
pub struct Presenter {
    pub name: String,
}

impl Presenter {
    /// A presenter with the given name.
    pub fn new(name: &str) -> (p: Presenter)
        ensures
            p.name@ == name@,
    {
        Presenter { name: name.to_owned() }
    }
}

/// What a student does when the presenter reaches one concept.
#[derive(Debug, PartialEq, Eq, Structural)]
pub enum StudentAction {
    /// Speak up in the room.
    Speak,
    /// Send a message over the chat channel.
    Chat,
}

/// Decides what a student does for concept number `i`: every third concept
/// sounds tricky and is spoken aloud, every other one is praised in the chat.
pub fn student_action(i: u8) -> (a: StudentAction)
    ensures
        a == (if i % 3 == 0 {
            StudentAction::Speak
        } else {
            StudentAction::Chat
        }),
{
    if i % 3 == 0 {
        StudentAction::Speak
    } else {
        StudentAction::Chat
    }
}

} // verus!
