//! The clipboard handle: a connection decided once at construction, and
//! reads and writes that never fail outwardly.

use vstd::prelude::*;

use crate::platform::{
    platform_read, platform_read_primary, platform_write, platform_write_primary, Platform, WriteAttempt,
};
use iced_core::clipboard::Kind;

verus! {

/// What can be observed of a handle: whether it reaches a platform clipboard.
#[derive(PartialEq, Eq, Structural, Clone, Copy, Debug)]
pub enum Connection {
    Connected,
    Unavailable,
}

enum State {
    Connected(Platform),
    Unavailable,
}

/// A text clipboard for one window. Without a platform connection every read
/// yields nothing and every write is dropped.
pub struct SessionLockClipboard {
    state: State,
}

impl View for SessionLockClipboard {
    type V = Connection;

    closed spec fn view(&self) -> Connection {
        match self.state {
            State::Connected(_) => Connection::Connected,
            State::Unavailable => Connection::Unavailable,
        }
    }
}

impl SessionLockClipboard {
    /// Every write handed to the platform clipboard so far, in order; none
    /// for a handle without a connection.
    pub closed spec fn writes(&self) -> Seq<WriteAttempt> {
        match self.state {
            State::Connected(platform) => platform.writes@,
            State::Unavailable => Seq::empty(),
        }
    }
}

/// The connection that a handle built from the outcome of a connection
/// attempt has: connected exactly when the attempt succeeded.
pub open spec fn connection_after(attempt_succeeded: bool) -> Connection {
    if attempt_succeeded {
        Connection::Connected
    } else {
        Connection::Unavailable
    }
}

/// The text that a read hands out for what the platform answered: the text
/// of a successful read, and nothing for an unsupported selection or a failure.
pub open spec fn text_of(answer: Option<Result<String, String>>) -> Option<String> {
    match answer {
        Some(Ok(text)) => Some(text),
        _ => None,
    }
}

/// The diagnostic that a write reports for what the platform answered: the
/// failure's message, and nothing for a success or an unsupported selection.
pub open spec fn diagnostic_of(answer: Option<Result<(), String>>) -> Option<String> {
    match answer {
        Some(Err(message)) => Some(message),
        _ => None,
    }
}

/// What holds of a read's result on a handle with connection `c`.
pub open spec fn read_post(c: Connection, r: Option<String>) -> bool {
    c == Connection::Unavailable ==> r is None
}

/// What holds of a write of `contents` to the selection `kind` that took the
/// handle `before` to `after` and reported `diagnostic`. Without a connection
/// nothing reaches the platform and nothing is reported. With one, exactly one
/// write of `contents` to `kind` is handed to the platform, and the diagnostic
/// is the one its answer calls for.
pub open spec fn write_post(
    before: SessionLockClipboard,
    after: SessionLockClipboard,
    kind: Kind,
    contents: Seq<char>,
    diagnostic: Option<String>,
) -> bool {
    &&& after@ == before@
    &&& before@ == Connection::Unavailable ==> {
        &&& diagnostic is None
        &&& after.writes() == before.writes()
    }
    &&& before@ == Connection::Connected ==> {
        &&& after.writes() == before.writes().push((kind, contents, after.writes().last().2))
        &&& diagnostic == diagnostic_of(after.writes().last().2)
        &&& kind == Kind::Standard ==> after.writes().last().2 is Some
    }
}

/// The text that a read hands out for the platform's answer `answer`:
/// `None` means the selection is unsupported.
pub fn read_answer(answer: Option<Result<String, String>>) -> (r: Option<String>)
    ensures
        r == text_of(answer),
{
    match answer {
        Some(Ok(text)) => Some(text),
        _ => None,
    }
}

/// The diagnostic that a write reports for the platform's answer `answer`:
/// `None` means the selection is unsupported, which counts as a success.
pub fn write_answer(answer: Option<Result<(), String>>) -> (r: Option<String>)
    ensures
        r == diagnostic_of(answer),
{
    match answer {
        Some(Err(message)) => Some(message),
        _ => None,
    }
}

impl SessionLockClipboard {
    /// Builds a handle from the outcome of a connection attempt: connected
    /// with the platform clipboard if there is one, unavailable otherwise.
    pub fn connect(connection: Option<window_clipboard::Clipboard>) -> (r: Self)
        ensures
            r@ == connection_after(connection is Some),
            r.writes() == Seq::<WriteAttempt>::empty(),
    {
        match connection {
            Some(clipboard) => SessionLockClipboard {
                state: State::Connected(Platform { clipboard, writes: Ghost(Seq::empty()) }),
            },
            None => SessionLockClipboard { state: State::Unavailable },
        }
    }

    /// Builds a handle that is associated with no window: it never holds a
    /// copied value.
    pub fn unconnected() -> (r: Self)
        ensures
            r@ == Connection::Unavailable,
            r.writes() == Seq::<WriteAttempt>::empty(),
    {
        SessionLockClipboard { state: State::Unavailable }
    }

    /// Whether this handle reaches a platform clipboard.
    pub fn is_connected(&self) -> (r: bool)
        ensures
            r == (self@ == Connection::Connected),
    {
        match self.state {
            State::Connected(_) => true,
            State::Unavailable => false,
        }
    }

    /// Reads the text of the selection `kind`. Without a connection, and
    /// wherever the platform has no text to give, the result is `None`.
    pub fn read(&self, kind: Kind) -> (r: Option<String>)
        ensures
            read_post(self@, r),
    {
        match &self.state {
            State::Connected(platform) => match kind {
                Kind::Standard => read_answer(Some(platform_read(platform))),
                Kind::Primary => read_answer(platform_read_primary(platform)),
            },
            State::Unavailable => None,
        }
    }

    /// Writes `contents` to the selection `kind`, with at most one platform
    /// attempt. A failure is never raised: its message is returned for the
    /// caller to log. Without a connection the contents are dropped.
    pub fn write(&mut self, kind: Kind, contents: String) -> (r: Option<String>)
        ensures
            write_post(*old(self), *final(self), kind, contents@, r),
    {
        match &mut self.state {
            State::Connected(platform) => {
                let answer = match kind {
                    Kind::Standard => Some(platform_write(platform, contents)),
                    Kind::Primary => platform_write_primary(platform, contents),
                };
                write_answer(answer)
            },
            State::Unavailable => None,
        }
    }
}

} // verus!
