//! The commands of the command line, by name, and the session each one starts.

use vstd::prelude::*;
use vstd::utf8::encode_utf8_decode_utf8;
use crate::mtio::{MovementDescriptor, MovementDirection, MovementType};
use crate::session::{begun, Request, Session, TapeError};
use crate::tape::{rewind, rewind_request, space, space_request, status};

verus! {

/// The exit code of a program that was given a path to no existing device.
pub const EXIT_INVALID_DEVICE: i32 = 66;

/// A command that the command line can name.
#[derive(Clone, Copy, Debug, PartialEq, Eq)]
pub enum TapeCommand {
    /// Report the drive's status.
    Status,
    /// Rewind the tape.
    Rewind,
    /// Space over records or filemarks.
    Space(MovementType, MovementDirection),
}

/// The command that `word` names, if any.
pub open spec fn command_named(word: Seq<char>) -> Option<TapeCommand> {
    if word == "status"@ {
        Some(TapeCommand::Status)
    } else if word == "rewind"@ {
        Some(TapeCommand::Rewind)
    } else if word == "forward-record"@ {
        Some(TapeCommand::Space(MovementType::Record, MovementDirection::Forward))
    } else if word == "forward-filemark"@ {
        Some(TapeCommand::Space(MovementType::FileMark, MovementDirection::Forward))
    } else if word == "back-record"@ {
        Some(TapeCommand::Space(MovementType::Record, MovementDirection::Backward))
    } else if word == "back-filemark"@ {
        Some(TapeCommand::Space(MovementType::FileMark, MovementDirection::Backward))
    } else {
        None
    }
}

/// Whether two byte strings are the same.
pub fn same_bytes(a: &[u8], b: &[u8]) -> (same: bool)
    ensures
        same == (a@ == b@),
{
    if a.len() != b.len() {
        return false;
    }
    let mut i: usize = 0;
    while i < a.len()
        invariant
            i <= a.len(),
            a.len() == b.len(),
            a@.take(i as int) == b@.take(i as int),
        decreases a.len() - i,
    {
        if a[i] != b[i] {
            return false;
        }
        assert(a@.take(i + 1) =~= a@.take(i as int).push(a@[i as int]));
        assert(b@.take(i + 1) =~= b@.take(i as int).push(b@[i as int]));
        i = i + 1;
    }
    assert(a@.take(i as int) =~= a@);
    assert(b@.take(i as int) =~= b@);
    true
}

/// Whether two strings hold the same characters.
pub fn same_text(a: &str, b: &str) -> (same: bool)
    ensures
        same == (a@ == b@),
{
    proof {
        encode_utf8_decode_utf8(a@);
        encode_utf8_decode_utf8(b@);
    }
    same_bytes(a.as_bytes(), b.as_bytes())
}

/// Reads a command's name. A word that names no command gives `None`.
pub fn parse_command(word: &str) -> (c: Option<TapeCommand>)
    ensures
        c == command_named(word@),
{
    if same_text(word, "status") {
        Some(TapeCommand::Status)
    } else if same_text(word, "rewind") {
        Some(TapeCommand::Rewind)
    } else if same_text(word, "forward-record") {
        Some(TapeCommand::Space(MovementType::Record, MovementDirection::Forward))
    } else if same_text(word, "forward-filemark") {
        Some(TapeCommand::Space(MovementType::FileMark, MovementDirection::Forward))
    } else if same_text(word, "back-record") {
        Some(TapeCommand::Space(MovementType::Record, MovementDirection::Backward))
    } else if same_text(word, "back-filemark") {
        Some(TapeCommand::Space(MovementType::FileMark, MovementDirection::Backward))
    } else {
        None
    }
}

/// The request that `command` makes of the driver; `count` matters to spacing
/// only.
pub open spec fn command_request(command: TapeCommand, count: i32) -> Request {
    match command {
        TapeCommand::Status => Request::ReadStatus,
        TapeCommand::Rewind => rewind_request(),
        TapeCommand::Space(kind, direction) => space_request(kind, direction, count),
    }
}

/// Starts the session for `command` on `dev`. Spacing by a negative count is
/// no command: it starts nothing.
pub fn start(dev: &str, command: TapeCommand, count: i32) -> (s: Option<Session>)
    ensures
        s is None <==> (command is Space && count < 0),
        s matches Some(session) ==> session@ == begun(dev@, command_request(command, count)),
{
    match command {
        TapeCommand::Status => Some(status(dev)),
        TapeCommand::Rewind => Some(rewind(dev)),
        TapeCommand::Space(kind, direction) => match MovementDescriptor::new(
            kind,
            direction,
            count,
        ) {
            Some(movement) => Some(space(dev, movement)),
            None => None,
        },
    }
}

/// The path of the tape device that is used where none is given.
pub open spec fn default_device() -> Seq<char> {
    "/dev/nst0"@
}

/// The device to work on: the one given, or the default.
pub fn device_or_default<'a>(given: Option<&'a str>) -> (dev: &'a str)
    ensures
        dev@ == match given {
            Some(d) => d@,
            None => default_device(),
        },
{
    match given {
        Some(d) => d,
        None => "/dev/nst0",
    }
}

/// Judges a device path before anything is opened: `found` says whether the
/// path names an existing file.
pub fn validate_device(found: bool) -> (r: Result<(), TapeError>)
    ensures
        found ==> r == Ok::<(), TapeError>(()),
        !found ==> r == Err::<(), TapeError>(TapeError::InvalidDevicePath),
{
    if found {
        Ok(())
    } else {
        Err(TapeError::InvalidDevicePath)
    }
}

} // verus!
