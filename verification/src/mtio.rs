//! The vocabulary of the tape driver: operation codes, request numbers and the
//! plain values carried by its three control requests.

use vstd::prelude::*;

verus! {

/// Re-initialise the drive.
pub const MTRESET: i16 = 0;

/// Space forward over filemarks; the head stops just after the last one.
pub const MTFSF: i16 = 1;

/// Space backward over filemarks; the head stops just before the last one.
pub const MTBSF: i16 = 2;

/// Space forward over records, never past a filemark.
pub const MTFSR: i16 = 3;

/// Space backward over records, never past a filemark.
pub const MTBSR: i16 = 4;

/// Write filemarks; with a count of zero, flush buffered data to the medium.
pub const MTWEOF: i16 = 5;

/// Rewind to beginning-of-medium.
pub const MTREW: i16 = 6;

/// The magic byte shared by the three tape control requests (ASCII `m`).
pub const MTIOC_MAGIC: u8 = 0x6d;

/// Sequence number of the positioning request, which carries an [`Mtop`] to the driver.
pub const MTIOCTOP_NR: u8 = 1;

/// Sequence number of the status request, which reads an [`Mtget`] from the driver.
pub const MTIOCGET_NR: u8 = 2;

/// Sequence number of the position request, which reads an [`Mtpos`] from the driver.
pub const MTIOCPOS_NR: u8 = 3;

/// A positioning command: the operation code and how many times to apply it.
#[derive(Clone, Copy, Debug, PartialEq, Eq, Structural)]
pub struct Mtop {
    pub mt_op: i16,
    pub mt_count: i32,
}

/// The driver's status record.
#[derive(Clone, Copy, Debug, PartialEq, Eq, Structural)]
pub struct Mtget {
    /// Drive-type code.
    pub mt_type: i64,
    /// Residual count: files or records that a spacing command did not skip.
    pub mt_resid: i64,
    /// Drive status register.
    pub mt_dsreg: i64,
    /// Generic status flags.
    pub mt_gstat: i64,
    /// Error register.
    pub mt_erreg: i64,
    /// Number of the current file on tape.
    pub mt_fileno: i32,
    /// Current block number within the file.
    pub mt_blkno: i32,
}

/// The driver's position record.
#[derive(Clone, Copy, Debug, PartialEq, Eq, Structural)]
pub struct Mtpos {
    /// Current logical block number.
    pub mt_blkno: i64,
}

impl Default for Mtop {
    fn default() -> (r: Mtop)
        ensures
            r == (Mtop { mt_op: 0, mt_count: 0 }),
    {
        Mtop { mt_op: 0, mt_count: 0 }
    }
}

impl Default for Mtget {
    fn default() -> (r: Mtget)
        ensures
            r == (Mtget {
                mt_type: 0,
                mt_resid: 0,
                mt_dsreg: 0,
                mt_gstat: 0,
                mt_erreg: 0,
                mt_fileno: 0,
                mt_blkno: 0,
            }),
    {
        Mtget {
            mt_type: 0,
            mt_resid: 0,
            mt_dsreg: 0,
            mt_gstat: 0,
            mt_erreg: 0,
            mt_fileno: 0,
            mt_blkno: 0,
        }
    }
}

impl Default for Mtpos {
    fn default() -> (r: Mtpos)
        ensures
            r == (Mtpos { mt_blkno: 0 }),
    {
        Mtpos { mt_blkno: 0 }
    }
}

/// The unit a spacing command counts in.
#[derive(Clone, Copy, Debug, PartialEq, Eq, Structural)]
pub enum MovementType {
    Record,
    FileMark,
}

/// The way a spacing command moves the tape.
#[derive(Clone, Copy, Debug, PartialEq, Eq, Structural)]
pub enum MovementDirection {
    Forward,
    Backward,
}

/// The operation code that spaces by `kind` in `direction`.
pub open spec fn space_op(kind: MovementType, direction: MovementDirection) -> i16 {
    match (kind, direction) {
        (MovementType::FileMark, MovementDirection::Forward) => MTFSF,
        (MovementType::FileMark, MovementDirection::Backward) => MTBSF,
        (MovementType::Record, MovementDirection::Forward) => MTFSR,
        (MovementType::Record, MovementDirection::Backward) => MTBSR,
    }
}

/// Picks the operation code for a spacing command.
pub fn space_code(kind: MovementType, direction: MovementDirection) -> (op: i16)
    ensures
        op == space_op(kind, direction),
{
    match kind {
        MovementType::FileMark => match direction {
            MovementDirection::Forward => MTFSF,
            MovementDirection::Backward => MTBSF,
        },
        MovementType::Record => match direction {
            MovementDirection::Forward => MTFSR,
            MovementDirection::Backward => MTBSR,
        },
    }
}

/// A spacing intent: the unit, the direction and how many units to pass. The
/// count is never negative; the direction alone says which way the tape moves.
#[derive(Clone, Copy, Debug)]
pub struct MovementDescriptor {
    kind: MovementType,
    direction: MovementDirection,
    count: i32,
}

impl MovementDescriptor {
    #[verifier::type_invariant]
    spec fn inv(self) -> bool {
        self.count >= 0
    }

    /// The unit to count in.
    pub closed spec fn spec_kind(self) -> MovementType {
        self.kind
    }

    /// The way to move.
    pub closed spec fn spec_direction(self) -> MovementDirection {
        self.direction
    }

    /// How many units to pass.
    pub closed spec fn spec_count(self) -> i32 {
        self.count
    }

    /// The command that the driver is to get for this intent.
    pub open spec fn spec_command(self) -> Mtop {
        Mtop {
            mt_op: space_op(self.spec_kind(), self.spec_direction()),
            mt_count: self.spec_count(),
        }
    }

    /// Describes a movement over `count` units. There is none for a negative
    /// count.
    pub fn new(kind: MovementType, direction: MovementDirection, count: i32) -> (m: Option<
        MovementDescriptor,
    >)
        ensures
            m is Some <==> count >= 0,
            m matches Some(d) ==> d.spec_kind() == kind && d.spec_direction() == direction
                && d.spec_count() == count,
    {
        if count < 0 {
            None
        } else {
            Some(MovementDescriptor { kind, direction, count })
        }
    }

    /// The unit to count in.
    #[verifier::when_used_as_spec(spec_kind)]
    pub fn kind(self) -> (k: MovementType)
        ensures
            k == self.spec_kind(),
    {
        self.kind
    }

    /// The way to move.
    #[verifier::when_used_as_spec(spec_direction)]
    pub fn direction(self) -> (d: MovementDirection)
        ensures
            d == self.spec_direction(),
    {
        self.direction
    }

    /// How many units to pass; never negative.
    #[verifier::when_used_as_spec(spec_count)]
    pub fn count(self) -> (c: i32)
        ensures
            c == self.spec_count(),
            c >= 0,
    {
        proof {
            use_type_invariant(self);
        }
        self.count
    }

    /// The command for the driver: the operation code of the unit and
    /// direction, and the count as it is.
    pub fn command(self) -> (op: Mtop)
        ensures
            op == self.spec_command(),
            op.mt_count >= 0,
    {
        proof {
            use_type_invariant(self);
        }
        Mtop { mt_op: space_code(self.kind, self.direction), mt_count: self.count }
    }
}

/// Two spacing commands share an operation code only if they agree in unit and
/// direction, and none of the four codes is a code of another command.
pub proof fn lemma_space_ops_distinct(
    k1: MovementType,
    d1: MovementDirection,
    k2: MovementType,
    d2: MovementDirection,
)
    ensures
        space_op(k1, d1) == space_op(k2, d2) <==> (k1 == k2 && d1 == d2),
        space_op(k1, d1) != MTRESET,
        space_op(k1, d1) != MTWEOF,
        space_op(k1, d1) != MTREW,
{
}

} // verus!
