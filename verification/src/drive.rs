//! Classification of the drive-type code found in a status record.

use vstd::prelude::*;

verus! {

/// Drive-type code: the driver does not know the drive.
pub const MT_ISUNKNOWN: i64 = 0x01;

/// Drive-type code: generic QIC-02 tape streamer.
pub const MT_ISQIC02: i64 = 0x02;

/// Drive-type code: generic ANSI SCSI-1 tape unit.
pub const MT_ISSCSI1: i64 = 0x71;

/// Drive-type code: generic ANSI SCSI-2 tape unit.
pub const MT_ISSCSI2: i64 = 0x72;

/// What kind of drive a status record speaks of.
#[derive(Clone, Copy, Debug, PartialEq, Eq, Structural)]
pub enum TapeType {
    /// The driver itself reports the type as unknown.
    Unknown,
    /// Generic QIC-02 tape streamer.
    Qic02,
    /// Generic ANSI SCSI tape unit, SCSI-1 or SCSI-2.
    Scsi,
    /// The code is in no row of the table.
    StillUnknown,
}

/// The rows of the drive-type table: a code and the class it stands for.
pub open spec fn drive_table() -> Seq<(i64, TapeType)> {
    seq![
        (MT_ISUNKNOWN, TapeType::Unknown),
        (MT_ISQIC02, TapeType::Qic02),
        (MT_ISSCSI1, TapeType::Scsi),
        (MT_ISSCSI2, TapeType::Scsi),
    ]
}

/// The class of the first row of `table` that holds `code`, or the fallback
/// class where no row does.
pub open spec fn lookup(table: Seq<(i64, TapeType)>, code: i64) -> TapeType
    decreases table.len(),
{
    if table.len() == 0 {
        TapeType::StillUnknown
    } else if table[0].0 == code {
        table[0].1
    } else {
        lookup(table.drop_first(), code)
    }
}

/// The class of a drive-type code.
pub open spec fn classification(code: i64) -> TapeType {
    lookup(drive_table(), code)
}

/// The drive-type table as a value.
pub fn table() -> (t: [(i64, TapeType); 4])
    ensures
        t@ == drive_table(),
{
    let t = [
        (MT_ISUNKNOWN, TapeType::Unknown),
        (MT_ISQIC02, TapeType::Qic02),
        (MT_ISSCSI1, TapeType::Scsi),
        (MT_ISSCSI2, TapeType::Scsi),
    ];
    assert(t@ =~= drive_table());
    t
}

/// Classifies a raw drive-type code. Every code has a class: one that the
/// table does not list is `StillUnknown`.
pub fn classify(code: i64) -> (t: TapeType)
    ensures
        t == classification(code),
{
    let rows = table();
    let mut i: usize = 0;
    assert(drive_table().skip(0) =~= drive_table());
    while i < 4
        invariant
            i <= 4,
            rows@ == drive_table(),
            lookup(drive_table(), code) == lookup(drive_table().skip(i as int), code),
        decreases 4 - i,
    {
        let row = rows[i];
        proof {
            let rest = drive_table().skip(i as int);
            assert(rest[0] == drive_table()[i as int]);
            assert(rest.drop_first() =~= drive_table().skip(i + 1));
        }
        if row.0 == code {
            return row.1;
        }
        i = i + 1;
    }
    assert(drive_table().skip(4).len() == 0);
    TapeType::StillUnknown
}

/// The table read row by row: the two SCSI codes share a class, the QIC-02
/// code and the driver's own "unknown" have one each, and every other code
/// falls to `StillUnknown`.
pub proof fn lemma_classification(code: i64)
    ensures
        code == MT_ISUNKNOWN ==> classification(code) == TapeType::Unknown,
        code == MT_ISQIC02 ==> classification(code) == TapeType::Qic02,
        code == MT_ISSCSI1 || code == MT_ISSCSI2 ==> classification(code) == TapeType::Scsi,
        code != MT_ISUNKNOWN && code != MT_ISQIC02 && code != MT_ISSCSI1 && code != MT_ISSCSI2
            ==> classification(code) == TapeType::StillUnknown,
{
    reveal_with_fuel(lookup, 5);
    let t = drive_table();
    assert(t.drop_first() =~= t.skip(1));
    assert(t.skip(1).drop_first() =~= t.skip(2));
    assert(t.skip(2).drop_first() =~= t.skip(3));
    assert(t.skip(3).drop_first() =~= t.skip(4));
    assert(t.skip(1)[0] == t[1]);
    assert(t.skip(2)[0] == t[2]);
    assert(t.skip(3)[0] == t[3]);
}

/// The words that describe a class of drive.
pub open spec fn description(t: TapeType) -> Seq<char> {
    match t {
        TapeType::Unknown => "Unknown"@,
        TapeType::Qic02 => "Generic QIC-02 tape streamer"@,
        TapeType::Scsi => "Generic ANSI SCSI tape unit"@,
        TapeType::StillUnknown => "Still unknown"@,
    }
}

impl TapeType {
    /// The class in words, as a status report prints it.
    pub fn name(self) -> (s: &'static str)
        ensures
            s@ == description(self),
    {
        match self {
            TapeType::Unknown => "Unknown",
            TapeType::Qic02 => "Generic QIC-02 tape streamer",
            TapeType::Scsi => "Generic ANSI SCSI tape unit",
            TapeType::StillUnknown => "Still unknown",
        }
    }
}

} // verus!
