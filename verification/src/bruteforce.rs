//! Finding a field offset by scanning an object: starting at its address, the
//! words four bytes apart are compared with a value known to be stored in the
//! field, and the first offset that holds it is the field's offset.
//!
//! A scan is a state machine: it names the address to read next, and is
//! told what was read there.
use vstd::prelude::*;
use crate::text::lower_hex;
use crate::text::to_lower_hex;
use vstd::string::StringExecFns;

verus! {

/// Distance between two probed offsets.
pub const SCAN_STRIDE: usize = 4;

/// The user id of the account the scans were calibrated with.
pub const KNOWN_USER_ID: u32 = 577625010;

/// The place id of the place the scans were calibrated in.
pub const KNOWN_PLACE_ID: i32 = 12109643;

/// A value looked for, or read, at a probed address, with its width.
#[derive(PartialEq, Eq, Structural, Clone, Copy)]
pub enum ScanValue {
    /// A pointer-sized word.
    Word(usize),
    /// An unsigned 32-bit integer.
    Dword(u32),
    /// A signed 32-bit integer.
    SignedDword(i32),
}

/// Whether `value` was read with the width of `target`.
pub open spec fn same_width(target: ScanValue, value: ScanValue) -> bool {
    match (target, value) {
        (ScanValue::Word(_), ScanValue::Word(_)) => true,
        (ScanValue::Dword(_), ScanValue::Dword(_)) => true,
        (ScanValue::SignedDword(_), ScanValue::SignedDword(_)) => true,
        _ => false,
    }
}

/// Which field a scan looks for; it decides the label of the report.
#[derive(PartialEq, Eq, Structural, Clone, Copy)]
pub enum ScanKind {
    Character,
    LocalPlayer,
    UserId,
    PlaceId,
}

/// The label that precedes the offset in the report of a scan.
pub open spec fn report_label(kind: ScanKind) -> Seq<char> {
    match kind {
        ScanKind::Character => "Player Character Offset "@,
        ScanKind::LocalPlayer => "Players LocalPlayer Offset "@,
        ScanKind::UserId => "Players UserID Offset "@,
        ScanKind::PlaceId => "Players PlaceID Offset "@,
    }
}

/// A scan of the object at `base` for the first offset holding `target`.
pub struct OffsetScan {
    pub kind: ScanKind,
    pub base: usize,
    pub target: ScanValue,
    /// The offset probed next, or, once found, the offset that held the target.
    pub offset: usize,
    pub found: bool,
    /// The values read so far, in order.
    pub seen: Ghost<Seq<ScanValue>>,
}

impl OffsetScan {
    /// The scan's state agrees with what it has read: every value but the one
    /// that ended it differed from the target, and the offset is four times
    /// the number of values read before it.
    pub open spec fn wf(&self) -> bool {
        if self.found {
            &&& self.seen@.len() > 0
            &&& self.offset == SCAN_STRIDE * (self.seen@.len() - 1)
            &&& self.seen@.last() == self.target
            &&& forall|i: int| 0 <= i < self.seen@.len() - 1 ==> self.seen@[i] != self.target
        } else {
            &&& self.offset == SCAN_STRIDE * self.seen@.len()
            &&& forall|i: int| 0 <= i < self.seen@.len() ==> self.seen@[i] != self.target
        }
    }

    /// A scan of the object at `base` for `target`, with nothing read yet.
    pub fn new(kind: ScanKind, base: usize, target: ScanValue) -> (r: Self)
        ensures
            r.wf(),
            r.kind == kind,
            r.base == base,
            r.target == target,
            r.offset == 0,
            !r.found,
            r.seen@ == Seq::<ScanValue>::empty(),
    {
        OffsetScan { kind, base, target, offset: 0, found: false, seen: Ghost(Seq::empty()) }
    }

    /// The address to read next: the object's address plus the offset probed.
    pub fn probe_address(&self) -> (r: usize)
        requires
            !self.found,
            self.base + self.offset <= usize::MAX,
        ensures
            r == self.base + self.offset,
    {
        self.base + self.offset
    }

    /// Takes the value read at the probed address. When it is the target the
    /// scan ends at this offset; otherwise it moves on four bytes.
    pub fn observe(&mut self, value: ScanValue) -> (found: bool)
        requires
            old(self).wf(),
            !old(self).found,
            same_width(old(self).target, value),
            value != old(self).target ==> old(self).offset + SCAN_STRIDE <= usize::MAX,
        ensures
            final(self).wf(),
            found == (value == old(self).target),
            final(self).found == found,
            final(self).kind == old(self).kind,
            final(self).base == old(self).base,
            final(self).target == old(self).target,
            final(self).seen@ == old(self).seen@.push(value),
            found ==> final(self).offset == old(self).offset,
            !found ==> final(self).offset == old(self).offset + SCAN_STRIDE,
    {
        let ghost before = self.seen@;
        self.seen = Ghost(before.push(value));
        if value == self.target {
            self.found = true;
            assert(self.seen@.drop_last() == before);
            true
        } else {
            self.offset = self.offset + SCAN_STRIDE;
            false
        }
    }

    /// The line the scan reports once it has found its offset: the label of
    /// its kind followed by the offset in lower-case hexadecimal.
    pub fn report(&self) -> (r: String)
        requires
            self.found,
        ensures
            r@ == report_label(self.kind) + lower_hex(self.offset as nat),
    {
        let mut line = match self.kind {
            ScanKind::Character => "Player Character Offset ".to_owned(),
            ScanKind::LocalPlayer => "Players LocalPlayer Offset ".to_owned(),
            ScanKind::UserId => "Players UserID Offset ".to_owned(),
            ScanKind::PlaceId => "Players PlaceID Offset ".to_owned(),
        };
        let digits = to_lower_hex(self.offset);
        line.append(digits.as_str());
        line
    }
}

/// The scan for the character field of the local player: the local player's
/// character is the workspace child that carries the local player's name.
pub fn character_offset_scan(localplayer: usize, character_in_workspace: usize) -> (r: OffsetScan)
    ensures
        r.wf(),
        !r.found,
        r.offset == 0,
        r.kind == ScanKind::Character,
        r.base == localplayer,
        r.target == ScanValue::Word(character_in_workspace),
{
    OffsetScan::new(ScanKind::Character, localplayer, ScanValue::Word(character_in_workspace))
}

/// The scan for the local player field of the players service.
pub fn localplayer_offset_scan(players: usize, localplayer: usize) -> (r: OffsetScan)
    ensures
        r.wf(),
        !r.found,
        r.offset == 0,
        r.kind == ScanKind::LocalPlayer,
        r.base == players,
        r.target == ScanValue::Word(localplayer),
{
    OffsetScan::new(ScanKind::LocalPlayer, players, ScanValue::Word(localplayer))
}

/// The scan for the user id field of the local player.
pub fn user_id_offset_scan(localplayer: usize) -> (r: OffsetScan)
    ensures
        r.wf(),
        !r.found,
        r.offset == 0,
        r.kind == ScanKind::UserId,
        r.base == localplayer,
        r.target == ScanValue::Dword(KNOWN_USER_ID),
{
    OffsetScan::new(ScanKind::UserId, localplayer, ScanValue::Dword(KNOWN_USER_ID))
}

/// The scan for the place id field of the data model.
pub fn place_id_offset_scan(datamodel: usize) -> (r: OffsetScan)
    ensures
        r.wf(),
        !r.found,
        r.offset == 0,
        r.kind == ScanKind::PlaceId,
        r.base == datamodel,
        r.target == ScanValue::SignedDword(KNOWN_PLACE_ID),
{
    OffsetScan::new(ScanKind::PlaceId, datamodel, ScanValue::SignedDword(KNOWN_PLACE_ID))
}

/// A scan that has ended reports the first offset, counting in steps of
/// four from the object's address, whose value was the target: the value
/// read there is the target and no value read before it is.
pub proof fn lemma_scan_finds_first_match(scan: OffsetScan)
    requires
        scan.wf(),
        scan.found,
    ensures
        scan.offset % SCAN_STRIDE == 0,
        scan.seen@[(scan.offset / SCAN_STRIDE) as int] == scan.target,
        forall|i: int| 0 <= i < (scan.offset / SCAN_STRIDE) as int ==> scan.seen@[i] != scan.target,
{
}

} // verus!
