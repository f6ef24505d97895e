use vstd::prelude::*;

use crate::partition::{
    disk_sectors_spec, disk_total_sectors, plan, plan_fits, planned_boot, planned_data,
    PartitionEntry, PartitionTable, PartitionTableView, PlanError, DISK_SIGNATURE,
};

verus! {

/// Length of the MBR sector.
pub const MBR_SIZE: usize = 512;

/// Offset of the disk signature in the MBR sector.
pub const SIGNATURE_OFFSET: usize = 440;

/// Offset of the first of the four primary partition slots.
pub const SLOTS_OFFSET: usize = 446;

/// Length of one partition slot.
pub const SLOT_SIZE: usize = 16;

/// Boot flag byte of an active (bootable) partition.
pub const BOOT_ACTIVE: u8 = 0x80;

/// Boot flag byte of an inactive partition.
pub const BOOT_INACTIVE: u8 = 0x00;

/// Why a sector is not a readable MBR.
#[derive(Clone, Copy, Debug, PartialEq, Eq, Structural)]
pub enum MbrError {
    /// Fewer than 512 bytes.
    TooShort,
    /// The last two bytes are not 0x55 0xAA.
    BadSignature,
    /// A slot's boot flag is neither 0x80 nor 0x00.
    InvalidBootFlag,
}

/// `x` as four little-endian bytes.
pub open spec fn le32(x: u32) -> Seq<u8> {
    seq![
        (x & 0xff) as u8,
        ((x >> 8u32) & 0xff) as u8,
        ((x >> 16u32) & 0xff) as u8,
        ((x >> 24u32) & 0xff) as u8,
    ]
}

/// The little-endian `u32` at `at` in `b`.
pub open spec fn read_le32(b: Seq<u8>, at: int) -> u32 {
    (b[at] as u32) | ((b[at + 1] as u32) << 8u32) | ((b[at + 2] as u32) << 16u32) | ((
    b[at + 3] as u32) << 24u32)
}

/// `n` zero bytes.
pub open spec fn zeros(n: nat) -> Seq<u8> {
    Seq::new(n, |_i: int| 0u8)
}

pub open spec fn boot_byte(active: bool) -> u8 {
    if active {
        BOOT_ACTIVE
    } else {
        BOOT_INACTIVE
    }
}

/// The sixteen bytes of a partition slot: boot flag, empty CHS address,
/// type, empty CHS address, first sector, sector count.
pub open spec fn entry_bytes(e: PartitionEntry) -> Seq<u8> {
    seq![boot_byte(e.boot_flag), 0u8, 0u8, 0u8, e.type_id, 0u8, 0u8, 0u8] + le32(e.starting_sector)
        + le32(e.sector_count)
}

/// Slot `i` of a table: its entry, or sixteen zero bytes when unused.
pub open spec fn slot_bytes(entries: Seq<PartitionEntry>, i: int) -> Seq<u8> {
    if i < entries.len() {
        entry_bytes(entries[i])
    } else {
        zeros(16)
    }
}

/// The MBR sector of a table: empty boot code, disk signature, two zero
/// bytes, four partition slots, then the boot signature 0x55 0xAA.
pub open spec fn mbr_bytes(t: PartitionTableView) -> Seq<u8> {
    zeros(440) + le32(t.disk_signature) + zeros(2) + slot_bytes(t.entries, 0) + slot_bytes(
        t.entries,
        1,
    ) + slot_bytes(t.entries, 2) + slot_bytes(t.entries, 3) + seq![0x55u8, 0xaau8]
}

/// A table fits an MBR: at most four entries, each of them used (a type of
/// zero marks an empty slot).
pub open spec fn table_fits_mbr(t: PartitionTableView) -> bool {
    &&& t.entries.len() <= 4
    &&& forall|i: int| 0 <= i < t.entries.len() ==> #[trigger] t.entries[i].type_id != 0
}

pub open spec fn slot_offset(i: int) -> int {
    SLOTS_OFFSET + SLOT_SIZE * i
}

pub open spec fn slot_boot(b: Seq<u8>, i: int) -> u8 {
    b[slot_offset(i)]
}

pub open spec fn slot_type(b: Seq<u8>, i: int) -> u8 {
    b[slot_offset(i) + 4]
}

pub open spec fn slot_boot_valid(b: Seq<u8>, i: int) -> bool {
    slot_boot(b, i) == BOOT_ACTIVE || slot_boot(b, i) == BOOT_INACTIVE
}

/// The entry that slot `i` of `b` describes.
pub open spec fn slot_entry(b: Seq<u8>, i: int) -> PartitionEntry {
    PartitionEntry {
        boot_flag: slot_boot(b, i) == BOOT_ACTIVE,
        type_id: slot_type(b, i),
        starting_sector: read_le32(b, slot_offset(i) + 8),
        sector_count: read_le32(b, slot_offset(i) + 12),
    }
}

/// The used entries of slots `i` to 3, in slot order.
pub open spec fn used_entries_from(b: Seq<u8>, i: int) -> Seq<PartitionEntry>
    decreases 4 - i,
{
    if i >= 4 || i < 0 {
        seq![]
    } else if slot_type(b, i) == 0 {
        used_entries_from(b, i + 1)
    } else {
        seq![slot_entry(b, i)] + used_entries_from(b, i + 1)
    }
}

/// What is wrong with `b` as an MBR sector, if anything.
pub open spec fn mbr_error(b: Seq<u8>) -> Option<MbrError> {
    if b.len() < MBR_SIZE {
        Some(MbrError::TooShort)
    } else if b[510] != 0x55 || b[511] != 0xaa {
        Some(MbrError::BadSignature)
    } else if !(slot_boot_valid(b, 0) && slot_boot_valid(b, 1) && slot_boot_valid(b, 2)
        && slot_boot_valid(b, 3)) {
        Some(MbrError::InvalidBootFlag)
    } else {
        None
    }
}

/// The table that a well-formed MBR sector describes.
pub open spec fn parsed_table(b: Seq<u8>) -> PartitionTableView {
    PartitionTableView {
        disk_signature: read_le32(b, SIGNATURE_OFFSET as int),
        entries: used_entries_from(b, 0),
    }
}

fn push_zeros(out: &mut Vec<u8>, n: usize)
    ensures
        final(out)@ == old(out)@ + zeros(n as nat),
{
    let ghost start = out@;
    let mut i: usize = 0;
    while i < n
        invariant
            i <= n,
            out@ == start + zeros(i as nat),
        decreases n - i,
    {
        out.push(0u8);
        i = i + 1;
        assert(out@ =~= start + zeros(i as nat));
    }
}

fn push_le32(out: &mut Vec<u8>, x: u32)
    ensures
        final(out)@ == old(out)@ + le32(x),
{
    out.push((x & 0xff) as u8);
    out.push(((x >> 8u32) & 0xff) as u8);
    out.push(((x >> 16u32) & 0xff) as u8);
    out.push(((x >> 24u32) & 0xff) as u8);
    assert(final(out)@ =~= old(out)@ + le32(x));
}

fn push_slot(out: &mut Vec<u8>, entries: &Vec<PartitionEntry>, i: usize)
    ensures
        final(out)@ == old(out)@ + slot_bytes(entries@, i as int),
{
    if i < entries.len() {
        let e = entries[i];
        let flag = if e.boot_flag {
            BOOT_ACTIVE
        } else {
            BOOT_INACTIVE
        };
        out.push(flag);
        push_zeros(out, 3);
        out.push(e.type_id);
        push_zeros(out, 3);
        push_le32(out, e.starting_sector);
        push_le32(out, e.sector_count);
        assert(final(out)@ =~= old(out)@ + entry_bytes(e));
    } else {
        push_zeros(out, 16);
    }
}

/// The 512-byte MBR sector that describes `table`.
pub fn to_mbr_bytes(table: &PartitionTable) -> (r: Vec<u8>)
    ensures
        r@ == mbr_bytes(table@),
{
    let mut out: Vec<u8> = Vec::new();
    push_zeros(&mut out, 440);
    push_le32(&mut out, table.disk_signature);
    push_zeros(&mut out, 2);
    push_slot(&mut out, &table.entries, 0);
    push_slot(&mut out, &table.entries, 1);
    push_slot(&mut out, &table.entries, 2);
    push_slot(&mut out, &table.entries, 3);
    out.push(0x55u8);
    out.push(0xaau8);
    assert(out@ =~= mbr_bytes(table@));
    out
}

fn read_u32_le(b: &[u8], at: usize) -> (r: u32)
    requires
        at + 4 <= b@.len(),
    ensures
        r == read_le32(b@, at as int),
{
    (b[at] as u32) | ((b[at + 1] as u32) << 8u32) | ((b[at + 2] as u32) << 16u32) | ((b[at
        + 3] as u32) << 24u32)
}

fn boot_flag_valid(b: &[u8], i: usize) -> (r: bool)
    requires
        b@.len() >= MBR_SIZE,
        i < 4,
    ensures
        r == slot_boot_valid(b@, i as int),
{
    let flag = b[SLOTS_OFFSET + SLOT_SIZE * i];
    flag == BOOT_ACTIVE || flag == BOOT_INACTIVE
}

/// Reads the partition table from an MBR sector (the first 512 bytes of
/// `bytes`). Unused slots (type zero) are left out.
pub fn parse_mbr(bytes: &[u8]) -> (r: Result<PartitionTable, MbrError>)
    ensures
        r is Ok <==> mbr_error(bytes@) is None,
        r matches Err(e) ==> mbr_error(bytes@) == Some(e),
        r matches Ok(t) ==> t@ == parsed_table(bytes@),
{
    if bytes.len() < MBR_SIZE {
        return Err(MbrError::TooShort);
    }
    if bytes[510] != 0x55u8 || bytes[511] != 0xaau8 {
        return Err(MbrError::BadSignature);
    }
    if !(boot_flag_valid(bytes, 0) && boot_flag_valid(bytes, 1) && boot_flag_valid(bytes, 2)
        && boot_flag_valid(bytes, 3)) {
        return Err(MbrError::InvalidBootFlag);
    }
    let mut entries: Vec<PartitionEntry> = Vec::new();
    let mut i: usize = 0;
    while i < 4
        invariant
            i <= 4,
            bytes@.len() >= MBR_SIZE,
            entries@ + used_entries_from(bytes@, i as int) == used_entries_from(bytes@, 0),
        decreases 4 - i,
    {
        let off = SLOTS_OFFSET + SLOT_SIZE * i;
        let type_id = bytes[off + 4];
        if type_id != 0 {
            let e = PartitionEntry {
                boot_flag: bytes[off] == BOOT_ACTIVE,
                type_id,
                starting_sector: read_u32_le(bytes, off + 8),
                sector_count: read_u32_le(bytes, off + 12),
            };
            assert(e == slot_entry(bytes@, i as int));
            proof {
                assert(entries@.push(e) + used_entries_from(bytes@, i + 1) =~= entries@ + (seq![e]
                    + used_entries_from(bytes@, i + 1)));
            }
            entries.push(e);
        }
        i = i + 1;
    }
    assert(entries@ =~= entries@ + used_entries_from(bytes@, 4));
    Ok(PartitionTable { disk_signature: read_u32_le(bytes, SIGNATURE_OFFSET), entries })
}

proof fn lemma_le32_round_trip(x: u32)
    ensures
        read_le32(le32(x), 0) == x,
{
    let b = le32(x);
    assert(((x & 0xff) as u8) as u32 == x & 0xff) by (bit_vector);
    assert((((x >> 8u32) & 0xff) as u8) as u32 == (x >> 8u32) & 0xff) by (bit_vector);
    assert((((x >> 16u32) & 0xff) as u8) as u32 == (x >> 16u32) & 0xff) by (bit_vector);
    assert((((x >> 24u32) & 0xff) as u8) as u32 == (x >> 24u32) & 0xff) by (bit_vector);
    assert((x & 0xff) | (((x >> 8u32) & 0xff) << 8u32) | (((x >> 16u32) & 0xff) << 16u32) | (((x
        >> 24u32) & 0xff) << 24u32) == x) by (bit_vector);
}

proof fn lemma_read_le32_at(b: Seq<u8>, at: int, x: u32)
    requires
        0 <= at,
        at + 4 <= b.len(),
        b.subrange(at, at + 4) == le32(x),
    ensures
        read_le32(b, at) == x,
{
    lemma_le32_round_trip(x);
    assert(b[at] == le32(x)[0]);
    assert(b[at + 1] == le32(x)[1]);
    assert(b[at + 2] == le32(x)[2]);
    assert(b[at + 3] == le32(x)[3]);
}

proof fn lemma_slot_reads_back(b: Seq<u8>, t: PartitionTableView, i: int)
    requires
        table_fits_mbr(t),
        0 <= i < 4,
        slot_offset(i) + 16 <= b.len(),
        b.subrange(slot_offset(i), slot_offset(i) + 16) == slot_bytes(t.entries, i),
    ensures
        slot_boot_valid(b, i),
        i < t.entries.len() ==> slot_type(b, i) != 0 && slot_entry(b, i) == t.entries[i],
        i >= t.entries.len() ==> slot_type(b, i) == 0,
{
    let off = slot_offset(i);
    let s = slot_bytes(t.entries, i);
    assert(b[off] == s[0]);
    assert(b[off + 4] == s[4]);
    if i < t.entries.len() {
        let e = t.entries[i];
        assert forall|k: int| 0 <= k < 16 implies b[off + k] == s[k] by {
            assert(b.subrange(off, off + 16)[k] == b[off + k]);
        }
        assert(b.subrange(off + 8, off + 12) =~= le32(e.starting_sector)) by {
            assert(s.subrange(8, 12) =~= le32(e.starting_sector));
        }
        assert(b.subrange(off + 12, off + 16) =~= le32(e.sector_count)) by {
            assert(s.subrange(12, 16) =~= le32(e.sector_count));
        }
        lemma_read_le32_at(b, off + 8, e.starting_sector);
        lemma_read_le32_at(b, off + 12, e.sector_count);
    }
}

/// Writing a table into an MBR sector and reading the sector back gives the
/// same table: the same disk signature and the same entries, with the same
/// boot flags, types, first sectors and sector counts, in the same order.
pub proof fn lemma_mbr_round_trip(t: PartitionTableView)
    requires
        table_fits_mbr(t),
    ensures
        mbr_error(mbr_bytes(t)) is None,
        parsed_table(mbr_bytes(t)) == t,
{
    let b = mbr_bytes(t);
    assert(b.len() == 512);
    assert(b.subrange(440, 444) =~= le32(t.disk_signature));
    lemma_read_le32_at(b, 440, t.disk_signature);
    assert(b.subrange(446, 462) =~= slot_bytes(t.entries, 0));
    assert(b.subrange(462, 478) =~= slot_bytes(t.entries, 1));
    assert(b.subrange(478, 494) =~= slot_bytes(t.entries, 2));
    assert(b.subrange(494, 510) =~= slot_bytes(t.entries, 3));
    lemma_slot_reads_back(b, t, 0);
    lemma_slot_reads_back(b, t, 1);
    lemma_slot_reads_back(b, t, 2);
    lemma_slot_reads_back(b, t, 3);
    assert(b[510] == 0x55);
    assert(b[511] == 0xaa);
    let n = t.entries.len() as int;
    assert(used_entries_from(b, 4) =~= Seq::<PartitionEntry>::empty());
    assert(used_entries_from(b, 3) =~= if 3 < n { t.entries.subrange(3, n) } else { seq![] });
    assert(used_entries_from(b, 2) =~= if 2 < n { t.entries.subrange(2, n) } else { seq![] });
    assert(used_entries_from(b, 1) =~= if 1 < n { t.entries.subrange(1, n) } else { seq![] });
    assert(used_entries_from(b, 0) =~= if 0 < n { t.entries.subrange(0, n) } else { seq![] });
    assert(used_entries_from(b, 0) =~= t.entries);
}

/// The MBR sector to write at the start of an image of `image_bytes`
/// bytes, with a boot partition of `boot_size_bytes`; an MBR reader finds in
/// it exactly the planned boot and data partitions.
pub fn create_partition_tables(image_bytes: u64, boot_size_bytes: u64) -> (r: Result<
    Vec<u8>,
    PlanError,
>)
    ensures
        r is Ok <==> plan_fits(disk_sectors_spec(image_bytes as nat), boot_size_bytes as nat),
        r matches Ok(b) ==> {
            let sectors = disk_sectors_spec(image_bytes as nat);
            &&& b@.len() == MBR_SIZE
            &&& mbr_error(b@) is None
            &&& parsed_table(b@).disk_signature == DISK_SIGNATURE
            &&& parsed_table(b@).entries == seq![
                planned_boot(boot_size_bytes as nat),
                planned_data(sectors, boot_size_bytes as nat),
            ]
        },
{
    let sectors = disk_total_sectors(image_bytes);
    match plan(sectors, boot_size_bytes) {
        Ok(table) => {
            let bytes = to_mbr_bytes(&table);
            proof {
                assert(table_fits_mbr(table@));
                lemma_mbr_round_trip(table@);
            }
            Ok(bytes)
        },
        Err(e) => Err(e),
    }
}

} // verus!
