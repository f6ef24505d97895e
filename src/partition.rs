use vstd::prelude::*;

verus! {

/// Bytes in one sector of the image.
pub const SECTOR_SIZE: u64 = 512;

/// First sector of the boot partition; the sectors before it hold the MBR
/// and alignment padding.
pub const BOOT_START_SECTOR: u32 = 4;

/// Partition type of the boot partition: W95 FAT32 (LBA).
pub const FAT32_LBA_TYPE: u8 = 0x0c;

/// Partition type of the data partition: Linux LVM.
pub const LVM_TYPE: u8 = 0x8e;

/// Disk signature written into every planned table.
pub const DISK_SIGNATURE: u32 = 0xffff_ffff;

/// Size of the boot partition of a built image, in bytes (400 MiB).
pub const BOOT_PARTITION_BYTES: u64 = 400 * 1024 * 1024;

/// Sectors of a disk image of `image_bytes` bytes: whole sectors only,
/// capped at the largest count an MBR can address.
pub open spec fn disk_sectors_spec(image_bytes: nat) -> nat {
    if image_bytes / 512 > u32::MAX {
        u32::MAX as nat
    } else {
        image_bytes / 512
    }
}

/// The number of sectors an MBR records for an image of `image_bytes` bytes.
pub fn disk_total_sectors(image_bytes: u64) -> (r: u32)
    ensures
        r == disk_sectors_spec(image_bytes as nat),
{
    let sectors = image_bytes / SECTOR_SIZE;
    if sectors > u32::MAX as u64 {
        u32::MAX
    } else {
        sectors as u32
    }
}

/// One primary partition of an MBR table.
#[derive(Clone, Copy, Debug, PartialEq, Eq, Structural)]
pub struct PartitionEntry {
    pub boot_flag: bool,
    pub type_id: u8,
    pub starting_sector: u32,
    pub sector_count: u32,
}

/// A partition table: a disk signature and the used primary entries, in
/// slot order.
#[derive(Clone, Debug, PartialEq, Eq)]
pub struct PartitionTable {
    pub disk_signature: u32,
    pub entries: Vec<PartitionEntry>,
}

/// Mathematical model of a [`PartitionTable`].
pub struct PartitionTableView {
    pub disk_signature: u32,
    pub entries: Seq<PartitionEntry>,
}

impl View for PartitionTable {
    type V = PartitionTableView;

    open spec fn view(&self) -> PartitionTableView {
        PartitionTableView { disk_signature: self.disk_signature, entries: self.entries@ }
    }
}

/// Why a layout cannot be planned.
#[derive(Clone, Copy, Debug, PartialEq, Eq, Structural)]
pub enum PlanError {
    /// The boot partition leaves no sector for the data partition.
    NoRoomForData { disk_total_sectors: u32, boot_sectors: u64 },
}

/// Number of whole sectors needed to hold `bytes` bytes.
pub open spec fn sectors_for(bytes: nat) -> nat {
    ((bytes + 511) / 512) as nat
}

/// A request can be planned when the boot partition, placed at its fixed
/// start, leaves at least one sector for the data partition.
pub open spec fn plan_fits(disk_total_sectors: nat, boot_size_bytes: nat) -> bool {
    BOOT_START_SECTOR + sectors_for(boot_size_bytes) < disk_total_sectors
}

/// The boot entry of a plan.
pub open spec fn planned_boot(boot_size_bytes: nat) -> PartitionEntry {
    PartitionEntry {
        boot_flag: true,
        type_id: FAT32_LBA_TYPE,
        starting_sector: BOOT_START_SECTOR,
        sector_count: sectors_for(boot_size_bytes) as u32,
    }
}

/// The data entry of a plan: from the end of the boot partition to the end
/// of the disk.
pub open spec fn planned_data(disk_total_sectors: nat, boot_size_bytes: nat) -> PartitionEntry {
    let start = BOOT_START_SECTOR + sectors_for(boot_size_bytes);
    PartitionEntry {
        boot_flag: false,
        type_id: LVM_TYPE,
        starting_sector: start as u32,
        sector_count: (disk_total_sectors - start) as u32,
    }
}

/// Rounds a byte count up to whole sectors.
pub fn boot_bytes_to_sectors(bytes: u64) -> (r: u64)
    ensures
        r == sectors_for(bytes as nat),
{
    let whole = bytes / SECTOR_SIZE;
    if bytes % SECTOR_SIZE != 0 {
        whole + 1
    } else {
        whole
    }
}

/// Where the partition after `previous` starts, and how many sectors are left
/// for it up to the end of a disk of `disk_total_sectors` sectors.
pub fn get_next_lba_and_remainder(disk_total_sectors: u32, previous: &PartitionEntry) -> (r: (
    u32,
    u32,
))
    requires
        previous.starting_sector + previous.sector_count <= disk_total_sectors,
    ensures
        r.0 == previous.starting_sector + previous.sector_count,
        r.1 == disk_total_sectors - r.0,
{
    let starting = previous.starting_sector + previous.sector_count;
    (starting, disk_total_sectors - starting)
}

/// Lays out a bootable disk of `disk_total_sectors` sectors: a bootable FAT32
/// partition of `boot_size_bytes` (rounded up to whole sectors) at sector 4,
/// then an LVM partition over every remaining sector.
pub fn plan(disk_total_sectors: u32, boot_size_bytes: u64) -> (r: Result<
    PartitionTable,
    PlanError,
>)
    ensures
        r is Ok <==> plan_fits(disk_total_sectors as nat, boot_size_bytes as nat),
        r matches Ok(t) ==> {
            &&& t@.disk_signature == DISK_SIGNATURE
            &&& t@.entries == seq![
                planned_boot(boot_size_bytes as nat),
                planned_data(disk_total_sectors as nat, boot_size_bytes as nat),
            ]
        },
        r matches Err(e) ==> e == (PlanError::NoRoomForData {
            disk_total_sectors,
            boot_sectors: sectors_for(boot_size_bytes as nat) as u64,
        }),
{
    let boot_sectors = boot_bytes_to_sectors(boot_size_bytes);
    if boot_sectors >= disk_total_sectors as u64 || BOOT_START_SECTOR as u64 + boot_sectors
        >= disk_total_sectors as u64 {
        return Err(PlanError::NoRoomForData { disk_total_sectors, boot_sectors });
    }
    let boot = PartitionEntry {
        boot_flag: true,
        type_id: FAT32_LBA_TYPE,
        starting_sector: BOOT_START_SECTOR,
        sector_count: boot_sectors as u32,
    };
    let (data_start, data_sectors) = get_next_lba_and_remainder(disk_total_sectors, &boot);
    let data = PartitionEntry {
        boot_flag: false,
        type_id: LVM_TYPE,
        starting_sector: data_start,
        sector_count: data_sectors,
    };
    let mut entries: Vec<PartitionEntry> = Vec::new();
    entries.push(boot);
    entries.push(data);
    Ok(PartitionTable { disk_signature: DISK_SIGNATURE, entries })
}

/// A planned layout puts the boot partition at sector 4, starts the data
/// partition right where the boot partition ends, and covers the disk: the
/// four leading sectors, the boot sectors and the data sectors add up to the
/// whole disk.
pub proof fn lemma_plan_covers_disk(disk_total_sectors: u32, boot_size_bytes: u64)
    requires
        plan_fits(disk_total_sectors as nat, boot_size_bytes as nat),
    ensures
        ({
            let boot = planned_boot(boot_size_bytes as nat);
            let data = planned_data(disk_total_sectors as nat, boot_size_bytes as nat);
            &&& boot.starting_sector == BOOT_START_SECTOR
            &&& boot.sector_count == sectors_for(boot_size_bytes as nat)
            &&& data.starting_sector == BOOT_START_SECTOR + boot.sector_count
            &&& data.sector_count >= 1
            &&& BOOT_START_SECTOR + boot.sector_count + data.sector_count == disk_total_sectors
        }),
{
}

} // verus!
