use std::io::Cursor;

use pi_image_builder::mbr::{create_partition_tables, parse_mbr, to_mbr_bytes, MbrError};
use pi_image_builder::partition::{
    boot_bytes_to_sectors, disk_total_sectors, get_next_lba_and_remainder, plan, PartitionEntry,
    PartitionTable, PlanError, BOOT_PARTITION_BYTES,
};

#[test]
fn plan_scenario_two_million_sectors() {
    let t = plan(2_000_000, 250 * 1024 * 1024).unwrap();
    assert_eq!(t.disk_signature, 0xffff_ffff);
    assert_eq!(t.entries.len(), 2);
    assert_eq!(
        t.entries[0],
        PartitionEntry { boot_flag: true, type_id: 0x0c, starting_sector: 4, sector_count: 512_000 }
    );
    assert_eq!(
        t.entries[1],
        PartitionEntry {
            boot_flag: false,
            type_id: 0x8e,
            starting_sector: 512_004,
            sector_count: 2_000_000 - 512_004,
        }
    );
}

#[test]
fn plan_covers_the_disk() {
    for (total, boot) in [(100u32, 1u64), (1000, 51_200), (5, 0), (10_485_760, BOOT_PARTITION_BYTES)] {
        let t = plan(total, boot).unwrap();
        let (b, d) = (t.entries[0], t.entries[1]);
        assert_eq!(b.starting_sector, 4);
        assert_eq!(d.starting_sector, 4 + b.sector_count);
        assert_eq!(4 + b.sector_count + d.sector_count, total);
        assert!(d.sector_count >= 1);
    }
}

#[test]
fn plan_rounds_boot_up_to_whole_sectors() {
    let t = plan(100, 513).unwrap();
    assert_eq!(t.entries[0].sector_count, 2);
    assert_eq!(t.entries[1].starting_sector, 6);
    assert_eq!(t.entries[1].sector_count, 94);
}

#[test]
fn plan_refuses_no_room_for_data() {
    // 10 sectors of boot at sector 4 end exactly at the end of a 14-sector disk.
    assert_eq!(
        plan(14, 10 * 512),
        Err(PlanError::NoRoomForData { disk_total_sectors: 14, boot_sectors: 10 })
    );
    assert_eq!(
        plan(14, 10 * 512 + 1),
        Err(PlanError::NoRoomForData { disk_total_sectors: 14, boot_sectors: 11 })
    );
    assert_eq!(plan(3, 0), Err(PlanError::NoRoomForData { disk_total_sectors: 3, boot_sectors: 0 }));
    assert_eq!(
        plan(u32::MAX, u64::MAX),
        Err(PlanError::NoRoomForData { disk_total_sectors: u32::MAX, boot_sectors: u64::MAX / 512 + 1 })
    );
    assert_eq!(plan(15, 10 * 512).unwrap().entries[1].sector_count, 1);
}

#[test]
fn boot_bytes_round_up() {
    assert_eq!(boot_bytes_to_sectors(0), 0);
    assert_eq!(boot_bytes_to_sectors(1), 1);
    assert_eq!(boot_bytes_to_sectors(512), 1);
    assert_eq!(boot_bytes_to_sectors(513), 2);
    assert_eq!(boot_bytes_to_sectors(BOOT_PARTITION_BYTES), 819_200);
}

#[test]
fn next_lba_follows_previous_partition() {
    let boot = PartitionEntry { boot_flag: true, type_id: 0x0c, starting_sector: 4, sector_count: 96 };
    assert_eq!(get_next_lba_and_remainder(1000, &boot), (100, 900));
}

#[test]
fn disk_sectors_of_image_sizes() {
    assert_eq!(disk_total_sectors(5 * 1024 * 1024 * 1024), 10_485_760);
    assert_eq!(disk_total_sectors(1023), 1);
    assert_eq!(disk_total_sectors(u64::MAX), u32::MAX);
}

fn table(entries: Vec<PartitionEntry>) -> PartitionTable {
    PartitionTable { disk_signature: 0x0403_0201, entries }
}

#[test]
fn mbr_bytes_layout() {
    let t = plan(2_000_000, 250 * 1024 * 1024).unwrap();
    let b = to_mbr_bytes(&t);
    assert_eq!(b.len(), 512);
    assert!(b[..440].iter().all(|&x| x == 0));
    assert_eq!(&b[440..446], &[0xff, 0xff, 0xff, 0xff, 0, 0]);
    assert_eq!(
        &b[446..462],
        &[0x80, 0, 0, 0, 0x0c, 0, 0, 0, 4, 0, 0, 0, 0x00, 0xd0, 0x07, 0x00]
    );
    // data: start 512004 = 0x0007_d004, count 1487996 = 0x0016_b47c
    assert_eq!(
        &b[462..478],
        &[0x00, 0, 0, 0, 0x8e, 0, 0, 0, 0x04, 0xd0, 0x07, 0x00, 0x7c, 0xb4, 0x16, 0x00]
    );
    assert!(b[478..510].iter().all(|&x| x == 0));
    assert_eq!(&b[510..], &[0x55, 0xaa]);
}

#[test]
fn mbr_round_trip_through_parser() {
    let entries = vec![
        PartitionEntry { boot_flag: false, type_id: 0x83, starting_sector: 2048, sector_count: 7 },
        PartitionEntry { boot_flag: true, type_id: 0x0c, starting_sector: 0xdead_beef, sector_count: u32::MAX },
        PartitionEntry { boot_flag: false, type_id: 0x8e, starting_sector: 1, sector_count: 0 },
    ];
    let t = table(entries.clone());
    let back = parse_mbr(&to_mbr_bytes(&t)).unwrap();
    assert_eq!(back.disk_signature, 0x0403_0201);
    assert_eq!(back.entries, entries);
}

#[test]
fn mbr_read_by_mbrman_matches_plan() {
    let t = plan(20_000, 1024 * 1024).unwrap();
    let mut disk = to_mbr_bytes(&t);
    disk.resize(20_000 * 512, 0);
    let mut cursor = Cursor::new(disk);
    let mbr = mbrman::MBR::read_from(&mut cursor, 512).unwrap();
    assert_eq!(mbr.header.disk_signature, [0xff, 0xff, 0xff, 0xff]);
    let boot = &mbr[1];
    assert_eq!((boot.boot, boot.sys, boot.starting_lba, boot.sectors), (0x80, 0x0c, 4, 2048));
    let data = &mbr[2];
    assert_eq!((data.boot, data.sys, data.starting_lba, data.sectors), (0x00, 0x8e, 2052, 20_000 - 2052));
    assert!(mbr[3].is_unused());
    assert!(mbr[4].is_unused());
}

#[test]
fn mbrman_written_table_is_parsed() {
    let mut cursor = Cursor::new(vec![0u8; 100 * 512]);
    let mut mbr = mbrman::MBR::new_from(&mut cursor, 512, [1, 2, 3, 4]).unwrap();
    mbr[1] = mbrman::MBRPartitionEntry {
        boot: mbrman::BOOT_ACTIVE,
        first_chs: mbrman::CHS::empty(),
        sys: 0x0c,
        last_chs: mbrman::CHS::empty(),
        starting_lba: 4,
        sectors: 10,
    };
    mbr[2] = mbrman::MBRPartitionEntry {
        boot: mbrman::BOOT_INACTIVE,
        first_chs: mbrman::CHS::empty(),
        sys: 0x8e,
        last_chs: mbrman::CHS::empty(),
        starting_lba: 14,
        sectors: 86,
    };
    mbr.write_into(&mut cursor).unwrap();
    let bytes = cursor.into_inner();
    let t = parse_mbr(&bytes[..512]).unwrap();
    assert_eq!(t.disk_signature, 0x0403_0201);
    assert_eq!(
        t.entries,
        vec![
            PartitionEntry { boot_flag: true, type_id: 0x0c, starting_sector: 4, sector_count: 10 },
            PartitionEntry { boot_flag: false, type_id: 0x8e, starting_sector: 14, sector_count: 86 },
        ]
    );
}

#[test]
fn parse_mbr_errors() {
    assert_eq!(parse_mbr(&[0u8; 511]).unwrap_err(), MbrError::TooShort);
    assert_eq!(parse_mbr(&[0u8; 512]).unwrap_err(), MbrError::BadSignature);
    let mut b = to_mbr_bytes(&plan(100, 512).unwrap());
    b[478] = 0x01;
    assert_eq!(parse_mbr(&b).unwrap_err(), MbrError::InvalidBootFlag);
}

#[test]
fn create_partition_tables_for_five_gib() {
    let b = create_partition_tables(5 * 1024 * 1024 * 1024, BOOT_PARTITION_BYTES).unwrap();
    let t = parse_mbr(&b).unwrap();
    assert_eq!(t.entries[0].sector_count, 819_200);
    assert_eq!(t.entries[1].starting_sector, 819_204);
    assert_eq!(t.entries[1].sector_count, 10_485_760 - 819_204);
    assert_eq!(
        create_partition_tables(400 * 1024 * 1024, BOOT_PARTITION_BYTES).unwrap_err(),
        PlanError::NoRoomForData { disk_total_sectors: 819_200, boot_sectors: 819_200 }
    );
}
