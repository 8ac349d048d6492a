use vmpl::apic::{__prepare_icr, apic_get_id_for_cpu, apic_id_of, apic_init_rt_entry, apic_ipi_command, apic_setup, apic_table};
use vmpl::procmaps::{parse_number, parse_procmap_line};

#[test]
fn memory_map_line_with_path() {
    let e = parse_procmap_line("00400000-00452000 r-xp 00001000 08:02 173521      /usr/bin/dbus-daemon").unwrap();
    assert_eq!((e.begin, e.end, e.offset), (0x400000, 0x452000, 0x1000));
    assert_eq!((e.r, e.w, e.x, e.p), (true, false, true, true));
    assert_eq!((e.major, e.minor, e.inode), (8, 2, 173521));
    assert_eq!(e.path.as_deref(), Some("/usr/bin/dbus-daemon"));
}

#[test]
fn memory_map_line_without_path() {
    let e = parse_procmap_line("7ffd1000-7ffd3000 rw-s 00000000 00:00 0").unwrap();
    assert_eq!((e.r, e.w, e.x, e.p), (true, true, false, false));
    assert!(e.path.is_none());
    let e = parse_procmap_line("7ffd1000-7ffd3000 rw-p 00000000 00:00 0    ").unwrap();
    assert!(e.path.is_none());
    let e = parse_procmap_line("7ffd1000-7ffd3000 rw-p 00000000 fd:1a 0 [stack]").unwrap();
    assert_eq!((e.major, e.minor), (0xfd, 0x1a));
    assert_eq!(e.path.as_deref(), Some("[stack]"));
}

#[test]
fn memory_map_line_rejects_malformed() {
    assert!(parse_procmap_line("").is_none());
    assert!(parse_procmap_line("00400000 00452000 r-xp 00000000 08:02 1").is_none());
    assert!(parse_procmap_line("00400000-00452000 r-xp 00000000 08-02 1").is_none());
    assert!(parse_procmap_line("00400000-00452000 r-xp 100000000 08:02 1").is_none());
    assert!(parse_procmap_line("00400000-00452000 r-xp 00000000 08:02 1x").is_none());
    assert!(parse_procmap_line("10000000000000000-1 r-xp 0 0:0 0").is_none());
    assert!(parse_procmap_line("00400000-00452000 r-xp").is_none());
}

#[test]
fn numbers_in_both_bases() {
    assert_eq!(parse_number(b"ffz", 0, 16), Some((0xff, 2)));
    assert_eq!(parse_number(b"ffz", 0, 10), None);
    assert_eq!(parse_number(b"x123 ", 1, 10), Some((123, 4)));
    assert_eq!(parse_number(b"FfFfFfFfFfFfFfFf", 0, 16), Some((u64::MAX, 16)));
    assert_eq!(parse_number(b"18446744073709551616", 0, 10), None);
    assert_eq!(parse_number(b"18446744073709551615", 0, 10), Some((u64::MAX, 20)));
}

#[test]
fn interrupt_commands() {
    assert_eq!(__prepare_icr(0, 2, 0), 0x400);
    assert_eq!(__prepare_icr(0, 0x30, 0), 0x30);
    assert_eq!(__prepare_icr(0xc0000, 0xf1, 0x800), 0xc08f1);
    assert_eq!(apic_ipi_command(0x30, 5), (5u64 << 32) | 0x30);
    assert_eq!(apic_id_of(0x0300_0000_fee0_0900), 0xfe);
    assert_eq!(apic_id_of(0x0500_0000), 5);
}

#[test]
fn routing_table_lookup() {
    let mut t = apic_table(4);
    assert_eq!(t, vec![0, 0, 0, 0]);
    apic_init_rt_entry(&mut t, 2, 9);
    apic_init_rt_entry(&mut t, 7, 9);
    assert_eq!(t, vec![0, 0, 9, 0]);
    assert_eq!(apic_get_id_for_cpu(&t, 2), Some(9));
    assert_eq!(apic_get_id_for_cpu(&t, 4), None);
    let all = apic_setup();
    assert!(!all.is_empty());
    assert!(all.iter().all(|&e| e == 0));
}
