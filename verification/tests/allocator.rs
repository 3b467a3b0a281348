use tavern_kernel::allocator::bin::{bin_size_fn, k_value_usize};
use tavern_kernel::allocator::bump;
use tavern_kernel::allocator::util::{align_down, align_up, checked_align_up, is_power_of_two};
use tavern_kernel::allocator::{memory_map, Allocator};
use tavern_kernel::atags::raw::{kind_of, Core, Kind, Mem, CMDLINE, CORE, MEM, NONE};
use tavern_kernel::atags::Atag;

#[test]
fn powers_of_two_are_recognised() {
    assert!(!is_power_of_two(0));
    assert!(is_power_of_two(1));
    assert!(is_power_of_two(2));
    assert!(!is_power_of_two(3));
    assert!(is_power_of_two(4));
    assert!(!is_power_of_two(6));
    assert!(is_power_of_two(1 << 20));
    assert!(!is_power_of_two((1 << 20) + 1));
    assert!(is_power_of_two(1 << (usize::BITS - 1)));
    assert!(!is_power_of_two(usize::MAX));
}

#[test]
fn align_down_gives_the_multiple_at_or_below() {
    assert_eq!(align_down(0, 2), 0);
    assert_eq!(align_down(0, 8), 0);
    assert_eq!(align_down(19, 8), 16);
    assert_eq!(align_down(16, 8), 16);
    assert_eq!(align_down(15, 16), 0);
    assert_eq!(align_down(0xffff, 0x1000), 0xf000);
    assert_eq!(align_down(7, 1), 7);
    assert_eq!(align_down(usize::MAX, 2), usize::MAX - 1);
}

#[test]
fn align_up_gives_the_multiple_at_or_above() {
    assert_eq!(align_up(0, 2), 0);
    assert_eq!(align_up(0, 8), 0);
    assert_eq!(align_up(19, 8), 24);
    assert_eq!(align_up(16, 8), 16);
    assert_eq!(align_up(1, 16), 16);
    assert_eq!(align_up(0xf001, 0x1000), 0x1_0000);
    assert_eq!(align_up(7, 1), 7);
    assert_eq!(align_up(usize::MAX, 1), usize::MAX);
}

#[test]
fn size_classes_start_at_eight_bytes() {
    assert_eq!(k_value_usize(0), 0);
    assert_eq!(k_value_usize(2), 0);
    assert_eq!(k_value_usize(3), 0);
    assert_eq!(k_value_usize(4), 1);
    assert_eq!(k_value_usize(20), 17);
    assert_eq!(bin_size_fn(0), 8);
    assert_eq!(bin_size_fn(1), 16);
    assert_eq!(bin_size_fn(17), 1 << 20);
    assert_eq!(bin_size_fn(28), 1 << 31);
}

#[test]
fn bump_allocator_hands_out_blocks_front_to_back() {
    let mut allocator = bump::Allocator::new(0x1001, 0x2000);
    assert_eq!(allocator.allocate(0x10, 8), Some(0x1008));
    assert_eq!(allocator.allocate(1, 1), Some(0x1018));
    assert_eq!(allocator.allocate(0x100, 0x100), Some(0x1100));
    assert_eq!(allocator.allocate(0xe01, 1), None);
    assert_eq!(allocator.allocate(0x100, 0x1000), None);
    assert_eq!(allocator.allocate(0xe00, 1), Some(0x1200));
    assert_eq!(allocator.allocate(1, 1), None);
    assert_eq!(allocator.allocate(0, 1), Some(0x2000));
}

#[test]
fn bump_allocator_does_not_reuse_memory() {
    let mut allocator = bump::Allocator::new(0, 0x100);
    assert_eq!(allocator.allocate(0x80, 16), Some(0));
    allocator.deallocate(0, 0x80, 16);
    assert_eq!(allocator.allocate(0x80, 16), Some(0x80));
    allocator.deallocate(0x80, 0x80, 16);
    assert_eq!(allocator.allocate(0x80, 16), None);
}

#[test]
fn bump_allocator_is_exhausted_at_the_end_of_the_address_space() {
    let mut allocator = bump::Allocator::new(usize::MAX - 2, usize::MAX);
    assert_eq!(allocator.allocate(1, 8), None);
    assert_eq!(allocator.allocate(3, 1), None);
    assert_eq!(allocator.allocate(2, 1), Some(usize::MAX - 2));
}

#[test]
fn memory_map_takes_the_first_memory_record() {
    let atags = vec![
        Atag::Core(Core { flags: 0, page_size: 4096, root_dev: 0 }),
        Atag::Unknown(0x5441_0003),
        Atag::Mem(Mem { size: 0x3c00_0000, start: 0x1000 }),
        Atag::Mem(Mem { size: 1, start: 2 }),
        Atag::Cmd("console=ttyAMA0"),
    ];
    assert_eq!(memory_map(0x9_0000, &atags), Some((0x9_0000, 0x3bff_f000)));
}

#[test]
fn memory_map_needs_a_memory_record() {
    assert_eq!(memory_map(0x9_0000, &Vec::new()), None);
    let atags = vec![Atag::Cmd("quiet"), Atag::End, Atag::Unknown(7)];
    assert_eq!(memory_map(0x9_0000, &atags), None);
}

#[test]
fn allocator_is_set_up_from_the_memory_map() {
    let mut allocator = Allocator::uninitialized();
    assert!(!allocator.is_initialized());
    let atags = vec![Atag::Mem(Mem { size: 0x20_0000, start: 0 })];
    allocator.initialize(0x10_0001, &atags);
    assert!(allocator.is_initialized());
    assert_eq!(allocator.allocate(0x8_0000, 16), Some(0x10_0010));
    assert_eq!(allocator.allocate(0x8_0000, 16), None);
    allocator.deallocate(0x10_0010, 0x8_0000, 16);
    assert_eq!(allocator.allocate(0x7_fff0, 16), Some(0x18_0010));
    assert_eq!(allocator.allocate(1, 1), None);
}

#[test]
fn atag_accessors_pick_their_own_kind() {
    let core = Core { flags: 1, page_size: 4096, root_dev: 2 };
    let mem = Mem { size: 0x1000, start: 0x2000 };
    assert_eq!(Atag::Core(core).as_core(), Some(core));
    assert_eq!(Atag::Core(core).mem(), None);
    assert_eq!(Atag::Core(core).cmd(), None);
    assert_eq!(Atag::Mem(mem).mem(), Some(mem));
    assert_eq!(Atag::Mem(mem).as_core(), None);
    assert_eq!(Atag::Mem(mem).cmd(), None);
    assert_eq!(Atag::Cmd("root=/dev/sda").cmd(), Some("root=/dev/sda"));
    assert_eq!(Atag::Cmd("root=/dev/sda").mem(), None);
    for atag in [Atag::Unknown(0x5441_0007), Atag::End] {
        assert_eq!(atag.as_core(), None);
        assert_eq!(atag.mem(), None);
        assert_eq!(atag.cmd(), None);
    }
}

#[test]
fn atag_is_made_from_a_raw_record() {
    let core = Core { flags: 1, page_size: 4096, root_dev: 2 };
    let mem = Mem { size: 0x1000, start: 0x2000 };
    assert!(matches!(Atag::from(core), Atag::Core(record) if record == core));
    assert!(matches!(Atag::from(mem), Atag::Mem(record) if record == mem));
}

#[test]
fn tags_have_their_values() {
    assert_eq!(NONE, 0);
    assert_eq!(CORE, 0x5441_0001);
    assert_eq!(MEM, 0x5441_0002);
    assert_eq!(CMDLINE, 0x5441_0009);
}

#[test]
fn checked_align_up_refuses_what_cannot_be_aligned() {
    assert_eq!(checked_align_up(19, 8), Some(24));
    assert_eq!(checked_align_up(16, 8), Some(16));
    assert_eq!(checked_align_up(0, 1), Some(0));
    assert_eq!(checked_align_up(19, 0), None);
    assert_eq!(checked_align_up(19, 12), None);
    assert_eq!(checked_align_up(usize::MAX, 2), None);
    assert_eq!(checked_align_up(usize::MAX - 6, 8), None);
    assert_eq!(checked_align_up(usize::MAX - 7, 8), Some(usize::MAX - 7));
    assert_eq!(checked_align_up(usize::MAX, 1), Some(usize::MAX));
}

#[test]
fn first_memory_record_is_found() {
    let mem = Mem { size: 0x3c00_0000, start: 0 };
    let atags = [Atag::Cmd("quiet"), Atag::Mem(mem), Atag::Mem(Mem { size: 1, start: 1 })];
    assert_eq!(tavern_kernel::allocator::first_mem(&atags), Some(mem));
    assert_eq!(tavern_kernel::allocator::first_mem(&atags[..1]), None);
    assert_eq!(tavern_kernel::allocator::first_mem(&[]), None);
}

#[test]
fn tags_tell_the_kind_of_a_record() {
    assert_eq!(kind_of(0x5441_0001), Kind::Core);
    assert_eq!(kind_of(0x5441_0002), Kind::Mem);
    assert_eq!(kind_of(0x5441_0009), Kind::Cmd);
    assert_eq!(kind_of(0), Kind::End);
    assert_eq!(kind_of(0x5441_0003), Kind::Unknown(0x5441_0003));
    assert_eq!(kind_of(1), Kind::Unknown(1));
    assert_eq!(kind_of(u32::MAX), Kind::Unknown(u32::MAX));
}
