use vmm_core::memory::{load_image, LoadError, MemoryRegion, GUEST_MEMORY_SIZE};

#[test]
fn image_lands_at_offset_zero() {
    let mut region = vec![0xAAu8; 8];
    let image = [1u8, 2, 3];
    assert_eq!(load_image(&mut region, &image), Ok(()));
    assert_eq!(region, vec![1, 2, 3, 0xAA, 0xAA, 0xAA, 0xAA, 0xAA]);
}

#[test]
fn image_reads_back_byte_for_byte() {
    let image: Vec<u8> = (0..=255u8).cycle().take(5000).collect();
    let mut region = vec![0u8; GUEST_MEMORY_SIZE];
    assert_eq!(load_image(&mut region, &image), Ok(()));
    assert_eq!(&region[..image.len()], &image[..]);
    assert!(region[image.len()..].iter().all(|b| *b == 0));
    assert_eq!(region.len(), GUEST_MEMORY_SIZE);
}

#[test]
fn image_of_the_size_of_the_region_fits() {
    let mut region = vec![0u8; 4];
    assert_eq!(load_image(&mut region, &[9, 8, 7, 6]), Ok(()));
    assert_eq!(region, vec![9, 8, 7, 6]);
}

#[test]
fn empty_image_changes_nothing() {
    let mut region = vec![5u8; 3];
    assert_eq!(load_image(&mut region, &[]), Ok(()));
    assert_eq!(region, vec![5, 5, 5]);
}

#[test]
fn image_larger_than_region_is_refused_whole() {
    let mut region = vec![7u8; 4];
    let image = [1u8, 2, 3, 4, 5];
    assert_eq!(
        load_image(&mut region, &image),
        Err(LoadError::ImageTooLarge { image_len: 5, region_len: 4 })
    );
    assert_eq!(region, vec![7, 7, 7, 7]);
}

#[test]
fn image_one_byte_over_guest_memory_is_refused() {
    let mut region = vec![0u8; GUEST_MEMORY_SIZE];
    let image = vec![1u8; GUEST_MEMORY_SIZE + 1];
    assert_eq!(
        load_image(&mut region, &image),
        Err(LoadError::ImageTooLarge {
            image_len: GUEST_MEMORY_SIZE + 1,
            region_len: GUEST_MEMORY_SIZE
        })
    );
    assert!(region.iter().all(|b| *b == 0));
}

#[test]
fn guest_memory_has_the_configured_size() {
    assert_eq!(GUEST_MEMORY_SIZE, 1_024_000);
}

#[test]
fn guest_region_is_slot_zero_at_address_zero() {
    let region = MemoryRegion::guest(1_024_000, 0x7f00_0000_0000);
    assert_eq!(
        region,
        MemoryRegion {
            slot: 0,
            flags: 0,
            guest_phys_addr: 0,
            memory_size: 1_024_000,
            userspace_addr: 0x7f00_0000_0000,
        }
    );
}

#[test]
fn guest_region_fills_the_kernel_structure() {
    let region = MemoryRegion::guest(4096, 8192);
    let raw = kvm_bindings::kvm_userspace_memory_region {
        slot: region.slot,
        flags: region.flags,
        guest_phys_addr: region.guest_phys_addr,
        memory_size: region.memory_size,
        userspace_addr: region.userspace_addr,
    };
    assert_eq!(raw.slot, 0);
    assert_eq!(raw.flags, 0);
    assert_eq!(raw.guest_phys_addr, 0);
    assert_eq!(raw.memory_size, 4096);
    assert_eq!(raw.userspace_addr, 8192);
}
