use vmm_core::page::{
    decode_exit, load_i32, store_i32, ExitInfo, PageError, DATA_LEN, EXIT_REASON_AT, HEADER_LEN,
    IO_DATA_OFFSET_AT, IO_DIRECTION_AT, IO_PORT_AT, IO_WIDTH_AT,
};

fn page_with_reason(reason: u32) -> Vec<u8> {
    let mut page = vec![0u8; 4096];
    page[EXIT_REASON_AT..EXIT_REASON_AT + 4].copy_from_slice(&reason.to_le_bytes());
    page
}

fn page_with_io(direction: u8, width: u8, port: u16, data_offset: u64) -> Vec<u8> {
    let mut page = page_with_reason(kvm_bindings::KVM_EXIT_IO);
    page[IO_DIRECTION_AT] = direction;
    page[IO_WIDTH_AT] = width;
    page[IO_PORT_AT..IO_PORT_AT + 2].copy_from_slice(&port.to_le_bytes());
    page[IO_DATA_OFFSET_AT..IO_DATA_OFFSET_AT + 8].copy_from_slice(&data_offset.to_le_bytes());
    page
}

#[test]
fn field_offsets_are_those_of_the_kernel_structure() {
    assert_eq!(EXIT_REASON_AT, 8);
    assert_eq!(IO_DIRECTION_AT, 32);
    assert_eq!(IO_WIDTH_AT, 33);
    assert_eq!(IO_PORT_AT, 34);
    assert_eq!(IO_DATA_OFFSET_AT, 40);
    assert_eq!(HEADER_LEN, 48);
    assert_eq!(DATA_LEN, 4);
}

#[test]
fn halt_is_decoded() {
    assert_eq!(decode_exit(&page_with_reason(kvm_bindings::KVM_EXIT_HLT)), Ok(ExitInfo::Halt));
    assert_eq!(decode_exit(&page_with_reason(5)), Ok(ExitInfo::Halt));
}

#[test]
fn internal_error_is_decoded() {
    assert_eq!(
        decode_exit(&page_with_reason(kvm_bindings::KVM_EXIT_INTERNAL_ERROR)),
        Ok(ExitInfo::InternalError)
    );
    assert_eq!(decode_exit(&page_with_reason(17)), Ok(ExitInfo::InternalError));
}

#[test]
fn shutdown_is_decoded() {
    assert_eq!(
        decode_exit(&page_with_reason(kvm_bindings::KVM_EXIT_SHUTDOWN)),
        Ok(ExitInfo::Shutdown)
    );
    assert_eq!(decode_exit(&page_with_reason(8)), Ok(ExitInfo::Shutdown));
}

#[test]
fn other_reasons_are_unsupported_with_their_number() {
    for reason in [0u32, 1, 3, 4, 6, 7, 9, 16, 18, 39, 0x0102_0304, u32::MAX] {
        assert_eq!(
            decode_exit(&page_with_reason(reason)),
            Ok(ExitInfo::Unsupported { reason })
        );
    }
    assert_eq!(
        decode_exit(&page_with_reason(kvm_bindings::KVM_EXIT_MMIO)),
        Ok(ExitInfo::Unsupported { reason: 6 })
    );
}

#[test]
fn reason_is_read_little_endian() {
    let mut page = vec![0u8; 48];
    page[8] = 0x05;
    page[9] = 0x01;
    assert_eq!(decode_exit(&page), Ok(ExitInfo::Unsupported { reason: 0x0105 }));
}

#[test]
fn out_transfer_carries_port_and_value() {
    let mut page = page_with_io(kvm_bindings::KVM_EXIT_IO_OUT as u8, 4, 0x3f8, 0x1000 - 4);
    page[0x1000 - 4..].copy_from_slice(&1234i32.to_le_bytes());
    assert_eq!(
        decode_exit(&page),
        Ok(ExitInfo::IoOut { port: 0x3f8, width: 4, value: 1234 })
    );
}

#[test]
fn out_transfer_value_is_signed() {
    let mut page = page_with_io(1, 4, 16, 0x800);
    page[0x800..0x804].copy_from_slice(&(-7i32).to_le_bytes());
    assert_eq!(decode_exit(&page), Ok(ExitInfo::IoOut { port: 16, width: 4, value: -7 }));
    page[0x800..0x804].copy_from_slice(&i32::MIN.to_le_bytes());
    assert_eq!(
        decode_exit(&page),
        Ok(ExitInfo::IoOut { port: 16, width: 4, value: i32::MIN })
    );
    page[0x800..0x804].copy_from_slice(&i32::MAX.to_le_bytes());
    assert_eq!(
        decode_exit(&page),
        Ok(ExitInfo::IoOut { port: 16, width: 4, value: i32::MAX })
    );
}

#[test]
fn out_transfer_reads_four_bytes_whatever_the_width() {
    let mut page = page_with_io(1, 1, 0x10, 0x400);
    page[0x400..0x404].copy_from_slice(&0x0403_0201i32.to_le_bytes());
    assert_eq!(
        decode_exit(&page),
        Ok(ExitInfo::IoOut { port: 0x10, width: 1, value: 0x0403_0201 })
    );
}

#[test]
fn in_transfer_carries_port_and_place() {
    let page = page_with_io(kvm_bindings::KVM_EXIT_IO_IN as u8, 4, 0x10, 0x1000 - 4);
    assert_eq!(
        decode_exit(&page),
        Ok(ExitInfo::IoIn { port: 0x10, width: 4, data_offset: 0x1000 - 4 })
    );
}

#[test]
fn any_direction_but_out_is_in() {
    let page = page_with_io(7, 2, 1, 0x100);
    assert_eq!(decode_exit(&page), Ok(ExitInfo::IoIn { port: 1, width: 2, data_offset: 0x100 }));
}

#[test]
fn transfer_data_outside_the_page_is_refused() {
    let page = page_with_io(1, 4, 1, 0x1000 - 3);
    assert_eq!(
        decode_exit(&page),
        Err(PageError::DataOutOfBounds { data_offset: 0x1000 - 3, len: 4096 })
    );
    let page = page_with_io(0, 4, 1, u64::MAX);
    assert_eq!(
        decode_exit(&page),
        Err(PageError::DataOutOfBounds { data_offset: u64::MAX, len: 4096 })
    );
}

#[test]
fn transfer_fields_do_not_count_for_other_reasons() {
    let mut page = page_with_io(1, 4, 1, u64::MAX);
    page[EXIT_REASON_AT..EXIT_REASON_AT + 4].copy_from_slice(&5u32.to_le_bytes());
    assert_eq!(decode_exit(&page), Ok(ExitInfo::Halt));
}

#[test]
fn short_page_is_refused() {
    assert_eq!(decode_exit(&[]), Err(PageError::Truncated { len: 0 }));
    assert_eq!(decode_exit(&[0u8; 47]), Err(PageError::Truncated { len: 47 }));
    let mut page = vec![0u8; 48];
    page[8] = 5;
    assert_eq!(decode_exit(&page), Ok(ExitInfo::Halt));
}

#[test]
fn stored_value_is_loaded_again() {
    for value in [0i32, 1, -1, 255, 256, -256, 65536, 0x1234_5678, i32::MIN, i32::MAX] {
        let mut page = vec![0xEEu8; 64];
        assert_eq!(store_i32(&mut page, 20, value), Ok(()));
        assert_eq!(load_i32(&page, 20), Ok(value));
        assert_eq!(&page[20..24], &value.to_le_bytes());
        assert!(page[..20].iter().all(|b| *b == 0xEE));
        assert!(page[24..].iter().all(|b| *b == 0xEE));
    }
}

#[test]
fn store_at_the_last_place_of_the_page() {
    let mut page = vec![0u8; 8];
    assert_eq!(store_i32(&mut page, 4, -2), Ok(()));
    assert_eq!(page, vec![0, 0, 0, 0, 0xFE, 0xFF, 0xFF, 0xFF]);
}

#[test]
fn store_outside_the_page_is_refused_and_changes_nothing() {
    let mut page = vec![3u8; 8];
    assert_eq!(
        store_i32(&mut page, 5, 77),
        Err(PageError::DataOutOfBounds { data_offset: 5, len: 8 })
    );
    assert_eq!(page, vec![3u8; 8]);
    let mut tiny = vec![3u8; 2];
    assert_eq!(
        store_i32(&mut tiny, 0, 77),
        Err(PageError::DataOutOfBounds { data_offset: 0, len: 2 })
    );
    assert_eq!(tiny, vec![3u8; 2]);
}

#[test]
fn load_outside_the_page_is_refused() {
    let page = vec![0u8; 8];
    assert_eq!(load_i32(&page, 4), Ok(0));
    assert_eq!(load_i32(&page, 5), Err(PageError::DataOutOfBounds { data_offset: 5, len: 8 }));
    assert_eq!(
        load_i32(&page, usize::MAX),
        Err(PageError::DataOutOfBounds { data_offset: usize::MAX as u64, len: 8 })
    );
}

#[test]
fn load_reads_little_endian() {
    let page = [0x78u8, 0x56, 0x34, 0x12, 0xFF, 0xFF, 0xFF, 0xFF];
    assert_eq!(load_i32(&page, 0), Ok(0x1234_5678));
    assert_eq!(load_i32(&page, 4), Ok(-1));
    assert_eq!(load_i32(&page, 2), Ok(i32::from_le_bytes([0x34, 0x12, 0xFF, 0xFF])));
}
