use dapla::error::BoundaryError;
use dapla::memory::{decode_word_length, decode_word_offset, encode_slice_word, ModuleMemory};

#[test]
fn boundary_word_packs_offset_high_and_length_low() {
    let w = encode_slice_word(0x1234, 0x56);
    assert_eq!(w, (0x1234u64 << 32) | 0x56u64);
    assert_eq!(decode_word_offset(w), 0x1234);
    assert_eq!(decode_word_length(w), 0x56);
}

#[test]
fn boundary_word_round_trip_at_the_extremes() {
    let w = encode_slice_word(u32::MAX, u32::MAX);
    assert_eq!(decode_word_offset(w), u32::MAX);
    assert_eq!(decode_word_length(w), u32::MAX);
    let z = encode_slice_word(0, 0);
    assert_eq!(decode_word_offset(z), 0);
    assert_eq!(decode_word_length(z), 0);
}

#[test]
fn read_inside_bounds_returns_the_region() {
    let mut memory = ModuleMemory::new(8);
    memory.write(2, &vec![0xaa, 0xbb, 0xcc]).unwrap();
    let bytes = memory.read(2, 3).unwrap();
    assert_eq!(bytes, vec![0xaa, 0xbb, 0xcc]);
}

#[test]
fn read_past_the_end_fails_with_out_of_bounds() {
    let memory = ModuleMemory::new(16);
    let err = memory.read(10, 7).unwrap_err();
    assert_eq!(
        err,
        BoundaryError::OutOfBounds {
            offset: 10,
            length: 7,
            size: 16,
        }
    );
    assert!(memory.read(10, 6).is_ok());
}

#[test]
fn read_with_huge_offset_fails_and_memory_is_untouched() {
    let memory = ModuleMemory::new(4);
    assert!(matches!(
        memory.read(u32::MAX, 1),
        Err(BoundaryError::OutOfBounds { .. })
    ));
    assert_eq!(memory.size(), 4);
}

#[test]
fn write_past_the_end_fails_and_changes_nothing() {
    let mut memory = ModuleMemory::new(4);
    let err = memory.write(3, &vec![1, 2, 3]).unwrap_err();
    assert!(matches!(err, BoundaryError::OutOfBounds { .. }));
    assert_eq!(memory.read(0, 4).unwrap(), vec![0, 0, 0, 0]);
}

#[test]
fn allocate_grows_at_the_end() {
    let mut memory = ModuleMemory::new(5);
    let offset = memory.allocate(3).unwrap();
    assert_eq!(offset, 5);
    assert_eq!(memory.size(), 8);
}

#[test]
fn encode_then_decode_reproduces_the_buffer() {
    let mut memory = ModuleMemory::new(6);
    let payload = vec![9, 8, 7, 6, 5];
    let w = memory.encode_buffer(&payload).unwrap();
    assert_eq!(decode_word_offset(w), 6);
    assert_eq!(decode_word_length(w), 5);
    assert_eq!(memory.read_slice(w).unwrap(), payload);
}

#[test]
fn encode_empty_buffer_round_trips() {
    let mut memory = ModuleMemory::new(0);
    let w = memory.encode_buffer(&Vec::new()).unwrap();
    assert_eq!(memory.read_slice(w).unwrap(), Vec::<u8>::new());
}
