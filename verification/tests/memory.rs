use wadachi_cpu::memory::{EmptyMemory, Memory, VectorMemory};

#[test]
fn empty_memory() {
    let mut mem = EmptyMemory;

    assert_eq!(mem.read_word(0), 0);
    assert_eq!(mem.read_word(4), 0);
    assert_eq!(mem.read_word(8), 0);
    assert_eq!(mem.read_word(12), 0);

    mem.write_word(0, 0x12345678);
    mem.write_word(4, 0x90abcdef);
    mem.write_word(8, 0xdeadbeef);
    mem.write_word(12, 0xabadbabe);

    assert_eq!(mem.read_word(0), 0);
    assert_eq!(mem.read_word(4), 0);
    assert_eq!(mem.read_word(8), 0);
    assert_eq!(mem.read_word(12), 0);
}

#[test]
fn vector_memory() {
    let mut mem = VectorMemory::new(16);

    assert_eq!(mem.read_word(0), 0);
    assert_eq!(mem.read_word(4), 0);
    assert_eq!(mem.read_word(8), 0);
    assert_eq!(mem.read_word(12), 0);

    mem.write_byte(4, 0x78);
    mem.write_byte(5, 0x56);
    mem.write_byte(6, 0x34);
    mem.write_byte(7, 0x12);
    assert_eq!(mem.read_byte(4), 0x78);
    assert_eq!(mem.read_byte(5), 0x56);
    assert_eq!(mem.read_byte(6), 0x34);
    assert_eq!(mem.read_byte(7), 0x12);
    assert_eq!(mem.read_word(4), 0x12345678);

    mem.write_halfword(8, 0x5678);
    mem.write_halfword(10, 0x1234);
    assert_eq!(mem.read_halfword(8), 0x5678);
    assert_eq!(mem.read_halfword(10), 0x1234);
    assert_eq!(mem.read_word(8), 0x12345678);

    mem.write_word(0, 0x12345678);
    mem.write_word(4, 0x90abcdef);
    mem.write_word(8, 0xdeadbeef);
    mem.write_word(12, 0xabadbabe);
    assert_eq!(mem.read_word(0), 0x12345678);
    assert_eq!(mem.read_word(4), 0x90abcdef);
    assert_eq!(mem.read_word(8), 0xdeadbeef);
    assert_eq!(mem.read_word(12), 0xabadbabe);
}
