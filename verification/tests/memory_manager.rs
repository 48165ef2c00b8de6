use momulator::memory_manager::MemoryManager;

#[test]
fn test_read_write() {
    let mut memory_manager = MemoryManager::new();
    let data: [u8; 4] = [1, 2, 3, 4];
    let mut i = 0;

    memory_manager.write(0, &[1, 2, 3, 4]);
    let result = memory_manager.read(0, 4);

    while i < 4 {
        assert_eq!(data[i], result[i]);
        i += 1;
    }
}

#[test]
fn test_new_memory_is_zeroed() {
    let memory_manager = MemoryManager::new();
    assert_eq!(memory_manager.read(0, 4), vec![0, 0, 0, 0]);
    assert_eq!(memory_manager.read(0xFFFC, 4), vec![0, 0, 0, 0]);
}

#[test]
fn test_write_at_offset_leaves_neighbours() {
    let mut memory_manager = MemoryManager::new();
    memory_manager.write(0x0100, &[0xAB, 0xCD]);
    assert_eq!(memory_manager.read(0x00FF, 4), vec![0x00, 0xAB, 0xCD, 0x00]);
}
