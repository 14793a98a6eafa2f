use memsafe::MemSafe;

#[test]
fn test_gaurd() {
    let mem_safe = MemSafe::new([0_u8; 16]).unwrap();
    let mut writer = mem_safe.write().unwrap();
    for i in 0..16 {
        writer.get_mut()[i] = i as u8;
    }
    let mem_safe = writer.release().unwrap();
    let reader = mem_safe.read().unwrap();
    for i in 0..16 {
        assert_eq!(reader.get()[i], i as u8);
    }
}
