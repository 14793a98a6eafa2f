use memsafe::MemSafe;

#[test]
fn test_readme_example() {
    // allocate protected memory
    let secret = MemSafe::new([0_u8; 32]).unwrap();

    // write into protected memory
    let mut write = secret.write().unwrap();
    write.get_mut()[..14].copy_from_slice("my-secret-info".as_bytes());
    let secret = write.release().unwrap();

    // read from protected memory
    let read = secret.read().unwrap();
    println!("Secure data: {:02X?}", read.get());
}
