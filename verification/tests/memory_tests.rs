use std::io::{Cursor, Read, Write};

use memsafe::type_state::{MemSafe, NoAccess};

#[allow(unused_variables)]
#[test]
fn test_str_new_drop() {
    let safe_str = MemSafe::<i32, NoAccess>::new(0).unwrap();
}

#[allow(unused_variables)]
#[test]
fn test_str_new_readonly_drop() {
    let safe_str = MemSafe::<i32, NoAccess>::new(0).unwrap().read_only().unwrap();
}

#[allow(unused_variables)]
#[test]
fn test_str_new_readwrite_drop() {
    let safe_str = MemSafe::<i32, NoAccess>::new(0).unwrap().read_write().unwrap();
}

#[allow(unused_variables)]
#[test]
fn test_str_new_readonly_readwrite_drop() {
    let safe_str = MemSafe::<i32, NoAccess>::new(0)
        .unwrap()
        .read_only()
        .unwrap()
        .read_write()
        .unwrap();
}

#[test]
fn test_empty_u8_array_read() {
    let empty_safe = MemSafe::<[u8; 4], NoAccess>::new([0_u8, 1_u8, 2_u8, 3_u8])
        .unwrap()
        .read_only()
        .unwrap();
    assert_eq!(empty_safe.as_ref()[0], 0);
    assert_eq!(empty_safe.as_ref()[1], 1);
    assert_eq!(empty_safe.as_ref()[2], 2);
    assert_eq!(empty_safe.as_ref()[3], 3);
    assert_eq!(empty_safe.as_ref().len(), 4);
}

#[test]
fn test_empty_u8_array_read_and_write() {
    let mut empty_safe = MemSafe::<[u8; 4], NoAccess>::new([0_u8, 1_u8, 2_u8, 3_u8])
        .unwrap()
        .read_write()
        .unwrap();
    assert_eq!(empty_safe.as_ref()[0], 0);
    assert_eq!(empty_safe.as_ref()[1], 1);
    assert_eq!(empty_safe.as_ref()[2], 2);
    assert_eq!(empty_safe.as_ref()[3], 3);
    empty_safe.as_mut()[0] = 1;
    empty_safe.as_mut()[1] = 2;
    empty_safe.as_mut()[2] = 3;
    empty_safe.as_mut()[3] = 4;
    assert_eq!(empty_safe.as_ref()[0], 1);
    assert_eq!(empty_safe.as_ref()[1], 2);
    assert_eq!(empty_safe.as_ref()[2], 3);
    assert_eq!(empty_safe.as_ref()[3], 4);
    assert_eq!(empty_safe.as_ref().len(), 4);
}

#[test]
fn test_empty_string_handling() {
    let empty_safe = MemSafe::<String, NoAccess>::new(String::new())
        .unwrap()
        .read_only()
        .unwrap();
    assert_eq!(empty_safe.as_ref().as_str(), "");
    assert_eq!(empty_safe.as_ref().len(), 0);
    assert!(empty_safe.as_ref().is_empty());
}

#[test]
fn test_memory_clearing() {
    let sensitive_data = String::from("sensitive_password_123");
    let length = sensitive_data.len();
    {
        let _safe_data = MemSafe::<String, NoAccess>::new(sensitive_data.clone()).unwrap();
        // Data is still accessible here
    }
    // After drop, original string should remain untouched
    assert_eq!(sensitive_data.len(), length);
}

#[test]
fn test_string_operations() {
    let mut safe_string = MemSafe::<String, NoAccess>::new(String::from("Hello"))
        .unwrap()
        .read_write()
        .unwrap();
    safe_string.as_mut().push_str(", ");
    safe_string.as_mut().push_str("World!");
    assert_eq!(safe_string.as_ref().as_str(), "Hello, World!");

    // Test truncate
    safe_string.as_mut().truncate(5);
    assert_eq!(safe_string.as_ref().as_str(), "Hello");

    // Test clear
    safe_string.as_mut().clear();
    assert!(safe_string.as_ref().is_empty());
}

#[test]
fn test_clone_behavior() {
    let original = MemSafe::<String, NoAccess>::new(String::from("original_data"))
        .unwrap()
        .read_only()
        .unwrap();
    let cloned = original.try_clone().unwrap();

    assert_eq!(original.as_ref().as_str(), cloned.as_ref().as_str());
    assert_eq!(original.as_ref().len(), cloned.as_ref().len());

    // Ensure they are separate instances
    drop(original);
    assert_eq!(cloned.as_ref().as_str(), "original_data");
}

#[test]
fn test_mem_safe_string() {
    let mut secret = MemSafe::<String, NoAccess>::new(String::from("secret"))
        .unwrap()
        .read_write()
        .unwrap();
    assert_eq!(secret.as_ref().as_str(), "secret");
    secret.as_mut().push_str(" data");
    assert_eq!(secret.as_ref().as_str(), "secret data");
}

#[test]
fn test_read_compatibility() {
    const STR: &str = "this is a secret";
    let mut cur = Cursor::new(Vec::new());
    assert_eq!(STR.len(), cur.write(STR.as_bytes()).unwrap());
    cur.set_position(0);
    let mut mem_safe = MemSafe::<[u8; 32], NoAccess>::new([0_u8; 32])
        .unwrap()
        .read_write()
        .unwrap();
    assert_eq!(STR.len(), cur.read(mem_safe.as_mut()).unwrap());
    STR.as_bytes()
        .iter()
        .enumerate()
        .for_each(|(idx, b1)| assert_eq!(b1, &mem_safe.as_ref()[idx]));
}

#[test]
fn test_string_append_and_print() {
    let mut secret = MemSafe::<String, NoAccess>::new(String::from("secret"))
        .unwrap()
        .read_write()
        .unwrap();

    secret.as_mut().push_str(" data");

    assert_eq!(*secret.as_ref(), "secret data");

    let output = format!("Secure data: {}", secret.as_ref());
    assert_eq!(output, "Secure data: secret data");

    let length = secret.as_ref().len();
    assert_eq!(length, 11);
    assert_eq!(*secret.as_ref(), "secret data");
}
