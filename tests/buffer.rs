use usertask::buffer::Buffer;

#[test]
fn buffer_holds_a_string() {
    let mut a = Buffer::new(0x8000_1000);
    a.set_data("Hello from A.");
    assert_eq!(a.get_data(), b"Hello from A.".to_vec());
    assert_eq!(a.vaddr, 0x8000_1000);
}

#[test]
fn buffer_holds_a_long_string() {
    let mut b = Buffer::new(0x8000_2000);
    let text = "Hello from B. ".repeat(20);
    b.set_data(text.as_str());
    assert_eq!(b.get_data(), text.as_bytes().to_vec());
}

#[test]
fn shorter_string_overwrites_only_its_bytes() {
    let mut a = Buffer::new(0);
    a.set_data("Hello from A.");
    a.set_data("Hi");
    assert_eq!(a.get_data(), b"Hillo from A.".to_vec());
}

#[test]
fn full_page_without_nul_is_returned_whole() {
    let mut a = Buffer::new(0);
    assert!(a.get_data().is_empty());
    let text = "x".repeat(4096);
    a.set_data(text.as_str());
    assert_eq!(a.get_data().len(), 4096);
}
