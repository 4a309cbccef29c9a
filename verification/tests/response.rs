use plaque::response::Part;

#[test]
fn parts_hold_the_exact_bytes() {
    assert_eq!(Part::StatusLine.bytes(), b"HTTP/1.1 200 OK\r\n");
    assert_eq!(Part::BlankLine.bytes(), b"\r\n");
    assert_eq!(Part::Body.bytes(), b"Hello from plaque!\n");
}

#[test]
fn parts_come_in_order() {
    assert_eq!(Part::first(), Part::StatusLine);
    assert_eq!(Part::StatusLine.next(), Some(Part::BlankLine));
    assert_eq!(Part::BlankLine.next(), Some(Part::Body));
    assert_eq!(Part::Body.next(), None);
}

#[test]
fn parts_add_up_to_the_response() {
    let mut written: Vec<u8> = Vec::new();
    let mut part = Some(Part::first());
    while let Some(current) = part {
        written.extend_from_slice(current.bytes());
        part = current.next();
    }
    assert_eq!(written, b"HTTP/1.1 200 OK\r\n\r\nHello from plaque!\n");
}
