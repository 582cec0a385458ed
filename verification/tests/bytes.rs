use convos::bytes::{HEARTBEAT, OK, SYNDICATION, WHOAMI, WHO_IS};

#[test]
fn the_tags_of_the_protocol() {
    assert_eq!(OK, 0x00);
    assert_eq!(WHO_IS, 0x10);
    assert_eq!(WHOAMI, 0x11);
    assert_eq!(HEARTBEAT, 0xFF);
    assert_eq!(SYNDICATION, 0xA0);
}
