use eir::cstr::create_null_terminated_string;

#[test]
fn name_is_written_with_its_terminator() {
    let mut buffer = [0xAAu8; 8];
    create_null_terminated_string("hati", &mut buffer);
    assert_eq!(buffer, [b'h', b'a', b't', b'i', 0, 0xAA, 0xAA, 0xAA]);
}

#[test]
fn name_that_leaves_room_for_the_terminator_only_fits() {
    let mut buffer = [1u8; 8];
    create_null_terminated_string("battery", &mut buffer);
    assert_eq!(&buffer, b"battery\0");
}

#[test]
fn empty_name_is_a_lone_terminator() {
    let mut buffer = [5u8; 2];
    create_null_terminated_string("", &mut buffer);
    assert_eq!(buffer, [0, 5]);
    let mut least = [5u8; 1];
    create_null_terminated_string("", &mut least);
    assert_eq!(least, [0]);
}

#[test]
fn name_is_counted_in_bytes() {
    let mut buffer = [0xFFu8; 100];
    create_null_terminated_string("größe", &mut buffer);
    assert_eq!(&buffer[..8], "größe\0".as_bytes());
    assert_eq!(buffer[8], 0xFF);
    let mut tight = [0xFFu8; 8];
    create_null_terminated_string("größe", &mut tight);
    assert_eq!(&tight, "größe\0".as_bytes());
}

#[test]
fn longest_name_of_the_node_fits_its_buffer() {
    let mut buffer = [7u8; 100];
    create_null_terminated_string("hati_eir_node", &mut buffer);
    assert_eq!(&buffer[..14], b"hati_eir_node\0");
    assert_eq!(&buffer[14..], &[7u8; 86]);
}
