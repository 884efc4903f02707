use packet_decode::common::u16_parse;

#[test]
fn it_works() {
    assert_eq!(2 + 2, 4);
}

#[test]
fn u16_parse_reads_big_endian() {
    assert_eq!(u16_parse(&[0x12, 0x34]), 0x1234);
    assert_eq!(u16_parse(&[0xff, 0x00, 0x7f]), 0xff00);
}
