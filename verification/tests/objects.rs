use dnp3::app::parse::parser::DecodeLogLevel;
use dnp3::app::bit::{BitSequence, IndexedBitSequence as OldIndexedBitSequence};
use dnp3::app::flags::{
    AnalogFlagFormatter, BinaryFlagFormatter, BinaryOutputStatusFlagFormatter, CounterFlagFormatter,
    DoubleBitBinaryFlagFormatter, Flags,
};
use dnp3::app::format::write::read_integrity;
use dnp3::app::format::writer::Writer;
use dnp3::app::gen::enums::FunctionCode;
use dnp3::app::header::{Control, RequestHeader};
use dnp3::app::parse::bit::{
    num_bytes_for_bits, num_bytes_for_double_bits, IndexedBitSequence, IndexedDoubleBitSequence,
};
use dnp3::app::parse::range::Range;
use dnp3::app::sequence::Sequence;
use dnp3::app::types::DoubleBit;
use dnp3::util::cursor::{ReadCursor, WriteCursor};

#[test]
fn bit_correctly_calculates_bytes_for_bits() {
    assert_eq!(num_bytes_for_bits(0), 0);
    assert_eq!(num_bytes_for_bits(1), 1);
    assert_eq!(num_bytes_for_bits(8), 1);
    assert_eq!(num_bytes_for_bits(7), 1);
    assert_eq!(num_bytes_for_bits(9), 2);
    assert_eq!(num_bytes_for_bits(15), 2);
    assert_eq!(num_bytes_for_bits(16), 2);
}

#[test]
fn correctly_calculates_bytes_for_bits() {
    assert_eq!(dnp3::app::bit::num_bytes_for_bits(0), 0);
    assert_eq!(dnp3::app::bit::num_bytes_for_bits(1), 1);
    assert_eq!(dnp3::app::bit::num_bytes_for_bits(8), 1);
    assert_eq!(dnp3::app::bit::num_bytes_for_bits(7), 1);
    assert_eq!(dnp3::app::bit::num_bytes_for_bits(9), 2);
    assert_eq!(dnp3::app::bit::num_bytes_for_bits(15), 2);
    assert_eq!(dnp3::app::bit::num_bytes_for_bits(16), 2);
}

#[test]
fn correctly_calculates_bytes_for_double_bits() {
    assert_eq!(num_bytes_for_double_bits(0), 0);
    assert_eq!(num_bytes_for_double_bits(1), 1);
    assert_eq!(num_bytes_for_double_bits(3), 1);
    assert_eq!(num_bytes_for_double_bits(4), 1);
    assert_eq!(num_bytes_for_double_bits(5), 2);
    assert_eq!(num_bytes_for_double_bits(8), 2);
    assert_eq!(num_bytes_for_double_bits(9), 3);
}

#[test]
fn can_parse_bit_sequence_at_max_index() {
    let range = Range::from(65534, 65535).unwrap();
    let data = [0b0000_0001];
    let mut cursor = ReadCursor::new(&data);
    let seq = IndexedBitSequence::parse(range, &mut cursor).unwrap();
    assert!(cursor.is_empty());
    let vec: Vec<(bool, u16)> = seq.iter().collect_remaining();
    assert_eq!(vec, vec![(true, 65534), (false, 65535)]);
}

#[test]
fn double_bit_sequence_at_max_index_decodes_each_pair() {
    // each pair of bits is the code of a value: 00 intermediate, 01 determined
    // off, 10 determined on, 11 indeterminate, as in parses_range_of_g3v1
    let range = Range::from(65531, 65535).unwrap(); // five values!
    let data = [0b1000_1101, 0b0000_0011];
    let mut cursor = ReadCursor::new(&data);
    let seq = IndexedDoubleBitSequence::parse(range, &mut cursor).unwrap();
    assert!(cursor.is_empty());
    let vec: Vec<(DoubleBit, u16)> = seq.iter().collect_remaining();
    assert_eq!(
        vec,
        vec![
            (DoubleBit::DeterminedOff, 65531),
            (DoubleBit::Indeterminate, 65532),
            (DoubleBit::Intermediate, 65533),
            (DoubleBit::DeterminedOn, 65534),
            (DoubleBit::Indeterminate, 65535),
        ]
    );
}

#[test]
fn can_parse_bit_sequence() {
    let data = [0b1111_0000, 0b0000_0001];
    let mut cursor = ReadCursor::new(&data);
    let seq = BitSequence::parse(&mut cursor, 10).unwrap();
    assert!(cursor.is_empty());
    let vec: Vec<bool> = seq.iter().collect_remaining();
    assert_eq!(vec, vec![false, false, false, false, true, true, true, true, true, false]);
}

#[test]
fn can_parse_bit_sequence_with_index() {
    let range = dnp3::app::range::Range::from(65534, 65535).unwrap();
    let data = [0b0000_0001];
    let mut cursor = ReadCursor::new(&data);
    let seq = OldIndexedBitSequence::parse(&mut cursor, range).unwrap();
    assert!(cursor.is_empty());
    let vec: Vec<(bool, u16)> = seq.iter().collect_remaining();
    assert_eq!(vec, vec![(true, 65534), (false, 65535)]);
}

#[test]
fn formats_binary_flags() {
    assert_eq!(BinaryFlagFormatter::new(0).text(), "0x00 []");
    assert_eq!(BinaryFlagFormatter::new(0b1100_0001).text(), "0xC1 [ONLINE, RESERVED(6), STATE]");
}

#[test]
fn formats_double_flags() {
    assert_eq!(DoubleBitBinaryFlagFormatter::new(0).text(), "0x00 [state = Intermediate]");
    assert_eq!(
        DoubleBitBinaryFlagFormatter::new(0b1100_0001).text(),
        "0xC1 [ONLINE, state = Indeterminate]"
    );
}

#[test]
fn formats_other_flags() {
    assert_eq!(
        BinaryOutputStatusFlagFormatter::new(0xFF).text(),
        "0xFF [ONLINE, RESTART, COMM_LOST, REMOTE_FORCED, LOCAL_FORCED, RESERVED(5), RESERVED(6), STATE]"
    );
    assert_eq!(CounterFlagFormatter::new(0x60).text(), "0x60 [ROLLOVER, DISCONTINUITY]");
    assert_eq!(AnalogFlagFormatter::new(0xA2).text(), "0xA2 [RESTART, OVER_RANGE, RESERVED(7)]");
}

#[test]
fn flags_read_their_bits() {
    let f = Flags::new(0b1100_0001);
    assert!(f.online());
    assert!(!f.restart());
    assert!(f.state());
    assert_eq!(f.double_bit_state(), DoubleBit::Indeterminate);
    assert_eq!(Flags::new(0b0100_0000).double_bit_state(), DoubleBit::DeterminedOff);
    assert_eq!(Flags::new(0b1000_0000).double_bit_state(), DoubleBit::DeterminedOn);
}

#[test]
fn write_formats_integrity_poll() {
    let mut buffer: [u8; 100] = [0; 100];
    let mut cursor = WriteCursor::new(&mut buffer);
    read_integrity(Sequence::new(0x01), &mut cursor).unwrap();

    assert_eq!(
        cursor.written(),
        [0xC1, 0x01, 0x3C, 0x02, 0x06, 0x3C, 0x03, 0x06, 0x3C, 0x04, 0x06, 0x3C, 0x01, 0x06]
    );
}

#[test]
fn writer_formats_integrity_poll() {
    let mut buffer: [u8; 100] = [0; 100];
    let mut writer = Writer::start_request(
        &mut buffer,
        RequestHeader::new(Control::request(Sequence::new(0x01)), FunctionCode::Read),
    )
    .unwrap();

    writer.write_integrity().unwrap();
    assert_eq!(
        writer.written().unwrap(),
        [0xC1, 0x01, 0x3C, 0x02, 0x06, 0x3C, 0x03, 0x06, 0x3C, 0x04, 0x06, 0x3C, 0x01, 0x06]
    );
}

#[test]
fn integrity_poll_that_does_not_fit_writes_what_fits() {
    let mut buffer: [u8; 6] = [0; 6];
    let mut cursor = WriteCursor::new(&mut buffer);
    assert!(read_integrity(Sequence::new(0x01), &mut cursor).is_err());
    assert_eq!(cursor.written(), [0xC1, 0x01, 0x3C, 0x02, 0x06, 0x3C]);

    let mut small: [u8; 1] = [0; 1];
    assert!(Writer::start_request(
        &mut small,
        RequestHeader::new(Control::request(Sequence::new(0x01)), FunctionCode::Read),
    )
    .is_err());
}

#[test]
fn increments_and_wraps_as_expected() {
    let mut seq = Sequence::default();
    for i in 0..16 {
        // which is really [0,15]
        assert_eq!(seq.increment().value(), i);
    }

    assert_eq!(seq.increment().value(), 0); // goes to zero
}

#[test]
fn log_levels_show_their_parts() {
    assert_eq!(DecodeLogLevel::Nothing.receive().shown_parts(), None);
    assert_eq!(DecodeLogLevel::Header.transmit().shown_parts(), Some((false, false)));
    assert_eq!(DecodeLogLevel::ObjectHeaders.receive().shown_parts(), Some((true, false)));
    assert_eq!(DecodeLogLevel::ObjectValues.receive().shown_parts(), Some((true, true)));
    assert!(DecodeLogLevel::Header.transmit().is_transmit());
}
