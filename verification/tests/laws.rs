use dnp3::app::count::CountSequence as OldCountSequence;
use dnp3::app::flags::Flags;
use dnp3::app::format::write::{confirm_solicited, confirm_unsolicited, write_all_objects};
use dnp3::app::gen::enums::{CommandStatus, FunctionCode, QualifierCode};
use dnp3::app::gen::variations::all::AllObjectsVariation;
use dnp3::app::gen::variations::fixed::{Group12Var1, Group20Var2, Group2Var3, Group4Var3};
use dnp3::app::gen::variations::measurements::Measurements;
use dnp3::app::gen::variations::ranged::RangedVariation;
use dnp3::app::gen::variations::variation::Variation;
use dnp3::app::header::{Control, RequestHeader, ResponseHeader, IIN};
use dnp3::app::measurement::{Binary, Counter, DoubleBitBinary, Time};
use dnp3::app::parse::parser::{DecodeLogLevel, HeaderCollection, HeaderDetails, ParsedFragment};
use dnp3::app::parse::traits::FixedSize;
use dnp3::app::parser::{ParseError, Qualifier};
use dnp3::app::range::{InvalidRange, RangedSequence as OldRangedSequence};
use dnp3::app::sequence::Sequence;
use dnp3::app::types::{ControlCode, DoubleBit, Timestamp};
use dnp3::app::variations::gv::GroupVar;
use dnp3::error::{Error, LogicError, ParseError as LinkParseError};
use dnp3::util::cursor::{ReadCursor, WriteCursor, WriteError};

#[test]
fn control_byte_round_trips() {
    for x in 0..=255u8 {
        assert_eq!(Control::from(x).to_u8(), x);
    }
    let c = Control { fir: true, fin: false, con: true, uns: false, seq: Sequence::new(9) };
    assert_eq!(Control::from(c.to_u8()), c);
    assert_eq!(c.to_u8(), 0xA9);
}

#[test]
fn written_request_header_parses_back() {
    let header = RequestHeader::new(Control::request(Sequence::new(0x05)), FunctionCode::DirectOperate);
    let mut buffer = [0u8; 2];
    let mut cursor = WriteCursor::new(&mut buffer);
    header.write(&mut cursor).unwrap();
    let fragment = ParsedFragment::parse(DecodeLogLevel::Nothing.receive(), &buffer).ok().unwrap();
    let request = fragment.to_request().unwrap();
    assert_eq!(request.header, header);
    assert!(request.raw_objects.is_empty());
}

#[test]
fn written_response_header_parses_back() {
    let header = ResponseHeader::new(Control::unsolicited(Sequence::new(0x0F)), true, IIN::new(0x12, 0x34));
    let mut buffer = [0u8; 4];
    let mut cursor = WriteCursor::new(&mut buffer);
    header.write(&mut cursor).unwrap();
    assert_eq!(buffer, [0xDF, 0x82, 0x12, 0x34]);
    let response = ParsedFragment::parse(DecodeLogLevel::Nothing.receive(), &buffer)
        .ok()
        .unwrap()
        .to_response()
        .unwrap();
    assert_eq!(response.header, header);
}

#[test]
fn header_write_that_does_not_fit_writes_what_fits() {
    let header = ResponseHeader::new(Control::request(Sequence::new(1)), false, IIN::new(1, 2));
    let mut buffer = [0u8; 3];
    let mut cursor = WriteCursor::new(&mut buffer);
    assert_eq!(header.write(&mut cursor), Err(WriteError));
    assert_eq!(cursor.written(), [0xC1, 0x81, 0x01]);
}

#[test]
fn confirms_are_written() {
    let mut buffer = [0u8; 4];
    let mut cursor = WriteCursor::new(&mut buffer);
    confirm_solicited(Sequence::new(3), &mut cursor).unwrap();
    confirm_unsolicited(Sequence::new(4), &mut cursor).unwrap();
    assert_eq!(cursor.written(), [0xC3, 0x00, 0xD4, 0x00]);
}

#[test]
fn written_all_objects_headers_parse_back() {
    let mut buffer = [0u8; 6];
    let mut cursor = WriteCursor::new(&mut buffer);
    write_all_objects(Variation::Group1Var2, &mut cursor).unwrap();
    write_all_objects(Variation::Group30Var5, &mut cursor).unwrap();
    let mut headers = HeaderCollection::parse(FunctionCode::Read, &buffer).unwrap().iter();
    let h = headers.next().unwrap();
    assert_eq!(h.variation, Variation::Group1Var2);
    assert_eq!(h.details, HeaderDetails::AllObjects(AllObjectsVariation::Group1Var2));
    assert_eq!(h.details.qualifier(), QualifierCode::AllObjects);
    let h = headers.next().unwrap();
    assert_eq!(h.details, HeaderDetails::AllObjects(AllObjectsVariation::Group30Var5));
    assert!(headers.next().is_none());
}

#[test]
fn variation_codes_round_trip() {
    assert_eq!(Variation::lookup(60, 1), Some(Variation::Group60Var1));
    assert_eq!(Variation::Group60Var1.to_group_and_var(), (60, 1));
    assert_eq!(Variation::lookup(110, 7), Some(Variation::Group110(7)));
    assert_eq!(Variation::lookup(60, 9), None);
    assert_eq!(QualifierCode::from(0x28), Some(QualifierCode::CountAndPrefix16));
    assert_eq!(QualifierCode::CountAndPrefix16.as_u8(), 0x28);
    assert_eq!(FunctionCode::from(0x81), Some(FunctionCode::Response));
    assert_eq!(FunctionCode::from(0x82).unwrap().as_u8(), 0x82);
    assert_eq!(GroupVar::lookup(2, 3), Some(GroupVar::Group2Var3));
    assert_eq!(GroupVar::lookup(2, 4), None);
}

#[test]
fn fixed_objects_round_trip() {
    let g = Group12Var1::new(ControlCode::from(0x41), 2, 0x01020304, 0x0A0B0C0D);
    assert_eq!(g.status, CommandStatus::Success);
    let mut buffer = [0u8; 11];
    let mut cursor = WriteCursor::new(&mut buffer);
    g.write(&mut cursor).unwrap();
    assert_eq!(buffer, [0x41, 0x02, 0x04, 0x03, 0x02, 0x01, 0x0D, 0x0C, 0x0B, 0x0A, 0x00]);
    let mut reader = ReadCursor::new(&buffer);
    assert_eq!(Group12Var1::read(&mut reader).unwrap(), g);
    assert!(reader.is_empty());

    let d = Group12Var1::from_code(ControlCode::from(0x03));
    assert_eq!((d.count, d.on_time, d.off_time), (1, 1000, 1000));
}

#[test]
fn times_add_within_48_bits() {
    assert_eq!(Timestamp::new(5).checked_add(10), Some(Timestamp::new(15)));
    assert_eq!(Timestamp::new(0xFFFF_FFFF_FFFF).checked_add(1), None);
    assert_eq!(Time::Synchronized(Timestamp::new(1)).checked_add(2), Time::Synchronized(Timestamp::new(3)));
    assert_eq!(Time::NotSynchronized(Timestamp::new(0xFFFF_FFFF_FFFF)).checked_add(1), Time::Invalid);
    assert_eq!(Time::Invalid.checked_add(1), Time::Invalid);
}

#[test]
fn objects_convert_to_measurements() {
    let c: Counter = Group20Var2 { flags: 0x01, value: 0x1234 }.into();
    assert_eq!(c, Counter { value: 0x1234, flags: Flags::new(0x01), time: Time::Invalid });
    let b = Group2Var3 { flags: 0x81, time: 10 }.to_measurement(Time::Synchronized(Timestamp::new(100)));
    assert_eq!(b, Binary { value: true, flags: Flags::new(0x81), time: Time::Synchronized(Timestamp::new(110)) });
    let d = Group4Var3 { flags: 0x41, time: 1 }.to_measurement(Time::Invalid);
    assert_eq!(d, DoubleBitBinary { value: DoubleBit::DeterminedOff, flags: Flags::new(0x41), time: Time::Invalid });
}

#[test]
fn ranged_headers_give_their_measurements() {
    let input = [0x14, 0x02, 0x00, 0x03, 0x04, 0x01, 0x10, 0x00, 0x81, 0x20, 0x00];
    let mut headers = HeaderCollection::parse(FunctionCode::Response, &input).unwrap().iter();
    match headers.next().unwrap().details {
        HeaderDetails::OneByteStartStop(3, 4, seq @ RangedVariation::Group20Var2(_)) => {
            match seq.measurements() {
                Some(Measurements::Counter(v)) => assert_eq!(
                    v,
                    vec![
                        (Counter { value: 0x10, flags: Flags::new(0x01), time: Time::Invalid }, 3),
                        (Counter { value: 0x20, flags: Flags::new(0x81), time: Time::Invalid }, 4),
                    ]
                ),
                _ => panic!("counters expected"),
            }
        }
        x => panic!("got: {:?}", x),
    }
    // packed binaries read as online
    let input = [0x01, 0x01, 0x00, 0x00, 0x01, 0b0000_0010];
    let mut headers = HeaderCollection::parse(FunctionCode::Response, &input).unwrap().iter();
    match headers.next().unwrap().details {
        HeaderDetails::OneByteStartStop(_, _, seq) => match seq.measurements() {
            Some(Measurements::Binary(v)) => assert_eq!(
                v,
                vec![
                    (Binary { value: false, flags: Flags::new(0x01), time: Time::Invalid }, 0),
                    (Binary { value: true, flags: Flags::new(0x01), time: Time::Invalid }, 1),
                ]
            ),
            _ => panic!("binaries expected"),
        },
        x => panic!("got: {:?}", x),
    }
}

#[test]
fn older_sequences_read_their_objects() {
    let data = [0x01, 0x02, 0x03, 0x04, 0x05];
    let seq: OldCountSequence<u16> = OldCountSequence::new(&data);
    assert_eq!(seq.iter().collect_remaining(), vec![0x0201, 0x0403]);
    let seq: OldRangedSequence<Group20Var2> = OldRangedSequence::new(65535, &data[0..3]);
    assert_eq!(seq.iter().collect_remaining(), vec![(Group20Var2 { flags: 0x01, value: 0x0302 }, 65535)]);
    assert!(OldRangedSequence::<Group20Var2>::empty().is_empty());
    assert!(dnp3::app::range::Range::from(3, 2).is_err());
}

#[test]
fn older_parse_errors() {
    assert_eq!(Qualifier::from(0), Ok(Qualifier::OneByteStartStop));
    assert_eq!(Qualifier::from(1), Ok(Qualifier::TwoByteStartStop));
    assert_eq!(Qualifier::from(2), Err(ParseError::UnknownQualifier(2)));
    let mut cursor = ReadCursor::new(&[]);
    assert_eq!(Qualifier::parse(&mut cursor), Err(ParseError::InsufficientBytes));
    assert_eq!(ParseError::from(InvalidRange), ParseError::InvalidRange);

    let data = [0xAA, 0xBB, 0xCC, 0xDD];
    let mut cursor = ReadCursor::new(&data);
    assert!(matches!(
        dnp3::app::bytes::BytesIterator::parse(0, 2, &mut cursor),
        Err(ParseError::ZeroLengthOctetData)
    ));
    let mut it = match dnp3::app::bytes::BytesIterator::parse(2, 2, &mut cursor) {
        Ok(it) => it,
        Err(_) => panic!("octets expected"),
    };
    assert_eq!(it.next().unwrap().value, &[0xAA, 0xBB]);
    assert_eq!(it.next().unwrap().value, &[0xCC, 0xDD]);
    assert!(it.next().is_none());
}

#[test]
fn library_errors_convert() {
    assert_eq!(Error::from(WriteError), Error::BadLogic(LogicError::BadWrite));
    assert_eq!(Error::from(LogicError::BadSize), Error::BadLogic(LogicError::BadSize));
    assert_eq!(Error::from(LinkParseError::BadLogic(LogicError::BadRead)), Error::BadLogic(LogicError::BadRead));
}
