use dnp3::util::cursor::ReadCursor;
use dnp3::app::gen::enums::{CommandStatus, FunctionCode, QualifierCode};
use dnp3::app::gen::variations::all::AllObjectsVariation;
use dnp3::app::gen::variations::count::CountVariation;
use dnp3::app::gen::variations::fixed::{Group1Var2, Group41Var1, Group50Var1};
use dnp3::app::gen::variations::prefixed::PrefixedVariation;
use dnp3::app::gen::variations::ranged::RangedVariation;
use dnp3::app::gen::variations::variation::Variation;
use dnp3::app::header::{Control, RequestHeader, ResponseHeader, IIN};
use dnp3::app::parse::bytes::Bytes;
use dnp3::app::parse::error::{
    HeaderParseError, ObjectParseError, RequestValidationError, ResponseValidationError,
};
use dnp3::app::parse::parser::{
    DecodeLogLevel, HeaderCollection, HeaderDetails, ObjectParser, ParsedFragment,
};
use dnp3::app::parse::prefix::Prefix;
use dnp3::app::sequence::Sequence;
use dnp3::app::types::{DoubleBit, Timestamp};

fn test_parse_error(input: &[u8], func: FunctionCode, err: ObjectParseError) {
    assert_eq!(ObjectParser::parse(func, input).err().unwrap(), err);
}

fn test_request_validation_error(input: &[u8], err: RequestValidationError) {
    assert_eq!(
        ParsedFragment::parse(DecodeLogLevel::Nothing.receive(), input)
            .ok()
            .unwrap()
            .to_request()
            .err()
            .unwrap(),
        err
    );
}

fn test_response_validation_error(input: &[u8], err: ResponseValidationError) {
    assert_eq!(
        ParsedFragment::parse(DecodeLogLevel::Nothing.receive(), input)
            .ok()
            .unwrap()
            .to_response()
            .err()
            .unwrap(),
        err
    );
}

#[test]
fn catches_insufficient_data_for_header() {
    let bad_frames: Vec<&[u8]> = vec![
        &[0x01],
        &[0x01, 0x02],
        &[0x01, 0x02, 0x06, 0x01], // error on 2nd header
        &[0x01, 0x02, 0x00, 0x07],
        &[0x01, 0x02, 0x00, 0x07, 0x08],
        &[0x01, 0x02, 0x00, 0x07, 0x08, 0xFF],
        &[0x01, 0x02, 0x00, 0x07, 0x08, 0xFF],
    ];

    for frame in bad_frames {
        test_parse_error(frame, FunctionCode::Write, ObjectParseError::InsufficientBytes);
    }
}

#[test]
fn parses_valid_request() {
    let fragment = &[0xC2, 0x02, 0xAA];
    let request = ParsedFragment::parse(DecodeLogLevel::Nothing.receive(), fragment)
        .ok()
        .unwrap()
        .to_request()
        .unwrap();
    let expected = RequestHeader {
        control: Control { fir: true, fin: true, con: false, uns: false, seq: Sequence::new(0x02) },
        function: FunctionCode::Write,
    };

    assert_eq!(request.header, expected);
    assert_eq!(request.raw_objects, &[0xAA]);
    assert_eq!(request.objects.err().unwrap(), ObjectParseError::InsufficientBytes)
}

#[test]
fn parses_valid_unsolicited_response() {
    let fragment = &[0b11010010, 0x82, 0xFF, 0xAA, 0x01, 0x02];
    let response = ParsedFragment::parse(DecodeLogLevel::Nothing.receive(), fragment)
        .ok()
        .unwrap()
        .to_response()
        .unwrap();
    let expected = ResponseHeader {
        control: Control { fir: true, fin: true, con: false, uns: true, seq: Sequence::new(0x02) },
        unsolicited: true,
        iin: IIN { iin0: 0xFF, iin1: 0xAA },
    };

    assert_eq!(response.header, expected);
    assert_eq!(response.raw_objects, &[0x01, 0x02]);
    assert_eq!(response.objects.err().unwrap(), ObjectParseError::InsufficientBytes)
}

#[test]
fn fails_unsolicited_response_without_uns_bit() {
    test_response_validation_error(
        &[0b11000000, 0x82, 0x00, 0x00],
        ResponseValidationError::UnsolicitedResponseWithoutUnsBit,
    );
}

#[test]
fn fails_solicited_response_with_uns_bit() {
    test_response_validation_error(
        &[0b11010000, 0x81, 0x00, 0x00],
        ResponseValidationError::SolicitedResponseWithUnsBit,
    );
}

#[test]
fn fails_bad_request_function_with_uns_bit() {
    test_request_validation_error(
        &[0b11010000, 0x02], // write with UNS
        RequestValidationError::UnexpectedUnsBit(FunctionCode::Write),
    );
}

#[test]
fn confirms_may_or_may_not_have_uns_set() {
    {
        let request = ParsedFragment::parse(DecodeLogLevel::Nothing.receive(), &[0b11010000, 0x00])
            .ok()
            .unwrap()
            .to_request()
            .unwrap();
        assert_eq!(request.header.function, FunctionCode::Confirm);
        assert!(request.header.control.uns);
    }
    {
        let request = ParsedFragment::parse(DecodeLogLevel::Nothing.receive(), &[0b11000000, 0x00])
            .ok()
            .unwrap()
            .to_request()
            .unwrap();
        assert_eq!(request.header.function, FunctionCode::Confirm);
        assert!(!request.header.control.uns);
    }
}

#[test]
fn parses_integrity_scan() {
    let input = [0x3C, 0x02, 0x06, 0x3C, 0x03, 0x06, 0x3C, 0x04, 0x06, 0x3C, 0x01, 0x06];
    let vec: Vec<HeaderDetails> = ObjectParser::parse(FunctionCode::Read, &input)
        .unwrap()
        .iter()
        .collect_remaining()
        .into_iter()
        .map(|x| x.details)
        .collect();

    assert_eq!(
        vec,
        vec![
            HeaderDetails::AllObjects(AllObjectsVariation::Group60Var2),
            HeaderDetails::AllObjects(AllObjectsVariation::Group60Var3),
            HeaderDetails::AllObjects(AllObjectsVariation::Group60Var4),
            HeaderDetails::AllObjects(AllObjectsVariation::Group60Var1),
        ]
    )
}

#[test]
fn parses_analog_output() {
    let header = &[0x29, 0x01, 0x17, 0x01, 0xFF, 0x01, 0x02, 0x03, 0x04, 0x00];
    let mut headers = ObjectParser::parse(FunctionCode::Operate, header).unwrap().iter();

    let items: Vec<Prefix<u8, Group41Var1>> = match headers.next().unwrap().details {
        HeaderDetails::OneByteCountAndPrefix(01, PrefixedVariation::<u8>::Group41Var1(seq)) => {
            seq.to_vec()
        }
        x => panic!("got: {:?}", x),
    };

    assert_eq!(
        items,
        vec![Prefix::<u8, Group41Var1> {
            index: 0xFF,
            value: Group41Var1 { value: 0x04030201, status: CommandStatus::Success },
        }]
    );
    assert_eq!(headers.next(), None);
}

#[test]
fn parses_range_of_g3v1() {
    let header = &[0x03, 0x01, 0x00, 0x01, 0x04, 0b11_10_01_00];
    let mut headers = ObjectParser::parse(FunctionCode::Response, header).unwrap().iter();

    let items: Vec<(DoubleBit, u16)> = match headers.next().unwrap().details {
        HeaderDetails::OneByteStartStop(01, 04, RangedVariation::Group3Var1(seq)) => seq.to_vec(),
        x => panic!("got: {:?}", x),
    };

    assert_eq!(
        items,
        vec![
            (DoubleBit::Intermediate, 1),
            (DoubleBit::DeterminedOff, 2),
            (DoubleBit::DeterminedOn, 3),
            (DoubleBit::Indeterminate, 4),
        ]
    );
    assert_eq!(headers.next(), None);
}

#[test]
fn parses_count_of_time() {
    let header = &[0x32, 0x01, 0x07, 0x01, 0xFF, 0xFE, 0xFD, 0xFC, 0xFB, 0xFA];
    let mut headers = HeaderCollection::parse(FunctionCode::Write, header).unwrap().iter();

    let items: Vec<Group50Var1> = match headers.next().unwrap().details {
        HeaderDetails::OneByteCount(01, CountVariation::Group50Var1(seq)) => seq.to_vec(),
        x => panic!("got: {:?}", x),
    };

    assert_eq!(items, vec![Group50Var1 { time: Timestamp::new(0x00_00_FA_FB_FC_FD_FE_FF) }]);

    assert_eq!(headers.next(), None);
}

#[test]
fn parses_range_of_g1v2_as_non_read() {
    let input = [0x01, 0x02, 0x00, 0x02, 0x03, 0xAA, 0xBB];

    let mut headers = HeaderCollection::parse(FunctionCode::Response, &input).unwrap().iter();

    let items: Vec<(Group1Var2, u16)> = match headers.next().unwrap().details {
        HeaderDetails::OneByteStartStop(02, 03, RangedVariation::Group1Var2(seq)) => seq.to_vec(),
        x => panic!("got: {:?}", x),
    };

    assert_eq!(items, vec![(Group1Var2 { flags: 0xAA }, 2), (Group1Var2 { flags: 0xBB }, 3)]);
    assert_eq!(headers.next(), None);
}

#[test]
fn parses_range_of_g1v2_as_read() {
    let input = [0x01, 0x02, 0x00, 0x02, 0x03, 0x01, 0x02, 0x00, 0x07, 0x09];

    let mut headers = HeaderCollection::parse(FunctionCode::Read, &input).unwrap().iter();

    match headers.next().unwrap().details {
        HeaderDetails::OneByteStartStop(02, 03, RangedVariation::Group1Var2(seq)) => {
            assert!(seq.is_empty())
        }
        x => panic!("got: {:?}", x),
    }

    match headers.next().unwrap().details {
        HeaderDetails::OneByteStartStop(07, 09, RangedVariation::Group1Var2(seq)) => {
            assert!(seq.is_empty())
        }
        x => panic!("got: {:?}", x),
    }

    assert_eq!(headers.next(), None);
}

#[test]
fn parses_range_of_g80v1() {
    // this is what is typically sent to clear the restart IIN
    let input = [0x50, 0x01, 0x00, 0x07, 0x07, 0x00];
    let mut headers = HeaderCollection::parse(FunctionCode::Write, &input).unwrap().iter();

    let vec: Vec<(bool, u16)> = match headers.next().unwrap().details {
        HeaderDetails::OneByteStartStop(07, 07, RangedVariation::Group80Var1(seq)) => seq.to_vec(),
        x => panic!("got: {:?}", x),
    };

    assert_eq!(vec, vec![(false, 7)]);
    assert_eq!(headers.next(), None);
}

#[test]
fn parses_group110var0_as_read() {
    let input = [0x6E, 0x00, 0x00, 0x02, 0x03];
    let mut headers = HeaderCollection::parse(FunctionCode::Read, &input).unwrap().iter();
    assert_eq!(
        headers.next().unwrap().details,
        HeaderDetails::OneByteStartStop(02, 03, RangedVariation::Group110Var0)
    );
    assert_eq!(headers.next(), None);
}

#[test]
fn g110_variations_other_than_0_cannot_be_used_in_read() {
    test_parse_error(
        &[0x6E, 0x01, 0x00, 0x01, 0x02],
        FunctionCode::Read,
        ObjectParseError::InvalidQualifierForVariation(Variation::Group110(1), QualifierCode::Range8),
    );
}

#[test]
fn parses_group110var1_as_non_read() {
    let input = [0x6E, 0x01, 0x00, 0x01, 0x02, 0xAA, 0xBB];
    let mut headers = ObjectParser::parse(FunctionCode::Response, &input).unwrap().iter();

    let bytes: Vec<(Bytes, u16)> = match headers.next().unwrap().details {
        HeaderDetails::OneByteStartStop(01, 02, RangedVariation::Group110VarX(0x01, seq)) => {
            seq.to_vec()
        }
        x => panic!("got: {:?}", x),
    };

    assert_eq!(bytes, vec![(Bytes { value: &[0xAA] }, 1), (Bytes { value: &[0xBB] }, 2)]);
    assert_eq!(headers.next(), None);
}

#[test]
fn g110v0_cannot_be_used_in_non_read() {
    test_parse_error(
        &[0x6E, 0x00, 0x00, 0x01, 0x02],
        FunctionCode::Response,
        ObjectParseError::ZeroLengthOctetData,
    );
}

// ---- further cases of the parser's errors and rules

#[test]
fn fragment_header_errors() {
    assert_eq!(
        ParsedFragment::parse(DecodeLogLevel::Nothing.receive(), &[0xC0]).err().unwrap(),
        HeaderParseError::InsufficientBytes
    );
    assert_eq!(
        ParsedFragment::parse(DecodeLogLevel::Nothing.receive(), &[0xC0, 0x70]).err().unwrap(),
        HeaderParseError::UnknownFunction(0x70)
    );
    // a response needs its two bytes of internal indications
    assert_eq!(
        ParsedFragment::parse(DecodeLogLevel::Nothing.receive(), &[0xC0, 0x81, 0x00])
            .err()
            .unwrap(),
        HeaderParseError::InsufficientBytes
    );
}

#[test]
fn object_header_errors() {
    test_parse_error(&[0xFF, 0x01, 0x06], FunctionCode::Read, ObjectParseError::UnknownGroupVariation(0xFF, 0x01));
    test_parse_error(&[0x01, 0x02, 0x99], FunctionCode::Read, ObjectParseError::UnknownQualifier(0x99));
    test_parse_error(
        &[0x01, 0x02, 0x5B],
        FunctionCode::Read,
        ObjectParseError::UnsupportedQualifierCode(QualifierCode::FreeFormat16),
    );
    test_parse_error(&[0x01, 0x02, 0x00, 0x05, 0x04], FunctionCode::Read, ObjectParseError::InvalidRange(5, 4));
    test_parse_error(
        &[0x01, 0x02, 0x07, 0x01, 0x00],
        FunctionCode::Write,
        ObjectParseError::InvalidQualifierForVariation(Variation::Group1Var2, QualifierCode::Count8),
    );
    test_parse_error(
        &[0x32, 0x01, 0x06],
        FunctionCode::Read,
        ObjectParseError::InvalidQualifierForVariation(Variation::Group50Var1, QualifierCode::AllObjects),
    );
}

#[test]
fn request_validation_rules() {
    // a response function is no request
    test_request_validation_error(&[0xC0, 0x81, 0x00, 0x00], RequestValidationError::UnexpectedFunction(FunctionCode::Response));
    // FIR without FIN
    test_request_validation_error(&[0x80, 0x01], RequestValidationError::NonFirFin);
}

#[test]
fn response_validation_rules() {
    test_response_validation_error(&[0xC0, 0x01], ResponseValidationError::UnexpectedFunction(FunctionCode::Read));
    test_response_validation_error(
        &[0b10010000, 0x82, 0x00, 0x00],
        ResponseValidationError::UnsolicitedResponseWithoutFirAndFin,
    );
    // a solicited response need not be FIR and FIN
    let response = ParsedFragment::parse(DecodeLogLevel::Nothing.receive(), &[0b10000001, 0x81, 0x01, 0x02])
        .ok()
        .unwrap()
        .to_response()
        .unwrap();
    assert!(!response.header.unsolicited);
    assert_eq!(response.header.iin, IIN { iin0: 0x01, iin1: 0x02 });
    assert_eq!(response.header.function(), FunctionCode::Response);
}

#[test]
fn parses_two_byte_count_and_prefix_with_relative_time() {
    // g2v3, two-byte count of 1, two-byte index 0x0102, flags 0x81, time 0x0010
    let input = [0x02, 0x03, 0x28, 0x01, 0x00, 0x02, 0x01, 0x81, 0x10, 0x00];
    let mut headers = HeaderCollection::parse(FunctionCode::Response, &input).unwrap().iter();
    let header = headers.next().unwrap();
    assert_eq!(header.variation, Variation::Group2Var3);
    assert_eq!(header.details.qualifier(), QualifierCode::CountAndPrefix16);
    assert_eq!(headers.next(), None);
}

#[test]
fn one_pass_stops_at_the_first_error() {
    // a valid header, then one with an unknown qualifier, then a valid one
    let input = [0x3C, 0x02, 0x06, 0x3C, 0x03, 0x99, 0x3C, 0x04, 0x06];
    let mut parser = ObjectParser::one_pass(FunctionCode::Read, &input);
    assert!(matches!(parser.next_header(), Some(Ok(_))));
    assert!(matches!(parser.next_header(), Some(Err(ObjectParseError::UnknownQualifier(0x99)))));
    assert!(parser.next_header().is_none());
    assert_eq!(
        HeaderCollection::parse(FunctionCode::Read, &input).err().unwrap(),
        ObjectParseError::UnknownQualifier(0x99)
    );
}

#[test]
fn unknown_variation_and_qualifier_leave_the_cursor_after_them() {
    let data = [0xFF, 0x01, 0x99, 0x07];
    let mut cursor = ReadCursor::new(&data);
    assert_eq!(Variation::parse(&mut cursor), Err(ObjectParseError::UnknownGroupVariation(0xFF, 0x01)));
    assert_eq!(QualifierCode::parse(&mut cursor), Err(ObjectParseError::UnknownQualifier(0x99)));
    assert_eq!(cursor.len(), 1);
    // a variation that takes no count reads nothing
    assert!(CountVariation::parse(Variation::Group1Var2, QualifierCode::Count8, 1, &mut cursor).is_err());
    assert_eq!(cursor.len(), 1);
}
