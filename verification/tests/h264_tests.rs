use byteorder::{BigEndian, ReadBytesExt};
use h264_reader::nal::{Nal, RefNal};
use std::io::Read;
use video_bytestream_tools::h264::annex_b::AnnexBWriter;
use video_bytestream_tools::h264::avcc::{
    AVCCWriter, InvalidLengthError, MaxNalUnitSizeExceededError,
};
use video_bytestream_tools::h264::{H264NalHeader, H264NalHeaderError, H264NalUnitWriter, UnitType};
use video_bytestream_tools::webvtt::{payload_guid, USER_DATA_UNREGISTERED};

#[test]
fn h264_check_webvtt_sei() {
    let nalu_writer = H264NalUnitWriter::new(Vec::new());
    let nal_unit_type = UnitType::SEI;
    let nal_ref_idc = 0;
    let nal_header =
        H264NalHeader::from_nal_unit_type_and_nal_ref_idc(nal_unit_type, nal_ref_idc).unwrap();
    let mut payload_writer = nalu_writer.write_nal_header(nal_header);
    let track_index = 0;
    let chunk_number = 1;
    let chunk_version = 0;
    let video_offset = 200;
    let webvtt_payload = "Some unverified data";
    payload_writer
        .write_webvtt_payload(
            track_index,
            chunk_number,
            chunk_version,
            video_offset,
            webvtt_payload,
        )
        .unwrap();
    let writer = payload_writer.finish_rbsp();
    assert!(&writer[3..19] == payload_guid().as_slice());

    let nal = RefNal::new(&writer, &[], true);
    assert!(nal.is_complete());
    assert!(nal.header().unwrap().nal_unit_type() == h264_reader::nal::UnitType::SEI);
    let mut byte_reader = nal.rbsp_bytes();

    assert!(usize::from(byte_reader.read_u8().unwrap()) == USER_DATA_UNREGISTERED);
    let mut length = 0;
    loop {
        let byte = byte_reader.read_u8().unwrap();
        length += usize::from(byte);
        if byte != 255 {
            break;
        }
    }
    assert!(length + 1 == byte_reader.clone().bytes().count());
    byte_reader.read_u128::<BigEndian>().unwrap();
    assert!(track_index == byte_reader.read_u8().unwrap());
    assert!(chunk_number == byte_reader.read_u64::<BigEndian>().unwrap());
    assert!(chunk_version == byte_reader.read_u8().unwrap());
    assert!(
        u16::try_from(video_offset).unwrap() == byte_reader.read_u16::<BigEndian>().unwrap()
    );
    println!("{writer:02x?}");
}

#[test]
fn h264_check_webvtt_multi_sei() {
    let nalu_writer = H264NalUnitWriter::new(Vec::new());
    let nal_unit_type = UnitType::SEI;
    let nal_ref_idc = 0;
    let nal_header =
        H264NalHeader::from_nal_unit_type_and_nal_ref_idc(nal_unit_type, nal_ref_idc).unwrap();
    let mut payload_writer = nalu_writer.write_nal_header(nal_header);
    let track_index = 0;
    let chunk_number = 1;
    let chunk_version = 0;
    let video_offset = 200;
    let webvtt_payload = "Some unverified data";
    payload_writer
        .write_webvtt_payload(
            track_index,
            chunk_number,
            chunk_version,
            video_offset,
            webvtt_payload,
        )
        .unwrap();
    payload_writer
        .write_webvtt_payload(1, 1, 0, video_offset, "Something else")
        .unwrap();
    let writer = payload_writer.finish_rbsp();
    assert!(&writer[3..19] == payload_guid().as_slice());

    let nal = RefNal::new(&writer, &[], true);
    assert!(nal.is_complete());
    assert!(nal.header().unwrap().nal_unit_type() == h264_reader::nal::UnitType::SEI);
    let mut byte_reader = nal.rbsp_bytes();

    assert!(usize::from(byte_reader.read_u8().unwrap()) == USER_DATA_UNREGISTERED);
    let mut _length = 0;
    loop {
        let byte = byte_reader.read_u8().unwrap();
        _length += usize::from(byte);
        if byte != 255 {
            break;
        }
    }
    byte_reader.read_u128::<BigEndian>().unwrap();
    assert!(track_index == byte_reader.read_u8().unwrap());
    assert!(chunk_number == byte_reader.read_u64::<BigEndian>().unwrap());
    assert!(chunk_version == byte_reader.read_u8().unwrap());
    assert!(
        u16::try_from(video_offset).unwrap() == byte_reader.read_u16::<BigEndian>().unwrap()
    );
    println!("{writer:02x?}");
}

#[test]
fn h264_header_validation_rejects() {
    assert!(matches!(
        H264NalHeader::from_nal_unit_type_and_nal_ref_idc(UnitType::SEI, 1),
        Err(H264NalHeaderError::InvalidNalRefIdcForNalUnitType { .. })
    ));
    assert!(matches!(
        H264NalHeader::from_nal_unit_type_and_nal_ref_idc(
            UnitType::SliceLayerWithoutPartitioningIdr,
            0,
        ),
        Err(H264NalHeaderError::InvalidNalRefIdcForNalUnitType { .. })
    ));
    assert!(matches!(
        H264NalHeader::from_nal_unit_type_and_nal_ref_idc(UnitType::SEI, 4),
        Err(H264NalHeaderError::NalRefIdcOutOfRange(4))
    ));
    assert!(matches!(
        H264NalHeader::from_nal_unit_type_and_nal_ref_idc(UnitType::Unspecified(0), 0),
        Err(H264NalHeaderError::NalUnitTypeOutOfRange(_))
    ));
    assert!(matches!(
        H264NalHeader::from_nal_unit_type_and_nal_ref_idc(UnitType::Unspecified(32), 0),
        Err(H264NalHeaderError::NalUnitTypeOutOfRange(_))
    ));
}

#[test]
fn h264_header_wire_byte() {
    // forbidden_zero_bit = 0, nal_ref_idc = 2 (two bits), nal_unit_type = 1
    // (five bits): 0b0_10_00001 = 0x41.
    let header = H264NalHeader::from_nal_unit_type_and_nal_ref_idc(
        UnitType::SliceLayerWithoutPartitioningNonIdr,
        2,
    )
    .unwrap();
    let writer = H264NalUnitWriter::new(Vec::new())
        .write_nal_header(header)
        .finish_rbsp();
    assert_eq!(writer[0], 0x41);
    assert_eq!(writer[1], 0x80);
    assert_eq!(writer.len(), 2);
}

#[test]
fn h264_annex_b_framing() {
    let writer = AnnexBWriter::new(Vec::new());
    let header = H264NalHeader::from_nal_unit_type_and_nal_ref_idc(UnitType::SEI, 0).unwrap();

    let mut rbsp = writer.start_write_nal_unit().write_nal_header(header);
    rbsp.write_webvtt_payload(0, 1, 0, 200, "Some unverified data")
        .unwrap();
    let writer = rbsp.finish_rbsp();

    let mut rbsp = writer.start_write_nal_unit().write_nal_header(header);
    rbsp.write_webvtt_payload(0, 2, 0, 200, "Something else").unwrap();
    let writer = rbsp.finish_rbsp();

    let bytes = writer.into_sink();
    // the stream's single leading zero byte, then the first start code
    assert_eq!(&bytes[0..4], &[0x00, 0x00, 0x00, 0x01]);
    assert_eq!(bytes[4], 0x06);
    // the second NAL unit is preceded by a bare start code: exactly one
    // 00 00 01 after a 0x80 trailing byte
    let second = bytes
        .windows(4)
        .position(|w| w == [0x80, 0x00, 0x00, 0x01])
        .expect("second start code");
    assert_eq!(bytes[second + 4], 0x06);
}

#[test]
fn h264_avcc_length_framing() {
    // the same NAL unit written bare, to compare against
    let header = H264NalHeader::from_nal_unit_type_and_nal_ref_idc(UnitType::SEI, 0).unwrap();
    let mut bare = H264NalUnitWriter::new(Vec::new()).write_nal_header(header);
    bare.write_webvtt_payload(0, 1, 0, 200, "Some unverified data")
        .unwrap();
    let bare = bare.finish_rbsp();

    let avcc = AVCCWriter::new(2, Vec::new()).unwrap();
    let mut rbsp = avcc.start_write_nal_unit().write_nal_header(header);
    rbsp.write_webvtt_payload(0, 1, 0, 200, "Some unverified data")
        .unwrap();
    let avcc = rbsp.finish_rbsp().unwrap();
    let bytes = avcc.into_sink();

    let len = bare.len();
    assert_eq!(bytes[0], (len >> 8) as u8);
    assert_eq!(bytes[1], (len & 0xff) as u8);
    assert_eq!(&bytes[2..], bare.as_slice());
}

#[test]
fn h264_avcc_max_nal_unit_size_exceeded() {
    let header = H264NalHeader::from_nal_unit_type_and_nal_ref_idc(UnitType::SEI, 0).unwrap();
    let payload = "x".repeat(300);

    // the same NAL unit written bare, to know the size the AVCC framer needs
    let mut bare = H264NalUnitWriter::new(Vec::new()).write_nal_header(header);
    bare.write_webvtt_payload(0, 1, 0, 200, &payload).unwrap();
    let bare = bare.finish_rbsp();
    assert!(bare.len() > 255);

    let avcc = AVCCWriter::new(1, Vec::new()).unwrap();
    let mut rbsp = avcc.start_write_nal_unit().write_nal_header(header);
    rbsp.write_webvtt_payload(0, 1, 0, 200, &payload).unwrap();
    let err = rbsp.finish_rbsp().unwrap_err();
    assert_eq!(
        err,
        MaxNalUnitSizeExceededError { max: 255, required: bare.len() },
    );
}

#[test]
fn h264_avcc_invalid_length_size() {
    assert!(matches!(AVCCWriter::new(3, Vec::new()), Err(InvalidLengthError(3))));
    assert!(matches!(AVCCWriter::new(0, Vec::new()), Err(InvalidLengthError(0))));
    assert!(AVCCWriter::new(4, Vec::new()).is_ok());
}

#[test]
fn h264_rbsp_contains_no_start_code() {
    // chunk number 0 puts a long run of zero bytes in the body; the escape
    // logic must keep any 00 00 pair from being followed by 00, 01 or 02
    let header = H264NalHeader::from_nal_unit_type_and_nal_ref_idc(UnitType::SEI, 0).unwrap();
    let mut writer = H264NalUnitWriter::new(Vec::new()).write_nal_header(header);
    writer.write_webvtt_payload(0, 0, 0, 0, "a\u{1}\u{2}b").unwrap();
    let bytes = writer.finish_rbsp();
    for w in bytes.windows(3) {
        assert!(!(w[0] == 0 && w[1] == 0 && w[2] <= 2), "start code in {bytes:02x?}");
    }
    // and the escape byte does appear
    assert!(bytes.windows(3).any(|w| w[0] == 0 && w[1] == 0 && w[2] == 3));
}

#[test]
fn h264_sei_payload_size_ff_run() {
    // a body of exactly 255 bytes: 28 fixed bytes + 227 payload bytes;
    // payloadSize 255 is coded as FF 00
    let header = H264NalHeader::from_nal_unit_type_and_nal_ref_idc(UnitType::SEI, 0).unwrap();
    let payload = "x".repeat(227);
    let mut writer = H264NalUnitWriter::new(Vec::new()).write_nal_header(header);
    writer.write_webvtt_payload(0, 1, 0, 200, &payload).unwrap();
    let bytes = writer.finish_rbsp();
    assert_eq!(bytes[0], 0x06);
    assert_eq!(bytes[1], 0x05);
    assert_eq!(bytes[2], 0xff);
    assert_eq!(bytes[3], 0x00);
    assert_eq!(&bytes[4..20], payload_guid().as_slice());
}
