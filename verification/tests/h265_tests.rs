use byteorder::{BigEndian, ReadBytesExt, WriteBytesExt};
use std::collections::VecDeque;
use std::io::{ErrorKind, Read};
use video_bytestream_tools::h265::annex_b::AnnexBWriter;
use video_bytestream_tools::h265::{
    H265NalHeader, H265NalHeaderError, H265NalUnitWriter, UnitType,
};
use video_bytestream_tools::webvtt::{payload_guid, USER_DATA_UNREGISTERED};

#[derive(Clone)]
struct RbspReader<R: ?Sized + Read> {
    last_read: VecDeque<u8>,
    inner: R,
}

impl<R: Read> RbspReader<R> {
    fn new(inner: R) -> Self {
        RbspReader { last_read: VecDeque::new(), inner }
    }
}

impl<R: Read> Read for RbspReader<R> {
    fn read(&mut self, mut buf: &mut [u8]) -> std::io::Result<usize> {
        let mut read = 0;
        while !buf.is_empty() {
            let res = self.inner.read_u8();
            let byte = match res {
                Ok(byte) => byte,
                Err(err) if err.kind() == ErrorKind::UnexpectedEof => return Ok(0),
                Err(err) => return Err(err),
            };
            let mut last_read_iter = self.last_read.iter();
            if last_read_iter.next() == Some(&0)
                && last_read_iter.next() == Some(&0)
                && byte == 3
            {
                self.last_read.clear();
                continue;
            }
            if self.last_read.len() > 1 {
                self.last_read.pop_front();
            }
            read += 1;
            self.last_read.push_back(byte);
            buf.write_u8(byte).unwrap();
        }
        Ok(read)
    }
}

#[test]
fn h265_check_webvtt_sei() {
    let nalu_writer = H265NalUnitWriter::new(Vec::new());
    let nal_unit_type = UnitType::PrefixSeiNut;
    let nuh_layer_id = 0;
    let nuh_temporal_id = 0;
    let nal_header =
        H265NalHeader::from_nal_unit_type_and_nuh_ids(nal_unit_type, nuh_layer_id, nuh_temporal_id)
            .unwrap();
    let mut payload_writer = nalu_writer.write_nal_header(nal_header);
    let track_index = 0;
    let chunk_number = 1;
    let chunk_version = 0;
    let video_offset = 200;
    let webvtt_payload = "Some unverified data";
    payload_writer
        .write_webvtt_payload(
            track_index,
            chunk_number,
            chunk_version,
            video_offset,
            webvtt_payload,
        )
        .unwrap();
    let writer = payload_writer.finish_rbsp();

    assert!(&writer[4..20] == payload_guid().as_slice());
    assert!(writer[0] == nal_unit_type.id() << 1);

    let mut reader = RbspReader::new(&writer[2..]);

    assert!(usize::from(reader.read_u8().unwrap()) == USER_DATA_UNREGISTERED);
    let mut length = 0;
    loop {
        let byte = reader.read_u8().unwrap();
        length += usize::from(byte);
        if byte != 255 {
            break;
        }
    }
    assert!(length + 1 == reader.clone().bytes().count());
    reader.read_u128::<BigEndian>().unwrap();
    assert!(track_index == reader.read_u8().unwrap());
    assert!(chunk_number == reader.read_u64::<BigEndian>().unwrap());
    assert!(chunk_version == reader.read_u8().unwrap());
    assert!(u16::try_from(video_offset).unwrap() == reader.read_u16::<BigEndian>().unwrap());
    println!("{writer:02x?}");
}

#[test]
fn h265_check_webvtt_multi_sei() {
    let nalu_writer = H265NalUnitWriter::new(Vec::new());
    let nal_unit_type = UnitType::PrefixSeiNut;
    let nuh_layer_id = 0;
    let nuh_temporal_id = 0;
    let nal_header =
        H265NalHeader::from_nal_unit_type_and_nuh_ids(nal_unit_type, nuh_layer_id, nuh_temporal_id)
            .unwrap();
    let mut payload_writer = nalu_writer.write_nal_header(nal_header);
    let track_index = 0;
    let chunk_number = 1;
    let chunk_version = 0;
    let video_offset = 200;
    let webvtt_payload = "Some unverified data";
    payload_writer
        .write_webvtt_payload(
            track_index,
            chunk_number,
            chunk_version,
            video_offset,
            webvtt_payload,
        )
        .unwrap();
    payload_writer
        .write_webvtt_payload(1, 1, 0, video_offset, "Something else")
        .unwrap();
    let writer = payload_writer.finish_rbsp();

    assert!(&writer[4..20] == payload_guid().as_slice());
    assert!(writer[0] == nal_unit_type.id() << 1);

    let mut reader = RbspReader::new(&writer[2..]);

    assert!(usize::from(reader.read_u8().unwrap()) == USER_DATA_UNREGISTERED);
    let mut _length = 0;
    loop {
        let byte = reader.read_u8().unwrap();
        _length += usize::from(byte);
        if byte != 255 {
            break;
        }
    }
    reader.read_u128::<BigEndian>().unwrap();
    assert!(track_index == reader.read_u8().unwrap());
    assert!(chunk_number == reader.read_u64::<BigEndian>().unwrap());
    assert!(chunk_version == reader.read_u8().unwrap());
    assert!(u16::try_from(video_offset).unwrap() == reader.read_u16::<BigEndian>().unwrap());
    println!("{writer:02x?}");
}

#[test]
fn h265_header_validation() {
    assert!(matches!(
        H265NalHeader::from_nal_unit_type_and_nuh_ids(UnitType::PrefixSeiNut, 64, 0),
        Err(H265NalHeaderError::NuhLayerIdOutOfRange(64))
    ));
    assert!(matches!(
        H265NalHeader::from_nal_unit_type_and_nuh_ids(UnitType::PrefixSeiNut, 0, 7),
        Err(H265NalHeaderError::NuhTemporalIdOutOfRange(7))
    ));
    // the largest accepted values
    assert!(H265NalHeader::from_nal_unit_type_and_nuh_ids(UnitType::PrefixSeiNut, 63, 6).is_ok());
}

#[test]
fn h265_header_wire_bytes() {
    // PrefixSeiNut (39): first byte 39 << 1 = 0x4E; layer 0 and temporal 0
    // give a second byte of 0x01 (temporal_id_plus1 = 1, never zero).
    let header =
        H265NalHeader::from_nal_unit_type_and_nuh_ids(UnitType::PrefixSeiNut, 0, 0).unwrap();
    let writer = H265NalUnitWriter::new(Vec::new())
        .write_nal_header(header)
        .finish_rbsp();
    assert_eq!(writer[0], 0x4e);
    assert_eq!(writer[1], 0x01);
    assert_eq!(writer[2], 0x80);

    // layer 33, temporal 5: bytes 0b0_100111_1 = 0x4F and 0b00001_110 = 0x0E.
    let header =
        H265NalHeader::from_nal_unit_type_and_nuh_ids(UnitType::PrefixSeiNut, 33, 5).unwrap();
    let writer = H265NalUnitWriter::new(Vec::new())
        .write_nal_header(header)
        .finish_rbsp();
    assert_eq!(writer[0], 0x4f);
    assert_eq!(writer[1], 0x0e);
    // the three temporal bits always hold nuh_temporal_id + 1
    assert_eq!(writer[1] & 0x07, 6);
}

#[test]
fn h265_annex_b_framing() {
    let header =
        H265NalHeader::from_nal_unit_type_and_nuh_ids(UnitType::PrefixSeiNut, 0, 0).unwrap();
    let writer = AnnexBWriter::new(Vec::new());
    let mut rbsp = writer.start_write_nal_unit().write_nal_header(header);
    rbsp.write_webvtt_payload(0, 1, 0, 200, "Some unverified data")
        .unwrap();
    let bytes = rbsp.finish_rbsp().into_sink();
    assert_eq!(&bytes[0..4], &[0x00, 0x00, 0x00, 0x01]);
    assert_eq!(bytes[4], 0x4e);
    assert_eq!(bytes[5], 0x01);
    assert_eq!(*bytes.last().unwrap(), 0x80);
}
