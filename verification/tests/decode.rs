use frame_decoder::{decode, DecodeError, FrameDecoder, DEFAULT_MAX_RECORDS};

fn frame(header: &[u8], records: &[(u32, u8, f32, f32)]) -> Vec<u8> {
    let mut buf = Vec::new();
    buf.extend_from_slice(&(header.len() as u32).to_le_bytes());
    buf.extend_from_slice(header);
    for &(id, type_code, x, y) in records {
        buf.extend_from_slice(&id.to_le_bytes());
        buf.push(type_code);
        buf.extend_from_slice(&x.to_le_bytes());
        buf.extend_from_slice(&y.to_le_bytes());
    }
    buf
}

fn floats(bits: &[u32]) -> Vec<f32> {
    bits.iter().map(|&b| f32::from_bits(b)).collect()
}

#[test]
fn decodes_update_frame_with_one_record() {
    let mut buf = vec![0x06, 0, 0, 0];
    buf.extend_from_slice(b"update");
    buf.extend_from_slice(&[42, 0, 0, 0]);
    buf.push(1);
    buf.extend_from_slice(&[0x00, 0x00, 0xC0, 0x3F]);
    buf.extend_from_slice(&[0x00, 0x00, 0x10, 0xC0]);
    assert_eq!(buf.len(), 23);

    let mut decoder = FrameDecoder::new();
    let out = decoder.decode(&buf).unwrap();
    assert_eq!(out.header(), "update");
    assert_eq!(out.ids(), &[42]);
    assert_eq!(out.type_codes(), &[1]);
    assert_eq!(floats(out.xs()), vec![1.5]);
    assert_eq!(floats(out.ys()), vec![-2.25]);
    assert_eq!(out.len(), 1);
}

#[test]
fn declared_header_longer_than_buffer_is_truncated() {
    let mut buf = vec![100, 0, 0, 0];
    buf.extend_from_slice(&[b'a'; 10]);
    let mut decoder = FrameDecoder::new();
    assert_eq!(decoder.decode(&buf).err(), Some(DecodeError::Truncated));
}

#[test]
fn second_decode_leaves_no_residue_of_the_first() {
    let first = frame(b"spawn", &[(1, 0, 0.0, 0.0), (2, 0, 1.0, 1.0), (3, 1, 2.0, 2.0)]);
    let second = frame(b"update", &[(9, 7, -1.0, 4.0)]);
    let mut decoder = FrameDecoder::new();

    assert_eq!(decoder.decode(&first).unwrap().len(), 3);
    let out = decoder.decode(&second).unwrap();
    assert_eq!(out.len(), 1);
    assert_eq!(out.header(), "update");
    assert_eq!(out.ids(), &[9]);
    assert_eq!(out.type_codes(), &[7]);
    assert_eq!(floats(out.xs()), vec![-1.0]);
    assert_eq!(floats(out.ys()), vec![4.0]);

    let out = decoder.decode(&first).unwrap();
    assert_eq!(out.ids(), &[1, 2, 3]);
    assert_eq!(out.header(), "spawn");
}

#[test]
fn columns_have_equal_length() {
    for n in [0usize, 1, 2, 17] {
        let records: Vec<(u32, u8, f32, f32)> =
            (0..n).map(|i| (i as u32, (i % 3) as u8, i as f32, -(i as f32))).collect();
        let buf = frame(b"update", &records);
        let mut decoder = FrameDecoder::new();
        let out = decoder.decode(&buf).unwrap();
        assert_eq!(out.len(), n);
        assert_eq!(out.ids().len(), n);
        assert_eq!(out.type_codes().len(), n);
        assert_eq!(out.xs().len(), n);
        assert_eq!(out.ys().len(), n);
    }
}

#[test]
fn round_trip_reproduces_every_field() {
    let records = [
        (0u32, 0u8, 0.0f32, -0.0f32),
        (u32::MAX, u8::MAX, f32::MAX, f32::MIN),
        (0x0403_0201, 5, f32::INFINITY, f32::NEG_INFINITY),
        (7, 9, f32::MIN_POSITIVE, 1.0e-45),
        (0x8000_0000, 0x80, 3.1415927, -123456.79),
    ];
    let header = "mise à jour ✓ 更新";
    let buf = frame(header.as_bytes(), &records);
    let mut decoder = FrameDecoder::new();
    let out = decoder.decode(&buf).unwrap();
    assert_eq!(out.header(), header);
    assert_eq!(out.len(), records.len());
    for (i, &(id, type_code, x, y)) in records.iter().enumerate() {
        assert_eq!(out.ids()[i], id);
        assert_eq!(out.type_codes()[i], type_code);
        assert_eq!(out.xs()[i], x.to_bits());
        assert_eq!(out.ys()[i], y.to_bits());
    }
}

#[test]
fn nan_payloads_pass_through() {
    let quiet = f32::from_bits(0x7FC0_1234);
    let signalling = f32::from_bits(0xFF80_0001);
    let buf = frame(b"n", &[(1, 2, quiet, signalling)]);
    let out = decode(&buf).unwrap();
    assert_eq!(out.xs(), &[0x7FC0_1234]);
    assert_eq!(out.ys(), &[0xFF80_0001]);
    assert!(f32::from_bits(out.xs()[0]).is_nan());
}

#[test]
fn little_endian_byte_order() {
    let mut buf = vec![1, 0, 0, 0, b'h'];
    buf.extend_from_slice(&[0x01, 0x02, 0x03, 0x04]);
    buf.push(0xAB);
    buf.extend_from_slice(&[0x11, 0x22, 0x33, 0x44]);
    buf.extend_from_slice(&[0xFF, 0x00, 0x00, 0x80]);
    let out = decode(&buf).unwrap();
    assert_eq!(out.header(), "h");
    assert_eq!(out.ids(), &[0x0403_0201]);
    assert_eq!(out.type_codes(), &[0xAB]);
    assert_eq!(out.xs(), &[0x4433_2211]);
    assert_eq!(out.ys(), &[0x8000_00FF]);
}

#[test]
fn decoding_twice_gives_identical_output() {
    let buf = frame(b"update", &[(1, 2, 3.0, 4.0), (5, 6, 7.0, 8.0)]);

    let mut a = FrameDecoder::new();
    let mut b = FrameDecoder::with_max_records(2);
    let out_a = a.decode(&buf).unwrap();
    let out_b = b.decode(&buf).unwrap();
    assert_eq!(out_a.header(), out_b.header());
    assert_eq!(out_a.ids(), out_b.ids());
    assert_eq!(out_a.type_codes(), out_b.type_codes());
    assert_eq!(out_a.xs(), out_b.xs());
    assert_eq!(out_a.ys(), out_b.ys());

    let (header, ids, type_codes, xs, ys) = (
        out_a.header().to_string(),
        out_a.ids().to_vec(),
        out_a.type_codes().to_vec(),
        out_a.xs().to_vec(),
        out_a.ys().to_vec(),
    );
    let again = a.decode(&buf).unwrap();
    assert_eq!(again.header(), header);
    assert_eq!(again.ids(), &ids[..]);
    assert_eq!(again.type_codes(), &type_codes[..]);
    assert_eq!(again.xs(), &xs[..]);
    assert_eq!(again.ys(), &ys[..]);
}

#[test]
fn every_cut_inside_a_field_is_truncated() {
    let header = b"update";
    let records = [(42, 1, 1.5, -2.25), (43, 2, 0.5, 8.0), (44, 3, -1.0, 9.0)];
    let full = frame(header, &records);
    let start = 4 + header.len();
    let mut decoder = FrameDecoder::new();
    for cut in 0..full.len() {
        let res = decoder.decode(&full[..cut]);
        if cut >= start && (cut - start) % 13 == 0 {
            let out = res.unwrap();
            let n = (cut - start) / 13;
            assert_eq!(out.len(), n);
            assert_eq!(out.header(), "update");
            assert_eq!(out.ids(), &[42, 43, 44][..n]);
        } else {
            assert_eq!(res.err(), Some(DecodeError::Truncated), "cut at {}", cut);
        }
    }
    assert_eq!(decoder.decode(&full).unwrap().len(), 3);
}

#[test]
fn empty_buffer_is_truncated() {
    assert_eq!(decode(&[]).err(), Some(DecodeError::Truncated));
    assert_eq!(decode(&[6, 0, 0]).err(), Some(DecodeError::Truncated));
}

#[test]
fn invalid_utf8_header_is_rejected() {
    for bad in [&[0xFFu8][..], &[0xC0, 0x80], &[0xE2, 0x82], &[0xED, 0xA0, 0x80], &[b'o', b'k', 0x80]] {
        let buf = frame(bad, &[(1, 1, 1.0, 1.0)]);
        assert_eq!(decode(&buf).err(), Some(DecodeError::InvalidEncoding));
        let buf = frame(bad, &[]);
        assert_eq!(decode(&buf).err(), Some(DecodeError::InvalidEncoding));
    }
}

#[test]
fn invalid_utf8_is_reported_before_a_partial_record() {
    let mut buf = frame(&[0xFF, 0xFE], &[(1, 1, 1.0, 1.0)]);
    buf.extend_from_slice(&[1, 2, 3]);
    assert_eq!(decode(&buf).err(), Some(DecodeError::InvalidEncoding));
}

#[test]
fn header_without_records_gives_empty_columns() {
    let buf = frame(b"spawn", &[]);
    let mut decoder = FrameDecoder::new();
    let out = decoder.decode(&buf).unwrap();
    assert_eq!(out.header(), "spawn");
    assert_eq!(out.len(), 0);
    assert!(out.ids().is_empty());
    assert!(out.type_codes().is_empty());
    assert!(out.xs().is_empty());
    assert!(out.ys().is_empty());
}

#[test]
fn empty_header_is_accepted() {
    let out = decode(&[0, 0, 0, 0]).unwrap();
    assert_eq!(out.header(), "");
    assert_eq!(out.len(), 0);

    let buf = frame(b"", &[(3, 4, 5.0, 6.0)]);
    let out = decode(&buf).unwrap();
    assert_eq!(out.header(), "");
    assert_eq!(out.ids(), &[3]);
}

#[test]
fn record_limit_is_enforced() {
    let three = frame(b"u", &[(1, 0, 0.0, 0.0), (2, 0, 0.0, 0.0), (3, 0, 0.0, 0.0)]);
    let two = frame(b"u", &[(1, 0, 0.0, 0.0), (2, 0, 0.0, 0.0)]);

    let mut decoder = FrameDecoder::with_max_records(2);
    assert_eq!(decoder.max_records(), 2);
    assert_eq!(decoder.decode(&three).err(), Some(DecodeError::CapacityExceeded));
    assert_eq!(decoder.decode(&two).unwrap().ids(), &[1, 2]);

    let mut none = FrameDecoder::with_max_records(0);
    assert_eq!(none.decode(&two).err(), Some(DecodeError::CapacityExceeded));
    assert_eq!(none.decode(&frame(b"u", &[])).unwrap().len(), 0);
}

#[test]
fn partial_record_at_the_limit_is_truncated() {
    let mut buf = frame(b"u", &[(1, 0, 0.0, 0.0), (2, 0, 0.0, 0.0)]);
    buf.extend_from_slice(&[9; 12]);
    let mut decoder = FrameDecoder::with_max_records(2);
    assert_eq!(decoder.decode(&buf).err(), Some(DecodeError::Truncated));

    buf.push(9);
    buf.extend_from_slice(&[9; 5]);
    assert_eq!(decoder.decode(&buf).err(), Some(DecodeError::CapacityExceeded));
}

#[test]
fn default_limit_is_half_a_million_records() {
    assert_eq!(DEFAULT_MAX_RECORDS, 500_000);
    assert_eq!(FrameDecoder::new().max_records(), 500_000);

    let mut buf = frame(b"bulk", &[]);
    buf.resize(buf.len() + 13 * 500_000, 0);
    let out = decode(&buf).unwrap();
    assert_eq!(out.len(), 500_000);

    buf.resize(buf.len() + 13, 0);
    assert_eq!(decode(&buf).err(), Some(DecodeError::CapacityExceeded));
}

#[test]
fn failed_decode_leaves_nothing_behind() {
    let good = frame(b"update", &[(1, 2, 3.0, 4.0)]);
    let mut bad = good.clone();
    bad.extend_from_slice(&[1, 2, 3, 4, 5]);

    let mut decoder = FrameDecoder::new();
    assert_eq!(decoder.decode(&good).unwrap().len(), 1);
    assert_eq!(decoder.output().ids(), &[1]);
    assert_eq!(decoder.decode(&bad).err(), Some(DecodeError::Truncated));
    assert_eq!(decoder.output().len(), 0);
    assert_eq!(decoder.output().header(), "");
    assert!(decoder.output().ids().is_empty());
    assert!(decoder.output().type_codes().is_empty());
    assert!(decoder.output().xs().is_empty());
    assert!(decoder.output().ys().is_empty());
}

#[test]
fn new_decoder_holds_nothing() {
    let decoder = FrameDecoder::new();
    assert_eq!(decoder.output().len(), 0);
    assert_eq!(decoder.output().header(), "");
    let out = decoder.into_output();
    assert!(out.ids().is_empty());
}

#[test]
fn free_function_matches_decoder() {
    let buf = frame(b"update", &[(42, 1, 1.5, -2.25), (43, 2, 2.5, -3.25)]);
    let owned = decode(&buf).unwrap();
    let mut decoder = FrameDecoder::new();
    let borrowed = decoder.decode(&buf).unwrap();
    assert_eq!(owned.header(), borrowed.header());
    assert_eq!(owned.ids(), borrowed.ids());
    assert_eq!(owned.type_codes(), borrowed.type_codes());
    assert_eq!(owned.xs(), borrowed.xs());
    assert_eq!(owned.ys(), borrowed.ys());
}
