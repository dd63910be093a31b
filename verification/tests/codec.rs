use market_codec::buf::{ReadBuf, WriteBuf};
use market_codec::discrete_auction::{
    DiscreteAuctionDecoder, DiscreteAuctionEncoder, NoUnderlyingsEncoder, SBE_BLOCK_LENGTH,
    SBE_SCHEMA_ID, SBE_SCHEMA_VERSION, SBE_TEMPLATE_ID,
};
use market_codec::error::SbeErr;
use market_codec::header::{MessageHeaderDecoder, ENCODED_LENGTH};

fn encode_message(capacity: usize, symbols: &[&[u8]]) -> Vec<u8> {
    let buf = WriteBuf::new(vec![0u8; capacity]);
    let encoder = DiscreteAuctionEncoder::default().wrap(buf, ENCODED_LENGTH);
    let mut header = encoder.header(0);
    let mut encoder = header.parent().unwrap();
    encoder.trad_ses_open_time(1_700_000_000_000_000_001);
    encoder.trad_ses_close_time_from(1_700_000_000_000_000_002);
    encoder.trad_ses_close_time_till(1_700_000_000_000_000_003);
    encoder.auction_id(-42);
    encoder.exchange_trading_session_id(7_001);
    encoder.event_id_open(-1);
    encoder.event_id_close(2_147_483_647);
    let mut group =
        encoder.no_underlyings_encoder(symbols.len() as u8, NoUnderlyingsEncoder::default());
    for (i, sym) in symbols.iter().enumerate() {
        assert_eq!(group.advance().unwrap(), Some(i));
        group.underlying_symbol(sym);
    }
    let encoder = group.parent().unwrap();
    encoder.into_vec()
}

#[test]
fn message_round_trip() {
    let data = encode_message(256, &[b"SiM4", b"RTS"]);

    let header = MessageHeaderDecoder::default().wrap(ReadBuf::new(data), 0);
    assert_eq!(header.block_length(), SBE_BLOCK_LENGTH);
    assert_eq!(header.template_id(), SBE_TEMPLATE_ID);
    assert_eq!(header.schema_id(), SBE_SCHEMA_ID);
    assert_eq!(header.version(), SBE_SCHEMA_VERSION);

    let decoder = DiscreteAuctionDecoder::default().header(header);
    assert_eq!(decoder.encoded_length(), SBE_BLOCK_LENGTH as usize);
    assert_eq!(decoder.trad_ses_open_time(), 1_700_000_000_000_000_001);
    assert_eq!(decoder.trad_ses_close_time_from(), 1_700_000_000_000_000_002);
    assert_eq!(decoder.trad_ses_close_time_till(), 1_700_000_000_000_000_003);
    assert_eq!(decoder.auction_id(), -42);
    assert_eq!(decoder.exchange_trading_session_id(), 7_001);
    assert_eq!(decoder.event_id_open(), -1);
    assert_eq!(decoder.event_id_close(), 2_147_483_647);

    let mut group = decoder.no_underlyings_decoder();
    assert_eq!(group.count(), 2);
    assert_eq!(group.advance().unwrap(), Some(0));
    let coords = group.underlying_symbol_decoder();
    assert_eq!(group.underlying_symbol_slice(coords), b"SiM4");
    assert_eq!(group.advance().unwrap(), Some(1));
    let coords = group.underlying_symbol_decoder();
    assert_eq!(group.underlying_symbol_slice(coords), b"RTS");
    assert_eq!(group.advance().unwrap(), None);
}

#[test]
fn group_advance_exhausts_exactly_once_per_entry() {
    let data = encode_message(256, &[b"A", b"B", b"C"]);
    let header = MessageHeaderDecoder::default().wrap(ReadBuf::new(data), 0);
    let decoder = DiscreteAuctionDecoder::default().header(header);
    let mut group = decoder.no_underlyings_decoder();
    assert_eq!(group.count(), 3);
    let mut successes = 0usize;
    loop {
        match group.advance().unwrap() {
            Some(idx) => {
                assert_eq!(idx, successes);
                let coords = group.underlying_symbol_decoder();
                let _ = group.underlying_symbol_slice(coords);
                successes += 1;
            }
            None => break,
        }
    }
    assert_eq!(successes, 3);
    // exhaustion is idempotent: one more advance still reports no entries
    assert_eq!(group.advance().unwrap(), None);
}

#[test]
fn empty_group_advance_yields_no_entries() {
    let data = encode_message(64, &[]);
    let header = MessageHeaderDecoder::default().wrap(ReadBuf::new(data), 0);
    let decoder = DiscreteAuctionDecoder::default().header(header);
    let mut group = decoder.no_underlyings_decoder();
    assert_eq!(group.count(), 0);
    assert_eq!(group.advance().unwrap(), None);
    assert_eq!(group.advance().unwrap(), None);
}

#[test]
fn var_length_round_trip_zero_and_large() {
    // a zero-length payload and one that fills the buffer to its last byte
    let capacity = 1024usize;
    let large = vec![0xA5u8; capacity - ENCODED_LENGTH - SBE_BLOCK_LENGTH as usize - 3 - 4];
    let symbols: [&[u8]; 2] = [b"", large.as_slice()];
    let data = encode_message(capacity, &symbols);
    let header = MessageHeaderDecoder::default().wrap(ReadBuf::new(data), 0);
    let decoder = DiscreteAuctionDecoder::default().header(header);
    let mut group = decoder.no_underlyings_decoder();
    assert_eq!(group.advance().unwrap(), Some(0));
    let coords = group.underlying_symbol_decoder();
    assert_eq!(coords.1, 0);
    assert_eq!(group.underlying_symbol_slice(coords), b"");
    assert_eq!(group.advance().unwrap(), Some(1));
    let coords = group.underlying_symbol_decoder();
    assert_eq!(group.underlying_symbol_slice(coords), large.as_slice());
}

#[test]
fn encoder_parent_taken_twice_fails() {
    let buf = WriteBuf::new(vec![0u8; 128]);
    let encoder = DiscreteAuctionEncoder::default().wrap(buf, ENCODED_LENGTH);
    let mut group = encoder.no_underlyings_encoder(0, NoUnderlyingsEncoder::default());
    assert!(group.parent().is_ok());
    assert_eq!(group.parent().unwrap_err(), SbeErr::ParentNotSet);
}

#[test]
fn decoder_parent_taken_twice_fails() {
    let data = encode_message(64, &[]);
    let header = MessageHeaderDecoder::default().wrap(ReadBuf::new(data), 0);
    let decoder = DiscreteAuctionDecoder::default().header(header);
    let mut group = decoder.no_underlyings_decoder();
    assert!(group.parent().is_ok());
    assert_eq!(group.parent().unwrap_err(), SbeErr::ParentNotSet);
}

#[test]
fn advance_without_parent_fails() {
    let buf = WriteBuf::new(vec![0u8; 128]);
    let encoder = DiscreteAuctionEncoder::default().wrap(buf, ENCODED_LENGTH);
    let mut group = encoder.no_underlyings_encoder(2, NoUnderlyingsEncoder::default());
    assert!(group.parent().is_ok());
    assert_eq!(group.advance().unwrap_err(), SbeErr::ParentNotSet);
}

#[test]
fn header_parent_taken_twice_fails() {
    let data = encode_message(64, &[]);
    let mut header = MessageHeaderDecoder::default().wrap(ReadBuf::new(data), 0);
    assert!(header.parent().is_ok());
    assert_eq!(header.parent().unwrap_err(), SbeErr::ParentNotSet);
}

#[test]
fn encoded_length_covers_fixed_block_and_group() {
    let buf = WriteBuf::new(vec![0u8; 256]);
    let encoder = DiscreteAuctionEncoder::default().wrap(buf, ENCODED_LENGTH);
    assert_eq!(encoder.encoded_length(), SBE_BLOCK_LENGTH as usize);
    let mut group = encoder.no_underlyings_encoder(1, NoUnderlyingsEncoder::default());
    assert_eq!(group.advance().unwrap(), Some(0));
    group.underlying_symbol(b"XYZ");
    let encoder = group.parent().unwrap();
    // fixed block + 3-byte group descriptor + 2-byte length prefix + payload
    assert_eq!(encoder.encoded_length(), SBE_BLOCK_LENGTH as usize + 3 + 2 + 3);
}

#[test]
fn wire_layout_is_little_endian_at_fixed_offsets() {
    let buf = WriteBuf::new(vec![0u8; 64]);
    let encoder = DiscreteAuctionEncoder::default().wrap(buf, ENCODED_LENGTH);
    let mut header = encoder.header(0);
    let mut encoder = header.parent().unwrap();
    encoder.trad_ses_open_time(0x0102030405060708);
    encoder.exchange_trading_session_id(0x0A0B0C0D);
    let data = encoder.into_vec();
    // header: block length 44, template 13, schema 19780, version 3
    assert_eq!(&data[0..8], &[44, 0, 13, 0, 68, 77, 3, 0]);
    // u64 field at message offset 0 (byte 8), little-endian
    assert_eq!(&data[8..16], &[8, 7, 6, 5, 4, 3, 2, 1]);
    // i32 field at message offset 32 (byte 40), little-endian
    assert_eq!(&data[40..44], &[0x0D, 0x0C, 0x0B, 0x0A]);
}
