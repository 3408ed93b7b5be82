use sdcard::card_status::{test_bit, ERROR_MASK};
use sdcard::sd_status::allocation_unit_size;
use sdcard::{
    AppCommand, Block, BusWidth, CardState, CardStatus, CardVersion, Clock, Command, Config,
    Error, ResponseKind, SDStatus, BLOCK_SIZE, CSD,
};

fn standard(c_size: u32, c_size_mult: u32) -> CSD {
    let mut words = [0x0026_0032, 0x5f5a_8000, 0x3ef8_4fff, 0x9280_40df];
    words[1] |= c_size >> 2;
    words[2] |= (c_size & 0x3) << 30;
    words[2] |= c_size_mult << 15;
    CSD::V1(words)
}

fn high(c_size: u32) -> CSD {
    let mut words = [0x400e_0032, 0x5b59_0000, 0x0000_7f80, 0x0a40_40af];
    words[1] |= c_size >> 16;
    words[2] |= (c_size & 0xffff) << 16;
    CSD::V2(words)
}

fn status_with(offset: usize, value: u8) -> SDStatus {
    let mut raw = [0u8; 64];
    raw[offset] = value;
    SDStatus::new(raw)
}

#[test]
fn block_is_512_zero_bytes() {
    let block = Block::zeroed();
    assert_eq!(BLOCK_SIZE, 512);
    assert_eq!(block.0.len(), 512);
    assert!(block.0.iter().all(|&byte| byte == 0));
}

#[test]
fn command_indices_are_those_of_the_protocol() {
    assert_eq!(Command::GO_IDLE_STATE.code(), 0);
    assert_eq!(Command::ALL_SEND_CID.code(), 2);
    assert_eq!(Command::SEND_RELATIVE_ADDR.code(), 3);
    assert_eq!(Command::SELECT_CARD.code(), 7);
    assert_eq!(Command::SEND_IF_COND.code(), 8);
    assert_eq!(Command::SEND_CSD.code(), 9);
    assert_eq!(Command::SEND_CID.code(), 10);
    assert_eq!(Command::SEND_STATUS.code(), 13);
    assert_eq!(Command::READ_BLOCK.code(), 17);
    assert_eq!(Command::READ_MULTIPLE_BLOCK.code(), 18);
    assert_eq!(Command::SET_BLOCK_COUNT.code(), 23);
    assert_eq!(Command::WRITE_BLOCK.code(), 24);
    assert_eq!(Command::WRITE_MULTIPLE_BLOCK.code(), 25);
    assert_eq!(Command::ERASE_WR_BLK_START.code(), 32);
    assert_eq!(Command::ERASE_WR_BLK_END.code(), 33);
    assert_eq!(Command::ERASE.code(), 38);
    assert_eq!(Command::APP_COMMAND.code(), 55);
}

#[test]
fn app_command_indices_are_those_of_the_protocol() {
    assert_eq!(AppCommand::SET_BUS_WIDTH.code(), 6);
    assert_eq!(AppCommand::SD_STATUS.code(), 13);
    assert_eq!(AppCommand::SET_WR_BLK_ERASE_COUNT.code(), 23);
    assert_eq!(AppCommand::SD_SEND_OP_COND.code(), 41);
}

#[test]
fn response_kinds_encode_the_wait_field() {
    assert_eq!(ResponseKind::Silent.wait_bits(), 0);
    assert_eq!(ResponseKind::Short.wait_bits(), 1);
    assert_eq!(ResponseKind::Long.wait_bits(), 3);
    assert!(!ResponseKind::Silent.expects_response());
    assert!(ResponseKind::Short.expects_response());
    assert!(ResponseKind::Long.expects_response());
}

#[test]
fn default_config_is_one_bit_divider_four() {
    let config = Config::default();
    assert_eq!(config.bus_width, BusWidth::Bits1);
    assert_eq!(config.clock_divider, 4);
    assert_eq!(config.data_timeout, 0x100_0000);
    assert_eq!(config.clock(), Clock::Divide(2));
    assert_eq!(config.bus_width_argument(), 0);
}

#[test]
fn clock_bypasses_below_two() {
    let mut config = Config::default();
    config.clock_divider = 0;
    assert_eq!(config.clock(), Clock::Bypass);
    config.clock_divider = 1;
    assert_eq!(config.clock(), Clock::Bypass);
    config.clock_divider = 2;
    assert_eq!(config.clock(), Clock::Divide(0));
    config.clock_divider = 255;
    assert_eq!(config.clock(), Clock::Divide(253));
    config.bus_width = BusWidth::Bits4;
    assert_eq!(config.bus_width_argument(), 2);
}

#[test]
fn standard_capacity_follows_the_formula() {
    assert_eq!(standard(0, 0).capacity(), 4);
    assert_eq!(standard(0, 7).capacity(), 512);
    assert_eq!(standard(1, 0).capacity(), 8);
    assert_eq!(standard(2, 1).capacity(), 24);
    assert_eq!(standard(3, 0).capacity(), 16);
    assert_eq!(standard(4095, 0).capacity(), 16384);
    assert_eq!(standard(4095, 7).capacity(), 2_097_152);
    assert_eq!(standard(1023, 5).capacity(), 131_072);
    for c_size in [0u32, 1, 2, 3, 4, 1000, 2047, 2048, 3771, 4094, 4095] {
        for c_size_mult in 0u32..8 {
            assert_eq!(
                standard(c_size, c_size_mult).capacity(),
                (c_size + 1) << (c_size_mult + 2)
            );
        }
    }
}

#[test]
fn standard_capacity_of_a_register_dump() {
    let csd = CSD::V1([0x0026_0032, 0x5f5a_83ae, 0xfefb_cfff, 0x9280_40df]);
    assert_eq!(csd.capacity(), 1_931_264);
    assert_eq!(csd.capacity(), (3771 + 1) << (7 + 2));
}

#[test]
fn standard_capacity_reads_only_its_fields() {
    let blank = CSD::V1([0, 0, 0, 0]);
    assert_eq!(blank.capacity(), 4);
    let noise = CSD::V1([0xffff_ffff, 0xffff_fc00, 0x3ffc_7fff, 0xffff_ffff]);
    assert_eq!(noise.capacity(), 4);
    let low = CSD::V1([0, 0, 0x4000_0000, 0]);
    assert_eq!(low.capacity(), 8);
    let high_bits = CSD::V1([0, 0x200, 0, 0]);
    assert_eq!(high_bits.capacity(), 2049 << 2);
}

#[test]
fn high_capacity_follows_the_formula() {
    assert_eq!(high(0).capacity(), 1024);
    assert_eq!(high(1).capacity(), 2048);
    assert_eq!(high(0x3b37).capacity(), 15_523_840);
    assert_eq!(high(0xffff).capacity(), 0x400_0000);
    assert_eq!(high(0x1_0000).capacity(), 0x400_0400);
    assert_eq!(high(0x1_dbbf).capacity(), 124_715_008);
    assert_eq!(high(0x3f_feff).capacity(), 0xfffc_0000);
    assert_eq!(high(0x3f_fffe).capacity(), 0xffff_fc00);
    for c_size in [0u32, 7, 0x3b37, 0xffff, 0x1_0000, 0x2a_aaaa, 0x3f_fffe] {
        assert_eq!(high(c_size).capacity(), (c_size + 1) << 10);
    }
}

#[test]
fn high_capacity_of_a_register_dump() {
    let csd = CSD::V2([0x400e_0032, 0x5b59_0000, 0x3b37_7f80, 0x0a40_40af]);
    assert_eq!(csd.capacity(), 15_523_840);
}

#[test]
fn high_capacity_wraps_at_the_largest_field() {
    assert_eq!(high(0x3f_ffff).capacity(), 0);
}

#[test]
fn high_capacity_reads_only_its_field() {
    let noise = CSD::V2([0xffff_ffff, 0xffff_ffc0, 0x0000_ffff, 0xffff_ffff]);
    assert_eq!(noise.capacity(), 1024);
}

#[test]
fn layouts_differ_on_the_same_words() {
    let words = [0x400e_0032, 0x5b59_0000, 0x3b37_7f80, 0x0a40_40af];
    assert_eq!(CSD::V2(words).capacity(), 15_523_840);
    assert_eq!(CSD::V1(words).capacity(), (0 + 1) << (6 + 2));
}

#[test]
fn any_error_is_the_mask_test() {
    assert_eq!(ERROR_MASK, 0xfff9_8004);
    assert!(!CardStatus::new(0).any_error());
    assert!(CardStatus::new(0xffff_ffff).any_error());
    assert!(!CardStatus::new(!0xfff9_8004u32).any_error());
    assert!(CardStatus::new(0xfff9_8004).any_error());
    for n in 0..32 {
        let raw = 1u32 << n;
        assert_eq!(CardStatus::new(raw).any_error(), raw & 0xfff9_8004 != 0);
        assert_eq!(CardStatus::new(!raw).any_error(), !raw & 0xfff9_8004 != 0);
    }
    let mut raw = 0x1234_5678u32;
    for _ in 0..2000 {
        raw = raw.wrapping_mul(1_664_525).wrapping_add(1_013_904_223);
        assert_eq!(CardStatus::new(raw).any_error(), raw & 0xfff9_8004 != 0);
    }
}

#[test]
fn any_error_ignores_state_and_ready_bits() {
    assert!(!CardStatus::new(0x0000_0900).any_error());
    assert!(!CardStatus::new(0x0000_1f20).any_error());
    assert!(CardStatus::new(0x0000_0004).any_error());
    assert!(CardStatus::new(0x0000_8000).any_error());
    assert!(CardStatus::new(0x0008_0000).any_error());
    assert!(!CardStatus::new(0x0006_0000).any_error());
    assert!(CardStatus::new(0x8000_0000).any_error());
}

#[test]
fn state_maps_bits_9_to_12() {
    let named = [
        CardState::Idle,
        CardState::Ready,
        CardState::Ident,
        CardState::Standby,
        CardState::Transmit,
        CardState::Data,
        CardState::Receive,
        CardState::Program,
        CardState::Disabled,
    ];
    for field in 0u32..16 {
        let expected = if field < 9 { named[field as usize] } else { CardState::Reserved };
        assert_eq!(CardStatus::new(field << 9).state(), expected);
        assert_eq!(CardStatus::new(field << 9 | 0xffff_e1ff).state(), expected);
        assert_eq!(CardStatus::new(field << 9 | 0x0000_0100).state(), expected);
    }
}

#[test]
fn state_of_a_selected_card() {
    let status = CardStatus::new(0x0000_0900);
    assert_eq!(status.state(), CardState::Transmit);
    assert!(status.ready_for_data());
    assert!(!status.app_cmd());
    assert!(!status.any_error());
    assert_eq!(status.raw(), 0x0000_0900);
}

#[test]
fn ready_for_data_is_bit_8() {
    assert!(CardStatus::new(0x100).ready_for_data());
    assert!(!CardStatus::new(!0x100u32).ready_for_data());
    assert!(!CardStatus::new(0x80).ready_for_data());
    assert!(!CardStatus::new(0x200).ready_for_data());
}

#[test]
fn app_cmd_is_bit_5() {
    assert!(CardStatus::new(0x20).app_cmd());
    assert!(!CardStatus::new(!0x20u32).app_cmd());
    assert!(!CardStatus::new(0x10).app_cmd());
    assert!(!CardStatus::new(0x40).app_cmd());
}

#[test]
fn test_bit_reads_one_bit() {
    assert!(test_bit(0x8000_0000, 31));
    assert!(!test_bit(0x7fff_ffff, 31));
    assert!(test_bit(0x4000_0000, 30));
    assert!(!test_bit(0x4000_0000, 31));
    assert!(test_bit(1, 0));
    assert!(!test_bit(2, 0));
}

#[test]
fn au_size_follows_the_table() {
    const KIB: usize = 1024;
    const MIB: usize = 1024 * 1024;
    let table = [
        (0x1u8, 16 * KIB),
        (0x2, 32 * KIB),
        (0x3, 64 * KIB),
        (0x4, 128 * KIB),
        (0x5, 256 * KIB),
        (0x6, 512 * KIB),
        (0x7, MIB),
        (0x8, 2 * MIB),
        (0x9, 4 * MIB),
        (0xa, 8 * MIB),
        (0xb, 12 * MIB),
        (0xc, 16 * MIB),
        (0xd, 24 * MIB),
        (0xe, 32 * MIB),
        (0xf, 64 * MIB),
    ];
    for (code, size) in table {
        assert_eq!(allocation_unit_size(code), Ok(size));
        assert_eq!(status_with(0x0a, code << 4).au_size(), Ok(size));
        assert_eq!(status_with(0x0a, code << 4 | 0x0f).au_size(), Ok(size));
    }
}

#[test]
fn au_size_rejects_codes_outside_the_table() {
    assert_eq!(allocation_unit_size(0), Err(Error::InvalidValue));
    assert_eq!(allocation_unit_size(0x10), Err(Error::InvalidValue));
    assert_eq!(allocation_unit_size(0x11), Err(Error::InvalidValue));
    assert_eq!(allocation_unit_size(0x80), Err(Error::InvalidValue));
    assert_eq!(allocation_unit_size(0xff), Err(Error::InvalidValue));
    for code in 0x10u8..=0xff {
        assert_eq!(allocation_unit_size(code), Err(Error::InvalidValue));
    }
    assert_eq!(status_with(0x0a, 0x00).au_size(), Err(Error::InvalidValue));
    assert_eq!(status_with(0x0a, 0x0f).au_size(), Err(Error::InvalidValue));
}

#[test]
fn data_bus_width_is_the_top_of_byte_0() {
    assert_eq!(status_with(0, 0x00).data_bus_width(), Ok(BusWidth::Bits1));
    assert_eq!(status_with(0, 0x3f).data_bus_width(), Ok(BusWidth::Bits1));
    assert_eq!(status_with(0, 0x80).data_bus_width(), Ok(BusWidth::Bits4));
    assert_eq!(status_with(0, 0xbf).data_bus_width(), Ok(BusWidth::Bits4));
    assert_eq!(status_with(0, 0x40).data_bus_width(), Err(Error::InvalidValue));
    assert_eq!(status_with(0, 0xc0).data_bus_width(), Err(Error::InvalidValue));
}

#[test]
fn sd_card_type_is_bytes_2_and_3() {
    let mut raw = [0u8; 64];
    raw[2] = 0x12;
    raw[3] = 0x34;
    assert_eq!(SDStatus::new(raw).sd_card_type(), 0x1234);
    assert_eq!(status_with(3, 0xff).sd_card_type(), 0x00ff);
    assert_eq!(status_with(2, 0xff).sd_card_type(), 0xff00);
    assert_eq!(status_with(4, 0xff).sd_card_type(), 0);
}

#[test]
fn erase_size_is_bytes_11_and_12() {
    let mut raw = [0u8; 64];
    raw[0x0b] = 0xab;
    raw[0x0c] = 0xcd;
    assert_eq!(SDStatus::new(raw).erase_size(), 0xabcd);
    assert_eq!(status_with(0x0c, 0x08).erase_size(), 8);
    assert_eq!(status_with(0x0b, 0x01).erase_size(), 256);
    assert_eq!(status_with(0x0a, 0xff).erase_size(), 0);
}

#[test]
fn erase_timeout_is_the_top_six_bits_of_byte_13() {
    assert_eq!(status_with(0x0d, 0x00).erase_timeout(), 0);
    assert_eq!(status_with(0x0d, 0x03).erase_timeout(), 0);
    assert_eq!(status_with(0x0d, 0x04).erase_timeout(), 1);
    assert_eq!(status_with(0x0d, 0x0b).erase_timeout(), 2);
    assert_eq!(status_with(0x0d, 0xfc).erase_timeout(), 63);
    assert_eq!(status_with(0x0d, 0xff).erase_timeout(), 63);
}

#[test]
fn feature_flags_are_the_low_bits_of_byte_24() {
    assert!(!status_with(0x18, 0x00).discard_support());
    assert!(!status_with(0x18, 0x00).fule_support());
    assert!(status_with(0x18, 0x02).discard_support());
    assert!(!status_with(0x18, 0x02).fule_support());
    assert!(!status_with(0x18, 0x01).discard_support());
    assert!(status_with(0x18, 0x01).fule_support());
    assert!(status_with(0x18, 0x03).discard_support());
    assert!(status_with(0x18, 0x03).fule_support());
    assert!(!status_with(0x18, 0xfc).discard_support());
    assert!(!status_with(0x18, 0xfc).fule_support());
    assert!(!status_with(0x17, 0xff).discard_support());
}

#[test]
fn sd_status_of_a_register_dump() {
    let mut raw = [0u8; 64];
    raw[0x00] = 0x80;
    raw[0x0a] = 0x90;
    raw[0x0b] = 0x00;
    raw[0x0c] = 0x08;
    raw[0x0d] = 0x05;
    raw[0x18] = 0x01;
    let status = SDStatus::new(raw);
    assert_eq!(status.data_bus_width(), Ok(BusWidth::Bits4));
    assert_eq!(status.au_size(), Ok(4 * 1024 * 1024));
    assert_eq!(status.sd_card_type(), 0);
    assert_eq!(status.erase_size(), 8);
    assert_eq!(status.erase_timeout(), 1);
    assert!(!status.discard_support());
    assert!(status.fule_support());
}

#[test]
fn card_versions_are_distinct() {
    assert_ne!(CardVersion::V1SC, CardVersion::V2SC);
    assert_ne!(CardVersion::V2SC, CardVersion::V2HC);
    assert_ne!(CardVersion::V1SC, CardVersion::V2HC);
}
