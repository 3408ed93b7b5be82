use sdcard::device::{card_version, check_operating_conditions};
use sdcard::transport::{
    acmd41, app_command_short, card_command_long, card_command_none, card_command_short,
    check_command, check_data, Progress, STATUS_ERROR_MASK,
};
use sdcard::{CardVersion, Command, Direction, Error, Flags, Readout, Transfer};

fn quiet() -> Flags {
    Flags {
        command_active: false,
        command_crc_fail: false,
        command_timeout: false,
        response_received: false,
        command_sent: false,
        receive_active: false,
        transmit_active: false,
        data_crc_fail: false,
        data_timeout: false,
        receive_overrun: false,
        transmit_underrun: false,
        data_end: false,
        block_end: false,
    }
}

fn answered(index: u8, word: u32) -> Readout {
    Readout { flags: Flags { response_received: true, ..quiet() }, index, words: [word, 0, 0, 0] }
}

fn data_done() -> Flags {
    Flags { data_end: true, block_end: true, ..quiet() }
}

#[test]
fn acknowledged_flags_are_the_low_status_bits() {
    assert_eq!(STATUS_ERROR_MASK, 0x5ff);
}

#[test]
fn active_command_is_pending_whatever_else_is_set() {
    let flags = Flags {
        command_active: true,
        command_crc_fail: true,
        command_timeout: true,
        response_received: true,
        command_sent: true,
        ..quiet()
    };
    assert_eq!(check_command(&flags, true), Progress::Pending);
    assert_eq!(check_command(&flags, false), Progress::Pending);
    let flags = Flags { command_active: true, ..quiet() };
    assert_eq!(check_command(&flags, true), Progress::Pending);
    assert_eq!(check_command(&flags, false), Progress::Pending);
}

#[test]
fn crc_failure_comes_before_timeout() {
    let flags = Flags {
        command_crc_fail: true,
        command_timeout: true,
        response_received: true,
        command_sent: true,
        ..quiet()
    };
    assert_eq!(check_command(&flags, true), Progress::Done(Err(Error::CRCFail)));
    assert_eq!(check_command(&flags, false), Progress::Done(Err(Error::CRCFail)));
}

#[test]
fn timeout_comes_before_the_response_flags() {
    let flags =
        Flags { command_timeout: true, response_received: true, command_sent: true, ..quiet() };
    assert_eq!(check_command(&flags, true), Progress::Done(Err(Error::Timeout)));
    assert_eq!(check_command(&flags, false), Progress::Done(Err(Error::Timeout)));
}

#[test]
fn missing_response_is_an_unknown_result() {
    assert_eq!(check_command(&quiet(), true), Progress::Done(Err(Error::UnknownResult)));
    let sent = Flags { command_sent: true, ..quiet() };
    assert_eq!(check_command(&sent, true), Progress::Done(Err(Error::UnknownResult)));
}

#[test]
fn unsent_command_is_an_unknown_result() {
    assert_eq!(check_command(&quiet(), false), Progress::Done(Err(Error::UnknownResult)));
    let received = Flags { response_received: true, ..quiet() };
    assert_eq!(check_command(&received, false), Progress::Done(Err(Error::UnknownResult)));
}

#[test]
fn command_succeeds_on_the_flag_that_fits() {
    let received = Flags { response_received: true, ..quiet() };
    assert_eq!(check_command(&received, true), Progress::Done(Ok(())));
    let sent = Flags { command_sent: true, ..quiet() };
    assert_eq!(check_command(&sent, false), Progress::Done(Ok(())));
    let both = Flags { response_received: true, command_sent: true, ..data_done() };
    assert_eq!(check_command(&both, true), Progress::Done(Ok(())));
    assert_eq!(check_command(&both, false), Progress::Done(Ok(())));
}

#[test]
fn command_flags_ignore_the_data_path() {
    let flags = Flags {
        response_received: true,
        receive_active: true,
        transmit_active: true,
        data_crc_fail: true,
        data_timeout: true,
        receive_overrun: true,
        transmit_underrun: true,
        ..quiet()
    };
    assert_eq!(check_command(&flags, true), Progress::Done(Ok(())));
}

#[test]
fn command_without_response_wants_the_sent_flag() {
    let sent = Readout { flags: Flags { command_sent: true, ..quiet() }, index: 0, words: [0; 4] };
    assert_eq!(card_command_none(&sent), Progress::Done(Ok(())));
    assert_eq!(card_command_none(&answered(0, 0)), Progress::Done(Err(Error::UnknownResult)));
    let active =
        Readout { flags: Flags { command_active: true, ..quiet() }, index: 0, words: [0; 4] };
    assert_eq!(card_command_none(&active), Progress::Pending);
}

#[test]
fn short_command_yields_the_first_word() {
    let readout = Readout {
        flags: Flags { response_received: true, ..quiet() },
        index: 17,
        words: [0x0000_0900, 0x1111_1111, 0x2222_2222, 0x3333_3333],
    };
    assert_eq!(card_command_short(Command::READ_BLOCK, &readout), Progress::Done(Ok(0x900)));
}

#[test]
fn short_command_rejects_a_foreign_index() {
    assert_eq!(
        card_command_short(Command::READ_BLOCK, &answered(18, 0x900)),
        Progress::Done(Err(Error::UnexpectedResponse))
    );
    assert_eq!(
        card_command_short(Command::SEND_STATUS, &answered(55, 0x900)),
        Progress::Done(Err(Error::UnexpectedResponse))
    );
    assert_eq!(
        card_command_short(Command::APP_COMMAND, &answered(55, 0x120)),
        Progress::Done(Ok(0x120))
    );
}

#[test]
fn short_command_reports_transport_errors_before_the_index() {
    let mut readout = answered(18, 0x900);
    readout.flags.command_crc_fail = true;
    assert_eq!(
        card_command_short(Command::READ_BLOCK, &readout),
        Progress::Done(Err(Error::CRCFail))
    );
    let mut readout = answered(18, 0x900);
    readout.flags.command_timeout = true;
    assert_eq!(
        card_command_short(Command::READ_BLOCK, &readout),
        Progress::Done(Err(Error::Timeout))
    );
    let mut readout = answered(18, 0x900);
    readout.flags.response_received = false;
    assert_eq!(
        card_command_short(Command::READ_BLOCK, &readout),
        Progress::Done(Err(Error::UnknownResult))
    );
    let mut readout = answered(18, 0x900);
    readout.flags.command_active = true;
    assert_eq!(card_command_short(Command::READ_BLOCK, &readout), Progress::Pending);
}

#[test]
fn long_command_is_classified_like_any_response() {
    assert_eq!(card_command_long(&answered(0x3f, 1)), Progress::Done(Ok(())));
    let mut readout = answered(0x3f, 1);
    readout.flags.command_crc_fail = true;
    assert_eq!(card_command_long(&readout), Progress::Done(Err(Error::CRCFail)));
    let mut readout = answered(0x3f, 1);
    readout.flags.command_active = true;
    assert_eq!(card_command_long(&readout), Progress::Pending);
    let sent = Readout { flags: Flags { command_sent: true, ..quiet() }, index: 0, words: [0; 4] };
    assert_eq!(card_command_long(&sent), Progress::Done(Err(Error::UnknownResult)));
}

#[test]
fn app_command_takes_any_index() {
    assert_eq!(app_command_short(&answered(6, 0x920)), Progress::Done(Ok(0x920)));
    assert_eq!(app_command_short(&answered(0x3f, 0x920)), Progress::Done(Ok(0x920)));
    let mut readout = answered(6, 0x920);
    readout.flags.command_crc_fail = true;
    assert_eq!(app_command_short(&readout), Progress::Done(Err(Error::CRCFail)));
}

#[test]
fn operating_conditions_take_a_crc_failure_as_the_answer() {
    let readout = Readout {
        flags: Flags { command_crc_fail: true, ..quiet() },
        index: 0x3f,
        words: [0xc0ff_8000, 0, 0, 0],
    };
    assert_eq!(acmd41(&readout), Progress::Done(Ok(0xc0ff_8000)));
    assert_eq!(acmd41(&answered(0x3f, 0x00ff_8000)), Progress::Done(Ok(0x00ff_8000)));
}

#[test]
fn operating_conditions_keep_every_other_failure() {
    let timeout =
        Readout { flags: Flags { command_timeout: true, ..quiet() }, index: 0, words: [0; 4] };
    assert_eq!(acmd41(&timeout), Progress::Done(Err(Error::Timeout)));
    let nothing = Readout { flags: quiet(), index: 0, words: [0; 4] };
    assert_eq!(acmd41(&nothing), Progress::Done(Err(Error::UnknownResult)));
    let active = Readout {
        flags: Flags { command_active: true, command_crc_fail: true, ..quiet() },
        index: 0,
        words: [0; 4],
    };
    assert_eq!(acmd41(&active), Progress::Pending);
}

#[test]
fn data_phase_succeeds_on_both_end_flags() {
    assert_eq!(check_data(&data_done()), Ok(()));
}

#[test]
fn data_phase_errors_come_in_order() {
    let all = Flags {
        data_crc_fail: true,
        data_timeout: true,
        receive_overrun: true,
        transmit_underrun: true,
        ..quiet()
    };
    assert_eq!(check_data(&all), Err(Error::CRCFail));
    assert_eq!(check_data(&Flags { data_crc_fail: false, ..all }), Err(Error::Timeout));
    assert_eq!(
        check_data(&Flags { data_crc_fail: false, data_timeout: false, ..all }),
        Err(Error::ReceiveOverrun)
    );
    assert_eq!(
        check_data(&Flags {
            data_crc_fail: false,
            data_timeout: false,
            receive_overrun: false,
            ..all
        }),
        Err(Error::SendUnderrun)
    );
}

#[test]
fn data_phase_errors_win_over_the_end_flags() {
    assert_eq!(check_data(&Flags { data_crc_fail: true, ..data_done() }), Err(Error::CRCFail));
    assert_eq!(check_data(&Flags { data_timeout: true, ..data_done() }), Err(Error::Timeout));
    assert_eq!(
        check_data(&Flags { receive_overrun: true, ..data_done() }),
        Err(Error::ReceiveOverrun)
    );
    assert_eq!(
        check_data(&Flags { transmit_underrun: true, ..data_done() }),
        Err(Error::SendUnderrun)
    );
}

#[test]
fn data_phase_without_an_end_flag_is_an_unknown_result() {
    assert_eq!(check_data(&quiet()), Err(Error::UnknownResult));
    assert_eq!(check_data(&Flags { data_end: true, ..quiet() }), Err(Error::UnknownResult));
    assert_eq!(check_data(&Flags { block_end: true, ..quiet() }), Err(Error::UnknownResult));
}

#[test]
fn interface_condition_tells_the_version() {
    assert_eq!(check_operating_conditions(Ok(0x1aa)), Ok(true));
    assert_eq!(check_operating_conditions(Err(Error::Timeout)), Ok(false));
}

#[test]
fn interface_condition_rejects_a_wrong_echo() {
    assert_eq!(
        check_operating_conditions(Ok(0x1ab)),
        Err(Error::OperatingConditionsNotSupported)
    );
    assert_eq!(check_operating_conditions(Ok(0)), Err(Error::OperatingConditionsNotSupported));
    assert_eq!(
        check_operating_conditions(Ok(0x0aa)),
        Err(Error::OperatingConditionsNotSupported)
    );
    assert_eq!(
        check_operating_conditions(Ok(0x8000_01aa)),
        Err(Error::OperatingConditionsNotSupported)
    );
}

#[test]
fn interface_condition_keeps_other_errors() {
    assert_eq!(check_operating_conditions(Err(Error::CRCFail)), Err(Error::CRCFail));
    assert_eq!(check_operating_conditions(Err(Error::UnknownResult)), Err(Error::UnknownResult));
    assert_eq!(
        check_operating_conditions(Err(Error::UnexpectedResponse)),
        Err(Error::UnexpectedResponse)
    );
}

#[test]
fn version_follows_the_two_bits() {
    assert_eq!(card_version(false, false), CardVersion::V1SC);
    assert_eq!(card_version(false, true), CardVersion::V1SC);
    assert_eq!(card_version(true, false), CardVersion::V2SC);
    assert_eq!(card_version(true, true), CardVersion::V2HC);
}

#[test]
fn transfer_lengths_are_powers_of_two_from_4_below_the_ceiling() {
    let mut valid = Vec::new();
    for length in 0u32..0x4_0010 {
        if Transfer::accepts(length) {
            valid.push(length);
        }
    }
    let expected: Vec<u32> = (2..18).map(|k| 1u32 << k).collect();
    assert_eq!(valid, expected);
}

#[test]
fn transfer_rejects_lengths_at_and_above_the_ceiling() {
    assert!(Transfer::accepts(0x2_0000));
    assert!(!Transfer::accepts(0x4_0000));
    assert!(!Transfer::accepts(0x8_0000));
    assert!(!Transfer::accepts(0x8000_0000));
    assert!(!Transfer::accepts(0xffff_ffff));
}

#[test]
fn transfer_rejects_lengths_that_are_no_whole_words() {
    assert!(!Transfer::accepts(0));
    assert!(!Transfer::accepts(1));
    assert!(!Transfer::accepts(2));
    assert!(!Transfer::accepts(3));
    assert!(Transfer::accepts(4));
    assert!(!Transfer::accepts(6));
    assert!(!Transfer::accepts(12));
    assert!(!Transfer::accepts(513));
    assert!(!Transfer::accepts(1536));
}

#[test]
fn transfer_counts_words() {
    let block = Transfer::new(512, Direction::Receive);
    assert_eq!(block, Transfer { direction: Direction::Receive, words: 128 });
    let status = Transfer::new(64, Direction::Receive);
    assert_eq!(status.words, 16);
    let largest = Transfer::new(0x2_0000, Direction::Send);
    assert_eq!(largest, Transfer { direction: Direction::Send, words: 0x8000 });
    assert_eq!(Transfer::new(4, Direction::Send).words, 1);
}
