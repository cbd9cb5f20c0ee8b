use bme280::submodules::registers::{
    Calib00_25, Calib26_41, CtrlHum, CtrlMeas, Id, Mode, RawMeasures, RegAddr, RegSize, Reset,
    Status, UnrecognizedFieldValue,
};
use bme280::Oversampling;

#[test]
fn test_status_parse() {
    // Measuring and ImUpdate
    let mock_status = Status(0b00001001);
    assert_eq!(
        (1, 1),
        (mock_status.get_im_update(), mock_status.get_measuring())
    );

    // Measuring and no ImUpdate
    let mock_status = Status(0b00001000);
    assert_eq!(
        (0, 1),
        (mock_status.get_im_update(), mock_status.get_measuring())
    );
}

#[test]
fn test_ctrl_hum_parse() {
    let mock_data = CtrlHum(0b000000000);
    assert!(matches!(
        Oversampling::try_from(mock_data.get_oversampling()).unwrap(),
        Oversampling::ModuleDisabled
    ));

    let mock_data = CtrlHum(0b000000001);
    assert!(matches!(
        Oversampling::try_from(mock_data.get_oversampling()).unwrap(),
        Oversampling::X1
    ));

    let mock_data = CtrlHum(0b000000101);
    assert!(matches!(
        Oversampling::try_from(mock_data.get_oversampling()).unwrap(),
        Oversampling::X16
    ));
}

#[test]
fn test_calib00_25_parse() {
    let mock_data = [
        0x5D, 0x70, 0x4A, 0x6A, 0x32, 0x00, 0x72, 0x91, 0xC7, 0xD6, 0xD0, 0x0B, 0x5F, 0x1C,
        0x1F, 0x00, 0xF9, 0xFF, 0xAC, 0x26, 0x0A, 0xD8, 0xBD, 0x10, 0x00, 0x4B,
    ];

    let calib00_25 = Calib00_25(mock_data);

    assert_eq!(28765, calib00_25.get_dig_t1());
    assert_eq!(27210, calib00_25.get_dig_t2());
    assert_eq!(50, calib00_25.get_dig_t3());
    assert_eq!(37234, calib00_25.get_dig_p1());
    assert_eq!(-10553, calib00_25.get_dig_p2());
    assert_eq!(3024, calib00_25.get_dig_p3());
    assert_eq!(7263, calib00_25.get_dig_p4());
    assert_eq!(31, calib00_25.get_dig_p5());
    assert_eq!(-7, calib00_25.get_dig_p6());
    assert_eq!(9900, calib00_25.get_dig_p7());
    assert_eq!(-10230, calib00_25.get_dig_p8());
    assert_eq!(4285, calib00_25.get_dig_p9());
    assert_eq!(75, calib00_25.get_dig_h1());
}

#[test]
fn test_calib26_41_parse() {
    let mock_data = [
        0x75, 0x01, 0x00, 0x12, 0x25, 0x03, 0x1E, 0x42, 0x41, 0xFF, 0xFF, 0xFF, 0xFF, 0xFF,
        0xFF, 0xFF,
    ];

    let calib26_41 = Calib26_41(mock_data);

    assert_eq!(373, calib26_41.get_dig_h2());
    assert_eq!(0, calib26_41.get_dig_h3());
    assert_eq!(293, calib26_41.get_dig_h4());
    assert_eq!(50, calib26_41.get_dig_h5());
    assert_eq!(30, calib26_41.get_dig_h6());
}

#[test]
fn signed_coefficients_sign_extend() {
    // dig_h5 spans the high nibble of byte 4 and all of byte 5; 0xFFF is -1.
    let mut block = [0u8; 16];
    block[4] = 0xF0;
    block[5] = 0xFF;
    let calib = Calib26_41(block);
    assert_eq!(-1, calib.get_dig_h5());

    // dig_h6 is a plain signed byte.
    let mut block = [0u8; 16];
    block[6] = 0x80;
    let calib = Calib26_41(block);
    assert_eq!(-128, calib.get_dig_h6());

    // dig_h4 is assembled without sign extension: 0xFF / 0x0F gives 4095.
    let mut block = [0u8; 16];
    block[3] = 0xFF;
    block[4] = 0x0F;
    let calib = Calib26_41(block);
    assert_eq!(4095, calib.get_dig_h4());
}

#[test]
fn raw_measures_unpack() {
    // Pressure 0x4ED2A, temperature 0x808B2, humidity 0x5BFD.
    let raw = RawMeasures([0x4E, 0xD2, 0xA0, 0x80, 0x8B, 0x20, 0x5B, 0xFD]);
    assert_eq!(322858, raw.get_press());
    assert_eq!(526514, raw.get_temp());
    assert_eq!(23549, raw.get_hum());
}

#[test]
fn register_addresses_and_sizes() {
    assert_eq!(0x88, Calib00_25::start_addr());
    assert_eq!(26, Calib00_25::reg_size());
    assert_eq!(0xE1, Calib26_41::start_addr());
    assert_eq!(16, Calib26_41::reg_size());
    assert_eq!(0xD0, Id::start_addr());
    assert_eq!(0xE0, Reset::start_addr());
    assert_eq!(0xF2, CtrlHum::start_addr());
    assert_eq!(0xF3, Status::start_addr());
    assert_eq!(0xF4, CtrlMeas::start_addr());
    assert_eq!(0xF7, RawMeasures::start_addr());
    assert_eq!(8, RawMeasures::reg_size());
    assert_eq!(0xB6, Reset::RESET_BYTE);
    assert_eq!(0x60, Id::BME280_STANDARD_ID);
}

#[test]
fn ctrl_meas_read_modify_write() {
    let mut ctrl = CtrlMeas(0);
    ctrl.set_temp_oversampling(Oversampling::X2.value());
    ctrl.set_press_oversampling(Oversampling::X4.value());
    assert_eq!(0b0100_1100, ctrl.0);

    // Setting the mode must leave the oversampling bits alone.
    ctrl.set_mode(Mode::Forced.value());
    assert_eq!(0b0100_1101, ctrl.0);
    assert_eq!(1, ctrl.get_mode());
}

#[test]
fn oversampling_decode_rejects_out_of_range() {
    assert!(matches!(
        Oversampling::try_from(6),
        Err(UnrecognizedFieldValue)
    ));
    assert!(matches!(
        Oversampling::try_from(0xFF),
        Err(UnrecognizedFieldValue)
    ));
    assert_eq!(5, Oversampling::try_from(5).unwrap().value());
}
