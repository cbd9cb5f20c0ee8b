use std::cell::RefCell;
use std::rc::Rc;

use bme280::{
    Bme280, Bme280Config, Bme280Error, DelayProvider, Oversampling, RegRead, RegWrite, I22F10,
    I24F8,
};

const CALIB1: [u8; 26] = [
    0x5D, 0x70, 0x4A, 0x6A, 0x32, 0x00, 0x72, 0x91, 0xC7, 0xD6, 0xD0, 0x0B, 0x5F, 0x1C, 0x1F,
    0x00, 0xF9, 0xFF, 0xAC, 0x26, 0x0A, 0xD8, 0xBD, 0x10, 0x00, 0x4B,
];

const CALIB2: [u8; 16] = [
    0x75, 0x01, 0x00, 0x12, 0x25, 0x03, 0x1E, 0x42, 0x41, 0xFF, 0xFF, 0xFF, 0xFF, 0xFF, 0xFF,
    0xFF,
];

// Raw block: pressure 322858, temperature 526514, humidity 23549.
const RAW: [u8; 8] = [0x4E, 0xD2, 0xA0, 0x80, 0x8B, 0x20, 0x5B, 0xFD];

#[derive(Default)]
struct Log {
    reads: Vec<u8>,
    writes: Vec<(u8, u8)>,
    delays: u32,
}

/// A scripted register map standing in for the bus: serves the identity,
/// calibration, control, status and raw-measurement registers, and records
/// every transaction.
struct MockBus {
    log: Rc<RefCell<Log>>,
    id: u8,
    // Status bytes served in order; the last one repeats.
    statuses: Vec<u8>,
    status_idx: usize,
    ctrl_meas: u8,
    fail_reads: bool,
}

impl MockBus {
    fn new(log: Rc<RefCell<Log>>, id: u8, statuses: Vec<u8>) -> MockBus {
        MockBus { log, id, statuses, status_idx: 0, ctrl_meas: 0, fail_reads: false }
    }
}

impl RegRead for MockBus {
    type Error = &'static str;

    fn reg_read(&mut self, _dev_addr: u8, reg_addr: u8, buf: &mut Vec<u8>) -> Result<(), &'static str> {
        self.log.borrow_mut().reads.push(reg_addr);
        if self.fail_reads {
            return Err("bus fault");
        }
        match reg_addr {
            0xD0 => buf[0] = self.id,
            0x88 => buf.copy_from_slice(&CALIB1),
            0xE1 => buf.copy_from_slice(&CALIB2),
            0xF4 => buf[0] = self.ctrl_meas,
            0xF3 => {
                buf[0] = self.statuses[self.status_idx];
                if self.status_idx + 1 < self.statuses.len() {
                    self.status_idx += 1;
                }
            }
            0xF7 => buf.copy_from_slice(&RAW),
            _ => panic!("unexpected register read: {reg_addr:#04x}"),
        }
        Ok(())
    }
}

impl RegWrite for MockBus {
    type Error = &'static str;

    fn reg_write(&mut self, _dev_addr: u8, reg_addr: u8, data: u8) -> Result<(), &'static str> {
        self.log.borrow_mut().writes.push((reg_addr, data));
        if reg_addr == 0xF4 {
            self.ctrl_meas = data;
        }
        Ok(())
    }
}

struct MockDelay {
    log: Rc<RefCell<Log>>,
}

impl DelayProvider for MockDelay {
    fn delay_ms(&mut self, _ms: u16) {
        self.log.borrow_mut().delays += 1;
    }
}

fn config() -> Bme280Config {
    Bme280Config {
        hum_oversampling: Oversampling::X1,
        temp_oversampling: Oversampling::X2,
        press_oversampling: Oversampling::X4,
    }
}

fn init_session(
    log: &Rc<RefCell<Log>>,
    statuses: Vec<u8>,
) -> Bme280<MockBus, MockDelay> {
    let bus = MockBus::new(Rc::clone(log), 0x60, statuses);
    let delay = MockDelay { log: Rc::clone(log) };
    match Bme280::init(bus, 0x76, delay, config()) {
        Ok(session) => session,
        Err(_) => panic!("initialization failed against a healthy mock"),
    }
}

#[test]
fn init_resets_identifies_loads_and_configures() {
    let log = Rc::new(RefCell::new(Log::default()));
    let session = init_session(&log, vec![0x00]);

    let calib = session.get_calib();
    assert_eq!(28765, calib.dig_t1);
    assert_eq!(27210, calib.dig_t2);
    assert_eq!(50, calib.dig_t3);
    assert_eq!(37234, calib.dig_p1);
    assert_eq!(-10553, calib.dig_p2);
    assert_eq!(75, calib.dig_h1);
    assert_eq!(373, calib.dig_h2);
    assert_eq!(293, calib.dig_h4);
    assert_eq!(50, calib.dig_h5);
    assert_eq!(30, calib.dig_h6);

    let log = log.borrow();
    // Soft reset first, then the two oversampling writes: temperature x2 and
    // pressure x4 packed into 0xF4, humidity x1 into 0xF2.
    assert_eq!(
        vec![(0xE0, 0xB6), (0xF4, 0b0100_1100), (0xF2, 0x01)],
        log.writes
    );
    // Identity first, then the two calibration blocks, nothing else.
    assert_eq!(vec![0xD0, 0x88, 0xE1], log.reads);
    // The fixed post-reset settling delay.
    assert_eq!(1, log.delays);
}

#[test]
fn init_id_mismatch_reads_nothing_further() {
    let log = Rc::new(RefCell::new(Log::default()));
    let bus = MockBus::new(Rc::clone(&log), 0x61, vec![0x00]);
    let delay = MockDelay { log: Rc::clone(&log) };

    let r = Bme280::init(bus, 0x76, delay, config());
    assert!(matches!(r, Err(Bme280Error::IdDoesNotMatch)));

    let log = log.borrow();
    // The identity read is the only read ever issued; no calibration load.
    assert_eq!(vec![0xD0], log.reads);
    // The reset write has already happened by then, and nothing after it.
    assert_eq!(vec![(0xE0, 0xB6)], log.writes);
}

#[test]
fn init_surfaces_transport_errors_verbatim() {
    let log = Rc::new(RefCell::new(Log::default()));
    let mut bus = MockBus::new(Rc::clone(&log), 0x60, vec![0x00]);
    bus.fail_reads = true;
    let delay = MockDelay { log: Rc::clone(&log) };

    let r = Bme280::init(bus, 0x76, delay, config());
    assert!(matches!(r, Err(Bme280Error::Inteface("bus fault"))));
}

#[test]
fn measurement_polls_until_clear_then_reads_once() {
    let log = Rc::new(RefCell::new(Log::default()));
    // Bit 3 set: a conversion is running. Three busy polls, then clear.
    let mut session = init_session(&log, vec![0x08, 0x08, 0x08, 0x00]);

    let (temp, pres, hum) = match session.do_measurement() {
        Ok(m) => m,
        Err(_) => panic!("measurement failed against a healthy mock"),
    };

    // The controller must thread t_fine from temperature compensation into
    // pressure and humidity compensation of the served raw codes.
    let calib = bme280::CalibData {
        dig_t1: 28765,
        dig_t2: 27210,
        dig_t3: 50,
        dig_p1: 37234,
        dig_p2: -10553,
        dig_p3: 3024,
        dig_p4: 7263,
        dig_p5: 31,
        dig_p6: -7,
        dig_p7: 9900,
        dig_p8: -10230,
        dig_p9: 4285,
        dig_h1: 75,
        dig_h2: 373,
        dig_h3: 0,
        dig_h4: 293,
        dig_h5: 50,
        dig_h6: 30,
    };
    let (t_fine, t) = Bme280::<(), ()>::compensate_t(&calib, 526514);
    assert_eq!(110074, t_fine);
    assert_eq!(2150, t);
    let expected_p: I24F8 = Bme280::<(), ()>::compensate_p(&calib, t_fine, 322858);
    let expected_h: I22F10 = Bme280::<(), ()>::compensate_h(&calib, t_fine, 23549);
    let expected_t: I22F10 = I22F10::new(t, 0).div(I22F10::new(100, 0));
    assert_eq!(expected_t, temp);
    assert_eq!(expected_p, pres);
    assert_eq!(expected_h, hum);
    // 2150 centidegrees scale to 21.5 degrees: 21 and 512/1024.
    assert_eq!(21, temp.get_int());
    assert_eq!(512, temp.get_frac());

    let log = log.borrow();
    // After init: the mode read-modify-write, four status polls, one raw
    // block read — and the raw read comes only after the last status poll.
    assert_eq!(
        vec![0xD0, 0x88, 0xE1, 0xF4, 0xF3, 0xF3, 0xF3, 0xF3, 0xF7],
        log.reads
    );
    assert_eq!(1, log.reads.iter().filter(|r| **r == 0xF7).count());
    // The mode write kept the configured oversampling bits and set forced.
    assert_eq!(&(0xF4, 0b0100_1101), log.writes.last().unwrap());
}

#[test]
fn measurement_gives_up_when_status_never_clears() {
    let log = Rc::new(RefCell::new(Log::default()));
    let mut session = init_session(&log, vec![0x08]);

    let r = session.do_measurement();
    assert!(matches!(r, Err(Bme280Error::PollAttemptsExhausted)));
    // No raw-measurement read was ever issued while the bit stayed set.
    assert_eq!(0, log.borrow().reads.iter().filter(|r| **r == 0xF7).count());
}
