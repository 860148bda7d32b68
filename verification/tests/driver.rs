use reweather::bmp280::{Address, Config, Control, RawSample, Register, BMP280};
use reweather::bus::{Bus, History};
use reweather::calibration::Calibration;

/// A device that answers from a 256-byte register file, records every
/// transfer it is asked for, and can be told to fail from some transfer on.
struct Device {
    registers: [u8; 256],
    log: Vec<(u8, Vec<u8>, usize)>,
    fail_from: Option<usize>,
}

impl Device {
    fn new() -> Self {
        Device { registers: [0; 256], log: Vec::new(), fail_from: None }
    }

    fn load(&mut self, register: u8, bytes: &[u8]) {
        for (i, b) in bytes.iter().enumerate() {
            self.registers[register as usize + i] = *b;
        }
    }

    fn refuses(&self) -> bool {
        match self.fail_from {
            Some(n) => self.log.len() > n,
            None => false,
        }
    }
}

impl Bus for Device {
    type Error = String;

    // The history is what the driver's contracts speak of; nothing calls it
    // when the program runs. What this device was asked for is in `log`.
    fn history(&self) -> History<String> {
        unreachable!()
    }

    fn write(&mut self, address: u8, bytes: &[u8]) -> Result<(), String> {
        self.log.push((address, bytes.to_vec(), 0));
        if self.refuses() {
            return Err(format!("nack on transfer {}", self.log.len()));
        }
        self.registers[bytes[0] as usize] = bytes[1];
        Ok(())
    }

    fn write_read(&mut self, address: u8, bytes: &[u8], buffer: &mut [u8]) -> Result<(), String> {
        self.log.push((address, bytes.to_vec(), buffer.len()));
        if self.refuses() {
            return Err(format!("nack on transfer {}", self.log.len()));
        }
        let start = bytes[0] as usize;
        for (i, b) in buffer.iter_mut().enumerate() {
            *b = self.registers[start + i];
        }
        Ok(())
    }
}

/// A transport that hands out its log when the driver is done with it.
struct Shared<'a>(&'a mut Device);

impl<'a> Bus for Shared<'a> {
    type Error = String;

    fn history(&self) -> History<String> {
        unreachable!()
    }

    fn write(&mut self, address: u8, bytes: &[u8]) -> Result<(), String> {
        self.0.write(address, bytes)
    }

    fn write_read(&mut self, address: u8, bytes: &[u8], buffer: &mut [u8]) -> Result<(), String> {
        self.0.write_read(address, bytes, buffer)
    }
}

fn datasheet_device() -> Device {
    let mut device = Device::new();
    device.load(0x88, &[0x70, 0x6B]); // dig_t1 = 27504
    device.load(0x8A, &[0x43, 0x67]); // dig_t2 = 26435
    device.load(0x8C, &[0x18, 0xFC]); // dig_t3 = -1000
    device.load(0x8E, &[0x7D, 0x8E]); // dig_p1 = 36477
    device.load(0x90, &[0x43, 0xD6]); // dig_p2 = -10685
    device.load(0x92, &[0xD0, 0x0B]); // dig_p3 = 3024
    device.load(0x94, &[0x27, 0x0B]); // dig_p4 = 2855
    device.load(0x96, &[0x8C, 0x00]); // dig_p5 = 140
    device.load(0x98, &[0xF9, 0xFF]); // dig_p6 = -7
    device.load(0x9A, &[0x8C, 0x3C]); // dig_p7 = 15500
    device.load(0x9C, &[0xF8, 0xC6]); // dig_p8 = -14600
    device.load(0x9E, &[0x70, 0x17]); // dig_p9 = 6000
    device.load(0xD0, &[0x58]);
    device.load(0xF3, &[0x08]);
    device.load(0xFA, &[0x7E, 0xED, 0x00]); // adc_t = 519888
    device.load(0xF7, &[0x65, 0x5A, 0xC0]); // adc_p = 415148
    device
}

#[test]
fn new_reads_the_twelve_words_in_register_order() {
    let mut device = datasheet_device();
    let driver = BMP280::new(Shared(&mut device), Address::Primary).unwrap();
    assert_eq!(
        driver.calibration(),
        Calibration {
            dig_t1: 27504,
            dig_t2: 26435,
            dig_t3: -1000,
            dig_p1: 36477,
            dig_p2: -10685,
            dig_p3: 3024,
            dig_p4: 2855,
            dig_p5: 140,
            dig_p6: -7,
            dig_p7: 15500,
            dig_p8: -14600,
            dig_p9: 6000,
        }
    );
    assert_eq!(driver.address(), Address::Primary);
    drop(driver);
    let expected: Vec<(u8, Vec<u8>, usize)> =
        (0..12u8).map(|i| (0x76, vec![0x88 + 2 * i], 2)).collect();
    assert_eq!(device.log, expected);
}

#[test]
fn new_gives_up_at_the_first_failed_transfer() {
    let mut device = datasheet_device();
    device.fail_from = Some(4);
    let result = BMP280::new(Shared(&mut device), Address::Primary);
    assert_eq!(result.err(), Some("nack on transfer 5".to_string()));
    assert_eq!(device.log.len(), 5);
}

#[test]
fn secondary_address_is_used_on_the_bus() {
    let mut device = datasheet_device();
    let mut driver = BMP280::new(Shared(&mut device), Address::Secondary).unwrap();
    assert_eq!(driver.id(), Ok(0x58));
    drop(driver);
    assert!(device.log.iter().all(|(address, _, _)| *address == 0x77));
    assert_eq!(device.log.last(), Some(&(0x77, vec![0xD0], 1)));
}

#[test]
fn single_byte_registers_pass_through() {
    let mut device = datasheet_device();
    let mut driver = BMP280::new(Shared(&mut device), Address::Primary).unwrap();
    assert_eq!(driver.id(), Ok(0x58));
    assert_eq!(driver.status(), Ok(0x08));
    assert_eq!(driver.control(), Ok(0x00));
    assert_eq!(driver.config(), Ok(0x00));
    let control = Control::TemperatureOversamplingX1.bits()
        | Control::PressureOversamplingX1.bits()
        | Control::NormalMode.bits();
    assert_eq!(control, 0b001_001_11);
    assert_eq!(driver.set_control(control), Ok(()));
    assert_eq!(driver.set_config(Config::Standby4000MS.bits()), Ok(()));
    assert_eq!(driver.control(), Ok(0b001_001_11));
    assert_eq!(driver.config(), Ok(0b111_000_00));
    drop(driver);
    let tail: Vec<(u8, Vec<u8>, usize)> = device.log[12..].to_vec();
    assert_eq!(
        tail,
        vec![
            (0x76, vec![0xD0], 1),
            (0x76, vec![0xF3], 1),
            (0x76, vec![0xF4], 1),
            (0x76, vec![0xF5], 1),
            (0x76, vec![0xF4, 0b001_001_11], 0),
            (0x76, vec![0xF5, 0b111_000_00], 0),
            (0x76, vec![0xF4], 1),
            (0x76, vec![0xF5], 1),
        ]
    );
}

#[test]
fn raw_temperature_reads_three_bytes_at_the_temperature_register() {
    let mut device = datasheet_device();
    let mut driver = BMP280::new(Shared(&mut device), Address::Primary).unwrap();
    assert_eq!(driver.raw_temperature(), Ok(519888));
    drop(driver);
    assert_eq!(device.log[12..].to_vec(), vec![(0x76, vec![0xFA], 3)]);
}

#[test]
fn raw_sample_reads_temperature_then_pressure() {
    let mut device = datasheet_device();
    let mut driver = BMP280::new(Shared(&mut device), Address::Primary).unwrap();
    assert_eq!(driver.raw_sample(), Ok(RawSample { temperature: 519888, pressure: 415148 }));
    drop(driver);
    assert_eq!(
        device.log[12..].to_vec(),
        vec![(0x76, vec![0xFA], 3), (0x76, vec![0xF7], 3)]
    );
}

#[test]
fn raw_sample_and_raw_temperature_agree_on_the_temperature_code() {
    for bytes in [[0x00, 0x00, 0x00], [0x7F, 0xFF, 0xF0], [0x80, 0x00, 0x00], [0xFF, 0xFF, 0xFF]] {
        let mut device = datasheet_device();
        device.load(Register::Temperature.address(), &bytes);
        let mut driver = BMP280::new(device, Address::Primary).unwrap();
        let alone = driver.raw_temperature().unwrap();
        let paired = driver.raw_sample().unwrap().temperature;
        assert_eq!(alone, paired);
    }
}

#[test]
fn negative_codes_are_sign_extended() {
    let mut device = datasheet_device();
    device.load(0xFA, &[0xFF, 0xFF, 0xF0]);
    device.load(0xF7, &[0x80, 0x00, 0x0F]);
    let mut driver = BMP280::new(device, Address::Primary).unwrap();
    assert_eq!(driver.raw_temperature(), Ok(-1));
    assert_eq!(driver.raw_sample(), Ok(RawSample { temperature: -1, pressure: -524288 }));
}

#[test]
fn bus_errors_come_back_unchanged() {
    let mut device = datasheet_device();
    device.fail_from = Some(12);
    let mut driver = BMP280::new(device, Address::Primary).unwrap();
    assert_eq!(driver.id(), Err("nack on transfer 13".to_string()));
    assert_eq!(driver.set_control(0), Err("nack on transfer 14".to_string()));
    assert_eq!(driver.raw_temperature(), Err("nack on transfer 15".to_string()));
    assert_eq!(driver.raw_sample(), Err("nack on transfer 16".to_string()));
}

#[test]
fn pressure_read_failure_after_temperature_is_reported() {
    let mut device = datasheet_device();
    device.fail_from = Some(13);
    let mut driver = BMP280::new(Shared(&mut device), Address::Primary).unwrap();
    assert_eq!(driver.raw_sample(), Err("nack on transfer 14".to_string()));
    drop(driver);
    assert_eq!(device.log.len(), 14);
}

#[test]
fn calibration_survives_every_operation() {
    let device = datasheet_device();
    let mut driver = BMP280::new(device, Address::Primary).unwrap();
    let before = driver.calibration();
    let _ = driver.id();
    let _ = driver.set_config(0xFF);
    let _ = driver.set_control(0xFF);
    let _ = driver.raw_sample();
    assert_eq!(driver.calibration(), before);
    assert_eq!(driver.address(), Address::Primary);
}

#[test]
fn read_calibration_works_on_a_borrowed_transport() {
    let mut device = datasheet_device();
    let calibration = BMP280::<Device>::read_calibration(&mut device, Address::Secondary).unwrap();
    assert_eq!(calibration.dig_t1, 27504);
    assert_eq!(calibration.dig_t3, -1000);
    assert_eq!(calibration.dig_p9, 6000);
    let expected: Vec<(u8, Vec<u8>, usize)> =
        (0..12u8).map(|i| (0x77, vec![0x88 + 2 * i], 2)).collect();
    assert_eq!(device.log, expected);
}

#[test]
fn read_calibration_stops_at_the_read_that_fails() {
    for k in 1..=12usize {
        let mut device = datasheet_device();
        device.fail_from = Some(k - 1);
        let result = BMP280::<Device>::read_calibration(&mut device, Address::Primary);
        assert_eq!(result, Err(format!("nack on transfer {k}")));
        assert_eq!(device.log.len(), k);
        assert_eq!(device.log[k - 1], (0x76, vec![0x88 + 2 * (k as u8 - 1)], 2));
    }
}

#[test]
fn control_and_config_are_separate_registers() {
    let mut device = datasheet_device();
    let mut driver = BMP280::new(Shared(&mut device), Address::Primary).unwrap();
    assert_eq!(driver.set_config(0xE0), Ok(()));
    assert_eq!(driver.set_control(0x27), Ok(()));
    assert_eq!(driver.config(), Ok(0xE0));
    assert_eq!(driver.control(), Ok(0x27));
    drop(driver);
    assert_eq!(device.registers[0xF5], 0xE0);
    assert_eq!(device.registers[0xF4], 0x27);
}
