//! Chip-driver tests, each one replaying the exact bus transactions the
//! driver is expected to produce against a recording mock bus.

use port_expander::read_multiple;
use port_expander::write_multiple;
use port_expander::Ch422;
use port_expander::I2cBus;
use port_expander::Max7321;
use port_expander::Mcp23017;
use port_expander::Mcp23x17;
use port_expander::Pca9536;
use port_expander::Pca9554;
use port_expander::Pca9554A;
use port_expander::Pca9555;
use port_expander::Pca9702;
use port_expander::Pcal6408a;
use port_expander::Pcal6416a;
use port_expander::Pcf8574;
use port_expander::Pcf8574a;
use port_expander::Pcf8575;
use port_expander::Pi4ioe5v6408;
use port_expander::SpiBus;
use port_expander::Tca6408a;
use std::cell::RefCell;
use std::rc::Rc;

#[derive(Clone, Debug, PartialEq)]
enum Tx {
    Write(u8, Vec<u8>),
    ReadByte(u8, u8),
    ReadWord(u8, [u8; 2]),
    WriteReadByte(u8, Vec<u8>, u8),
}

#[derive(Clone)]
struct MockI2c {
    state: Rc<RefCell<(Vec<Tx>, usize)>>,
}

impl MockI2c {
    fn new(expected: &[Tx]) -> MockI2c {
        MockI2c {
            state: Rc::new(RefCell::new((expected.to_vec(), 0))),
        }
    }

    fn next(&self) -> Tx {
        let mut st = self.state.borrow_mut();
        let i = st.1;
        assert!(i < st.0.len(), "more bus transactions than expected");
        st.1 += 1;
        st.0[i].clone()
    }

    fn done(&self) {
        let st = self.state.borrow();
        assert_eq!(st.1, st.0.len(), "not all expected transactions were performed");
    }
}

impl I2cBus for MockI2c {
    type BusError = ();

    fn write(&mut self, addr: u8, bytes: &[u8]) -> Result<(), ()> {
        match self.next() {
            Tx::Write(a, b) => {
                assert_eq!((a, b.as_slice()), (addr, bytes));
                Ok(())
            }
            other => panic!("expected {:?}, got write({:#04x}, {:?})", other, addr, bytes),
        }
    }

    fn read_byte(&mut self, addr: u8) -> Result<u8, ()> {
        match self.next() {
            Tx::ReadByte(a, v) => {
                assert_eq!(a, addr);
                Ok(v)
            }
            other => panic!("expected {:?}, got read_byte({:#04x})", other, addr),
        }
    }

    fn read_word(&mut self, addr: u8) -> Result<[u8; 2], ()> {
        match self.next() {
            Tx::ReadWord(a, v) => {
                assert_eq!(a, addr);
                Ok(v)
            }
            other => panic!("expected {:?}, got read_word({:#04x})", other, addr),
        }
    }

    fn write_read_byte(&mut self, addr: u8, bytes: &[u8]) -> Result<u8, ()> {
        match self.next() {
            Tx::WriteReadByte(a, b, v) => {
                assert_eq!((a, b.as_slice()), (addr, bytes));
                Ok(v)
            }
            other => panic!(
                "expected {:?}, got write_read_byte({:#04x}, {:?})",
                other, addr, bytes
            ),
        }
    }
}

#[derive(Clone, Debug, PartialEq)]
enum SpiTx {
    Write(Vec<u8>),
    ReadByte(u8),
    WriteReadByte(Vec<u8>, u8),
}

#[derive(Clone)]
struct MockSpi {
    state: Rc<RefCell<(Vec<SpiTx>, usize)>>,
}

impl MockSpi {
    fn new(expected: &[SpiTx]) -> MockSpi {
        MockSpi {
            state: Rc::new(RefCell::new((expected.to_vec(), 0))),
        }
    }

    fn next(&self) -> SpiTx {
        let mut st = self.state.borrow_mut();
        let i = st.1;
        assert!(i < st.0.len(), "more bus transactions than expected");
        st.1 += 1;
        st.0[i].clone()
    }

    fn done(&self) {
        let st = self.state.borrow();
        assert_eq!(st.1, st.0.len(), "not all expected transactions were performed");
    }
}

impl SpiBus for MockSpi {
    type BusError = ();

    fn write(&mut self, bytes: &[u8]) -> Result<(), ()> {
        match self.next() {
            SpiTx::Write(b) => {
                assert_eq!(b.as_slice(), bytes);
                Ok(())
            }
            other => panic!("expected {:?}, got write({:?})", other, bytes),
        }
    }

    fn read_byte(&mut self) -> Result<u8, ()> {
        match self.next() {
            SpiTx::ReadByte(v) => Ok(v),
            other => panic!("expected {:?}, got read_byte()", other),
        }
    }

    fn write_read_byte(&mut self, bytes: &[u8]) -> Result<u8, ()> {
        match self.next() {
            SpiTx::WriteReadByte(b, v) => {
                assert_eq!(b.as_slice(), bytes);
                Ok(v)
            }
            other => panic!("expected {:?}, got write_read_byte({:?})", other, bytes),
        }
    }
}

#[test]
fn pca9555() {
    let expectations = [
        // pin setup io0_0
        Tx::Write(0x22, vec![0x02, 0xfe]),
        Tx::WriteReadByte(0x22, vec![0x06], 0xff),
        Tx::Write(0x22, vec![0x06, 0xfe]),
        // pin setup io0_7
        Tx::Write(0x22, vec![0x02, 0x7e]),
        Tx::WriteReadByte(0x22, vec![0x06], 0xfe),
        Tx::Write(0x22, vec![0x06, 0x7e]),
        Tx::WriteReadByte(0x22, vec![0x06], 0x7e),
        Tx::Write(0x22, vec![0x06, 0xfe]),
        // pin setup io1_0
        Tx::Write(0x22, vec![0x03, 0xfe]),
        Tx::WriteReadByte(0x22, vec![0x07], 0xff),
        Tx::Write(0x22, vec![0x07, 0xfe]),
        // pin setup io1_7
        Tx::Write(0x22, vec![0x03, 0x7e]),
        Tx::WriteReadByte(0x22, vec![0x07], 0xfe),
        Tx::Write(0x22, vec![0x07, 0x7e]),
        Tx::WriteReadByte(0x22, vec![0x07], 0x7e),
        Tx::Write(0x22, vec![0x07, 0xfe]),
        // output io0_0, io1_0
        Tx::Write(0x22, vec![0x02, 0x7f]),
        Tx::Write(0x22, vec![0x02, 0x7e]),
        Tx::Write(0x22, vec![0x03, 0x7f]),
        Tx::Write(0x22, vec![0x03, 0x7e]),
        // input io0_7, io1_7
        Tx::WriteReadByte(0x22, vec![0x00], 0x80),
        Tx::WriteReadByte(0x22, vec![0x00], 0x7f),
        Tx::WriteReadByte(0x22, vec![0x01], 0x80),
        Tx::WriteReadByte(0x22, vec![0x01], 0x7f),
        // polarity io0_7, io1_7
        Tx::WriteReadByte(0x22, vec![0x04], 0x00),
        Tx::Write(0x22, vec![0x04, 0x80]),
        Tx::WriteReadByte(0x22, vec![0x04], 0xff),
        Tx::Write(0x22, vec![0x04, 0x7f]),
        Tx::WriteReadByte(0x22, vec![0x05], 0x00),
        Tx::Write(0x22, vec![0x05, 0x80]),
        Tx::WriteReadByte(0x22, vec![0x05], 0xff),
        Tx::Write(0x22, vec![0x05, 0x7f]),
    ];
    let bus = MockI2c::new(&expectations);

    let mut pca = Pca9555::new(bus.clone(), false, true, false);
    let pca_pins = pca.split();

    let mut io0_0 = pca_pins.io0_0.into_output(&mut pca.port).unwrap();
    let io0_7 = pca_pins.io0_7.into_output(&mut pca.port).unwrap();
    let io0_7 = io0_7.into_input(&mut pca.port).unwrap();

    let mut io1_0 = pca_pins.io1_0.into_output(&mut pca.port).unwrap();
    let io1_7 = pca_pins.io1_7.into_output(&mut pca.port).unwrap();
    let io1_7 = io1_7.into_input(&mut pca.port).unwrap();

    // output high and low
    io0_0.set_high(&mut pca.port).unwrap();
    io0_0.set_low(&mut pca.port).unwrap();
    io1_0.set_high(&mut pca.port).unwrap();
    io1_0.set_low(&mut pca.port).unwrap();

    // input high and low
    assert!(io0_7.is_high(&mut pca.port).unwrap());
    assert!(io0_7.is_low(&mut pca.port).unwrap());
    assert!(io1_7.is_high(&mut pca.port).unwrap());
    assert!(io1_7.is_low(&mut pca.port).unwrap());

    let mut io0_7 = io0_7.into_inverted(&mut pca.port).unwrap();
    io0_7.set_inverted(&mut pca.port, false).unwrap();
    let mut io1_7 = io1_7.into_inverted(&mut pca.port).unwrap();
    io1_7.set_inverted(&mut pca.port, false).unwrap();

    bus.done();
}

#[test]
fn pca9554a() {
    let expectations = [
        // set pin0 low and then high
        Tx::Write(0x39, vec![0x01, 0xfe]),
        Tx::Write(0x39, vec![0x01, 0xff]),
        Tx::WriteReadByte(0x39, vec![0x00], 0xff),
        // set pin1 low
        Tx::Write(0x39, vec![0x01, 0xfd]),
        Tx::WriteReadByte(0x39, vec![0x00], 0xfd),
        // set pin2 as output
        Tx::Write(0x39, vec![0x01, 0xf9]),
        Tx::WriteReadByte(0x39, vec![0x03], 0xff),
        Tx::Write(0x39, vec![0x03, 0xfb]),
    ];
    let bus = MockI2c::new(&expectations);

    let mut pca = Pca9554A::new(bus.clone(), true, false, false);
    let pca_pins = pca.split();

    let mut pin0 = pca_pins.io0;
    let mut pin1 = pca_pins.io1;
    let pin2 = pca_pins.io2;

    pin0.set_low(&mut pca.port).unwrap();
    pin0.set_high(&mut pca.port).unwrap();
    assert!(pin0.is_high(&mut pca.port).unwrap());
    pin1.set_low(&mut pca.port).unwrap();
    assert!(pin1.is_low(&mut pca.port).unwrap());
    pin2.into_output(&mut pca.port).unwrap();

    bus.done();
}

#[test]
fn pca9554() {
    let expectations = [
        // set pin0 low and then high
        Tx::Write(0x21, vec![0x01, 0xfe]),
        Tx::Write(0x21, vec![0x01, 0xff]),
        Tx::WriteReadByte(0x21, vec![0x00], 0xff),
        // set pin1 low
        Tx::Write(0x21, vec![0x01, 0xfd]),
        Tx::WriteReadByte(0x21, vec![0x00], 0xfd),
        // set pin2 as output
        Tx::Write(0x21, vec![0x01, 0xf9]),
        Tx::WriteReadByte(0x21, vec![0x03], 0xff),
        Tx::Write(0x21, vec![0x03, 0xfb]),
    ];
    let bus = MockI2c::new(&expectations);

    let mut pca = Pca9554::new(bus.clone(), true, false, false);
    let pca_pins = pca.split();

    let mut pin0 = pca_pins.io0;
    let mut pin1 = pca_pins.io1;
    let pin2 = pca_pins.io2;

    pin0.set_low(&mut pca.port).unwrap();
    pin0.set_high(&mut pca.port).unwrap();
    assert!(pin0.is_high(&mut pca.port).unwrap());
    pin1.set_low(&mut pca.port).unwrap();
    assert!(pin1.is_low(&mut pca.port).unwrap());
    pin2.into_output(&mut pca.port).unwrap();

    bus.done();
}

#[test]
fn pca9536() {
    let expectations = [
        // pin setup io0
        Tx::Write(0x41, vec![0x01, 0xfe]),
        Tx::WriteReadByte(0x41, vec![0x03], 0xff),
        Tx::Write(0x41, vec![0x03, 0xfe]),
        // pin setup io1
        Tx::WriteReadByte(0x41, vec![0x03], 0xfe),
        Tx::Write(0x41, vec![0x03, 0xfc]),
        // pin setup io0 as input
        Tx::WriteReadByte(0x41, vec![0x03], 0xfc),
        Tx::Write(0x41, vec![0x03, 0xfd]),
        // io1 writes
        Tx::Write(0x41, vec![0x01, 0xfc]),
        Tx::Write(0x41, vec![0x01, 0xfe]),
        Tx::Write(0x41, vec![0x01, 0xfc]),
        // io0 reads
        Tx::WriteReadByte(0x41, vec![0x00], 0x01),
        Tx::WriteReadByte(0x41, vec![0x00], 0x00),
    ];
    let bus = MockI2c::new(&expectations);

    let mut pca = Pca9536::new(bus.clone());
    let pca_pins = pca.split();

    let io0 = pca_pins.io0.into_output(&mut pca.port).unwrap();
    let mut io1 = pca_pins.io1.into_output_high(&mut pca.port).unwrap();

    let io0 = io0.into_input(&mut pca.port).unwrap();

    io1.set_low(&mut pca.port).unwrap();
    io1.set_high(&mut pca.port).unwrap();
    io1.toggle(&mut pca.port).unwrap();

    assert!(io0.is_high(&mut pca.port).unwrap());
    assert!(io0.is_low(&mut pca.port).unwrap());

    bus.done();
}

#[test]
fn tca6408a() {
    let expectations = [
        // pin setup io0
        Tx::Write(0x21, vec![0x01, 0xfe]),
        Tx::WriteReadByte(0x21, vec![0x03], 0xff),
        Tx::Write(0x21, vec![0x03, 0xfe]),
        // pin setup io1
        Tx::WriteReadByte(0x21, vec![0x03], 0xfe),
        Tx::Write(0x21, vec![0x03, 0xfc]),
        // pin setup io0 as input
        Tx::WriteReadByte(0x21, vec![0x03], 0xfc),
        Tx::Write(0x21, vec![0x03, 0xfd]),
        // io1 writes
        Tx::Write(0x21, vec![0x01, 0xfc]),
        Tx::Write(0x21, vec![0x01, 0xfe]),
        Tx::Write(0x21, vec![0x01, 0xfc]),
        // io0 reads
        Tx::WriteReadByte(0x21, vec![0x00], 0x01),
        Tx::WriteReadByte(0x21, vec![0x00], 0x00),
        // io4 polarity
        Tx::WriteReadByte(0x21, vec![0x02], 0x00),
        Tx::Write(0x21, vec![0x02, 0x10]),
        // io5 polarity
        Tx::WriteReadByte(0x21, vec![0x02], 0x10),
        Tx::Write(0x21, vec![0x02, 0x30]),
        Tx::WriteReadByte(0x21, vec![0x02], 0x30),
        Tx::Write(0x21, vec![0x02, 0x10]),
    ];
    let bus = MockI2c::new(&expectations);

    let mut pca = Tca6408a::new(bus.clone(), true);
    let pca_pins = pca.split();

    let io0 = pca_pins.io0.into_output(&mut pca.port).unwrap();
    let mut io1 = pca_pins.io1.into_output_high(&mut pca.port).unwrap();

    let io0 = io0.into_input(&mut pca.port).unwrap();

    io1.set_low(&mut pca.port).unwrap();
    io1.set_high(&mut pca.port).unwrap();
    io1.toggle(&mut pca.port).unwrap();

    assert!(io0.is_high(&mut pca.port).unwrap());
    assert!(io0.is_low(&mut pca.port).unwrap());

    pca_pins.io4.into_inverted(&mut pca.port).unwrap();
    let mut io5 = pca_pins.io5;
    io5.set_inverted(&mut pca.port, true).unwrap();
    io5.set_inverted(&mut pca.port, false).unwrap();

    bus.done();
}

#[test]
fn pcf8574() {
    let expectations = [
        Tx::Write(0x21, vec![0b11111111]),
        Tx::Write(0x21, vec![0b11111011]),
        Tx::ReadByte(0x21, 0b01000000),
        Tx::ReadByte(0x21, 0b10111111),
    ];
    let bus = MockI2c::new(&expectations);

    let mut pcf = Pcf8574::new(bus.clone(), true, false, false);
    let mut pcf_pins = pcf.split();

    pcf_pins.p2.set_high(&mut pcf.port).unwrap();
    pcf_pins.p2.set_low(&mut pcf.port).unwrap();

    assert!(pcf_pins.p6.is_high(&mut pcf.port).unwrap());
    assert!(pcf_pins.p6.is_low(&mut pcf.port).unwrap());

    bus.done();
}

#[test]
fn pcf8574a() {
    let expectations = [
        Tx::Write(0x39, vec![0b11111111]),
        Tx::Write(0x39, vec![0b11101111]),
        Tx::ReadByte(0x39, 0b00000001),
        Tx::ReadByte(0x39, 0b11111110),
    ];
    let bus = MockI2c::new(&expectations);

    let mut pcf_a = Pcf8574a::new(bus.clone(), true, false, false);
    let mut pcf_a_pins = pcf_a.split();

    pcf_a_pins.p4.set_high(&mut pcf_a.port).unwrap();
    pcf_a_pins.p4.set_low(&mut pcf_a.port).unwrap();

    assert!(pcf_a_pins.p0.is_high(&mut pcf_a.port).unwrap());
    assert!(pcf_a_pins.p0.is_low(&mut pcf_a.port).unwrap());

    bus.done();
}

#[test]
fn pcf8575() {
    let expectations = [
        Tx::Write(0x21, vec![0b11111111, 0b11111111]),
        Tx::Write(0x21, vec![0b11111011, 0b11111111]),
        Tx::ReadWord(0x21, [0b01000000, 0b00000000]),
        Tx::ReadWord(0x21, [0b10111111, 0b11111111]),
        Tx::Write(0x21, vec![0b11111011, 0b11111111]),
        Tx::Write(0x21, vec![0b11111011, 0b11111011]),
        Tx::ReadWord(0x21, [0b00000000, 0b01000000]),
        Tx::ReadWord(0x21, [0b11111111, 0b10111111]),
    ];
    let bus = MockI2c::new(&expectations);

    let mut pcf = Pcf8575::new(bus.clone(), true, false, false);
    let mut pcf_pins = pcf.split();

    pcf_pins.p02.set_high(&mut pcf.port).unwrap();
    pcf_pins.p02.set_low(&mut pcf.port).unwrap();

    assert!(pcf_pins.p06.is_high(&mut pcf.port).unwrap());
    assert!(pcf_pins.p06.is_low(&mut pcf.port).unwrap());

    pcf_pins.p12.set_high(&mut pcf.port).unwrap();
    pcf_pins.p12.set_low(&mut pcf.port).unwrap();

    assert!(pcf_pins.p16.is_high(&mut pcf.port).unwrap());
    assert!(pcf_pins.p16.is_low(&mut pcf.port).unwrap());

    bus.done();
}

#[test]
fn max7321() {
    let expectations = [
        Tx::Write(0b01101101, vec![0b11111111]),
        Tx::Write(0b01101101, vec![0b11111011]),
        Tx::ReadByte(0b01101101, 0b01000000),
        Tx::ReadByte(0b01101101, 0b10111111),
    ];
    let bus = MockI2c::new(&expectations);

    let mut max = Max7321::new(bus.clone(), true, true, false, true);
    let mut max_pins = max.split();

    max_pins.p2.set_high(&mut max.port).unwrap();
    max_pins.p2.set_low(&mut max.port).unwrap();

    assert!(max_pins.p6.is_high(&mut max.port).unwrap());
    assert!(max_pins.p6.is_low(&mut max.port).unwrap());

    bus.done();
}

#[test]
fn ch422() {
    let expectations = [
        Tx::Write(0x24, vec![0b00000001]),
        Tx::Write(0x38, vec![0b11111111]),
        Tx::Write(0x38, vec![0b11111011]),
        Tx::ReadByte(0x26, 0b01000000),
        Tx::ReadByte(0x26, 0b10111111),
    ];
    let bus = MockI2c::new(&expectations);

    let ch422 = Ch422::new(bus.clone());
    let mut ch422 = ch422.enable_output().unwrap();
    let ch422_pins = ch422.split();

    let mut io2 = ch422_pins.io2;
    io2.set_high(&mut ch422.port).unwrap();
    io2.set_low(&mut ch422.port).unwrap();

    let mut ch422 = ch422.disable_output();

    let ch422_pins = ch422.split();

    assert!(ch422_pins.io6.is_high(&mut ch422.port).unwrap());
    assert!(ch422_pins.io6.is_low(&mut ch422.port).unwrap());

    bus.done();
}

#[test]
fn mcp23017_mcp23017() {
    let expectations = [
        // pin setup gpa0
        Tx::WriteReadByte(0x22, vec![0x00], 0xff),
        Tx::Write(0x22, vec![0x00, 0xfe]),
        // pin setup gpa7
        Tx::WriteReadByte(0x22, vec![0x00], 0xfe),
        Tx::Write(0x22, vec![0x00, 0x7e]),
        Tx::WriteReadByte(0x22, vec![0x00], 0x7e),
        Tx::Write(0x22, vec![0x00, 0xfe]),
        // pin setup gpb0
        Tx::WriteReadByte(0x22, vec![0x01], 0xff),
        Tx::Write(0x22, vec![0x01, 0xfe]),
        // pin setup gpb7
        Tx::WriteReadByte(0x22, vec![0x01], 0xfe),
        Tx::Write(0x22, vec![0x01, 0x7e]),
        Tx::WriteReadByte(0x22, vec![0x01], 0x7e),
        Tx::Write(0x22, vec![0x01, 0xfe]),
        // output gpa0, gpb0
        Tx::Write(0x22, vec![0x12, 0xff]),
        Tx::Write(0x22, vec![0x12, 0xfe]),
        Tx::Write(0x22, vec![0x13, 0xff]),
        Tx::Write(0x22, vec![0x13, 0xfe]),
        // input gpa7, gpb7
        Tx::WriteReadByte(0x22, vec![0x12], 0x80),
        Tx::WriteReadByte(0x22, vec![0x12], 0x7f),
        Tx::WriteReadByte(0x22, vec![0x13], 0x80),
        Tx::WriteReadByte(0x22, vec![0x13], 0x7f),
    ];
    let bus = MockI2c::new(&expectations);

    let mut pca = Mcp23017::new(bus.clone(), false, true, false);
    let pca_pins = pca.split();

    let mut gpa0 = pca_pins.gpa0.into_output(&mut pca.port).unwrap();
    let gpa7 = pca_pins.gpa7.into_output(&mut pca.port).unwrap();
    let gpa7 = gpa7.into_input(&mut pca.port).unwrap();

    let mut gpb0 = pca_pins.gpb0.into_output(&mut pca.port).unwrap();
    let gpb7 = pca_pins.gpb7.into_output(&mut pca.port).unwrap();
    let gpb7 = gpb7.into_input(&mut pca.port).unwrap();

    // output high and low
    gpa0.set_high(&mut pca.port).unwrap();
    gpa0.set_low(&mut pca.port).unwrap();
    gpb0.set_high(&mut pca.port).unwrap();
    gpb0.set_low(&mut pca.port).unwrap();

    // input high and low
    assert!(gpa7.is_high(&mut pca.port).unwrap());
    assert!(gpa7.is_low(&mut pca.port).unwrap());
    assert!(gpb7.is_high(&mut pca.port).unwrap());
    assert!(gpb7.is_low(&mut pca.port).unwrap());

    bus.done();
}

#[test]
fn mcp23x17_mcp23017() {
    let expectations = [
        // pin setup gpa0
        Tx::WriteReadByte(0x22, vec![0x00], 0xff),
        Tx::Write(0x22, vec![0x00, 0xfe]),
        // pin setup gpa7
        Tx::WriteReadByte(0x22, vec![0x00], 0xfe),
        Tx::Write(0x22, vec![0x00, 0x7e]),
        Tx::WriteReadByte(0x22, vec![0x00], 0x7e),
        Tx::Write(0x22, vec![0x00, 0xfe]),
        // pin setup gpb0
        Tx::WriteReadByte(0x22, vec![0x01], 0xff),
        Tx::Write(0x22, vec![0x01, 0xfe]),
        // pin setup gpb7
        Tx::WriteReadByte(0x22, vec![0x01], 0xfe),
        Tx::Write(0x22, vec![0x01, 0x7e]),
        Tx::WriteReadByte(0x22, vec![0x01], 0x7e),
        Tx::Write(0x22, vec![0x01, 0xfe]),
        // output gpa0, gpb0
        Tx::Write(0x22, vec![0x12, 0xff]),
        Tx::Write(0x22, vec![0x12, 0xfe]),
        Tx::Write(0x22, vec![0x13, 0xff]),
        Tx::Write(0x22, vec![0x13, 0xfe]),
        // input gpa7, gpb7
        Tx::WriteReadByte(0x22, vec![0x12], 0x80),
        Tx::WriteReadByte(0x22, vec![0x12], 0x7f),
        Tx::WriteReadByte(0x22, vec![0x13], 0x80),
        Tx::WriteReadByte(0x22, vec![0x13], 0x7f),
    ];
    let bus = MockI2c::new(&expectations);

    let mut pca = Mcp23x17::new_mcp23017(bus.clone(), false, true, false);
    let pca_pins = pca.split();

    let mut gpa0 = pca_pins.gpa0.into_output(&mut pca.port).unwrap();
    let gpa7 = pca_pins.gpa7.into_output(&mut pca.port).unwrap();
    let gpa7 = gpa7.into_input(&mut pca.port).unwrap();

    let mut gpb0 = pca_pins.gpb0.into_output(&mut pca.port).unwrap();
    let gpb7 = pca_pins.gpb7.into_output(&mut pca.port).unwrap();
    let gpb7 = gpb7.into_input(&mut pca.port).unwrap();

    // output high and low
    gpa0.set_high(&mut pca.port).unwrap();
    gpa0.set_low(&mut pca.port).unwrap();
    gpb0.set_high(&mut pca.port).unwrap();
    gpb0.set_low(&mut pca.port).unwrap();

    // input high and low
    assert!(gpa7.is_high(&mut pca.port).unwrap());
    assert!(gpa7.is_low(&mut pca.port).unwrap());
    assert!(gpb7.is_high(&mut pca.port).unwrap());
    assert!(gpb7.is_low(&mut pca.port).unwrap());

    bus.done();
}

#[test]
fn mcp23s17() {
    let expectations = [
        // pin setup gpa0
        SpiTx::WriteReadByte(vec![0x45, 0x00], 0xff),
        SpiTx::Write(vec![0x44, 0x00, 0xfe]),
        // pin setup gpa7
        SpiTx::WriteReadByte(vec![0x45, 0x00], 0xfe),
        SpiTx::Write(vec![0x44, 0x00, 0x7e]),
        SpiTx::WriteReadByte(vec![0x45, 0x00], 0x7e),
        SpiTx::Write(vec![0x44, 0x00, 0xfe]),
        // pin setup gpb0
        SpiTx::WriteReadByte(vec![0x45, 0x01], 0xff),
        SpiTx::Write(vec![0x44, 0x01, 0xfe]),
        // pin setup gpb7
        SpiTx::WriteReadByte(vec![0x45, 0x01], 0xfe),
        SpiTx::Write(vec![0x44, 0x01, 0x7e]),
        SpiTx::WriteReadByte(vec![0x45, 0x01], 0x7e),
        SpiTx::Write(vec![0x44, 0x01, 0xfe]),
        // output gpa0, gpb0
        SpiTx::Write(vec![0x44, 0x12, 0xff]),
        SpiTx::Write(vec![0x44, 0x12, 0xfe]),
        SpiTx::Write(vec![0x44, 0x13, 0xff]),
        SpiTx::Write(vec![0x44, 0x13, 0xfe]),
        // input gpa7, gpb7
        SpiTx::WriteReadByte(vec![0x45, 0x12], 0x80),
        SpiTx::WriteReadByte(vec![0x45, 0x12], 0x7f),
        SpiTx::WriteReadByte(vec![0x45, 0x13], 0x80),
        SpiTx::WriteReadByte(vec![0x45, 0x13], 0x7f),
    ];
    let bus = MockSpi::new(&expectations);

    let mut pca = Mcp23x17::new_mcp23s17(bus.clone(), false, true, false);
    let pca_pins = pca.split();

    let mut gpa0 = pca_pins.gpa0.into_output(&mut pca.port).unwrap();
    let gpa7 = pca_pins.gpa7.into_output(&mut pca.port).unwrap();
    let gpa7 = gpa7.into_input(&mut pca.port).unwrap();

    let mut gpb0 = pca_pins.gpb0.into_output(&mut pca.port).unwrap();
    let gpb7 = pca_pins.gpb7.into_output(&mut pca.port).unwrap();
    let gpb7 = gpb7.into_input(&mut pca.port).unwrap();

    // output high and low
    gpa0.set_high(&mut pca.port).unwrap();
    gpa0.set_low(&mut pca.port).unwrap();
    gpb0.set_high(&mut pca.port).unwrap();
    gpb0.set_low(&mut pca.port).unwrap();

    // input high and low
    assert!(gpa7.is_high(&mut pca.port).unwrap());
    assert!(gpa7.is_low(&mut pca.port).unwrap());
    assert!(gpb7.is_high(&mut pca.port).unwrap());
    assert!(gpb7.is_low(&mut pca.port).unwrap());

    bus.done();
}

#[test]
fn pca9702_read_inputs() {
    let expectations = [
        SpiTx::ReadByte(0xA5),
        SpiTx::ReadByte(0xA5),
        SpiTx::ReadByte(0xA5),
    ];
    let bus = MockSpi::new(&expectations);
    let mut pca = Pca9702::new(bus.clone());
    let pins = pca.split();

    // For each call, the driver re-reads from SPI, returning 0xA5 each time.
    // 0xA5 = 0b10100101 => in0=1, in1=0, in2=1, in3=0, in4=0, in5=1, in6=0, in7=1
    assert_eq!(pins.in0.is_high(&mut pca.port).unwrap(), true);
    assert_eq!(pins.in1.is_high(&mut pca.port).unwrap(), false);
    assert_eq!(pins.in2.is_high(&mut pca.port).unwrap(), true);

    bus.done();
}

#[test]
fn pca6408a() {
    let expectations = [
        // pin setup io0
        Tx::WriteReadByte(0x21, vec![0x01], 0xff),
        Tx::Write(0x21, vec![0x01, 0xfe]),
        Tx::WriteReadByte(0x21, vec![0x03], 0xff),
        Tx::Write(0x21, vec![0x03, 0xfe]),
        // pin setup io7
        Tx::Write(0x21, vec![0x01, 0x7e]),
        Tx::WriteReadByte(0x21, vec![0x03], 0xfe),
        Tx::Write(0x21, vec![0x03, 0x7e]),
        Tx::WriteReadByte(0x21, vec![0x03], 0x7e),
        Tx::Write(0x21, vec![0x03, 0xfe]),
        // output io0
        Tx::Write(0x21, vec![0x01, 0x7f]),
        Tx::Write(0x21, vec![0x01, 0x7e]),
        // input io7
        Tx::WriteReadByte(0x21, vec![0x00], 0x80),
        Tx::WriteReadByte(0x21, vec![0x00], 0x7f),
        // polarity io7
        Tx::WriteReadByte(0x21, vec![0x02], 0x00),
        Tx::Write(0x21, vec![0x02, 0x80]),
        Tx::WriteReadByte(0x21, vec![0x02], 0xff),
        Tx::Write(0x21, vec![0x02, 0x7f]),
    ];
    let bus = MockI2c::new(&expectations);

    let mut pcal = Pcal6408a::new(bus.clone(), true);
    let pcal_pins = pcal.split();

    let mut io0 = pcal_pins.io0.into_output(&mut pcal.port).unwrap();
    let io7 = pcal_pins.io7.into_output(&mut pcal.port).unwrap();
    let io7 = io7.into_input(&mut pcal.port).unwrap();

    // output high and low
    io0.set_high(&mut pcal.port).unwrap();
    io0.set_low(&mut pcal.port).unwrap();

    // input high and low
    assert!(io7.is_high(&mut pcal.port).unwrap());
    assert!(io7.is_low(&mut pcal.port).unwrap());

    let mut io7 = io7.into_inverted(&mut pcal.port).unwrap();
    io7.set_inverted(&mut pcal.port, false).unwrap();

    bus.done();
}

#[test]
fn pca6416a() {
    let expectations = [
        // pin setup io0_0
        Tx::WriteReadByte(0x21, vec![0x02], 0xff),
        Tx::WriteReadByte(0x21, vec![0x03], 0xff),
        Tx::Write(0x21, vec![0x02, 0xfe]),
        Tx::WriteReadByte(0x21, vec![0x06], 0xff),
        Tx::Write(0x21, vec![0x06, 0xfe]),
        // pin setup io0_7
        Tx::Write(0x21, vec![0x02, 0x7e]),
        Tx::WriteReadByte(0x21, vec![0x06], 0xfe),
        Tx::Write(0x21, vec![0x06, 0x7e]),
        Tx::WriteReadByte(0x21, vec![0x06], 0x7e),
        Tx::Write(0x21, vec![0x06, 0xfe]),
        // pin setup io1_0
        Tx::Write(0x21, vec![0x03, 0xfe]),
        Tx::WriteReadByte(0x21, vec![0x07], 0xff),
        Tx::Write(0x21, vec![0x07, 0xfe]),
        // pin setup io1_7
        Tx::Write(0x21, vec![0x03, 0x7e]),
        Tx::WriteReadByte(0x21, vec![0x07], 0xfe),
        Tx::Write(0x21, vec![0x07, 0x7e]),
        Tx::WriteReadByte(0x21, vec![0x07], 0x7e),
        Tx::Write(0x21, vec![0x07, 0xfe]),
        // output io0_0, io1_0
        Tx::Write(0x21, vec![0x02, 0x7f]),
        Tx::Write(0x21, vec![0x02, 0x7e]),
        Tx::Write(0x21, vec![0x03, 0x7f]),
        Tx::Write(0x21, vec![0x03, 0x7e]),
        // input io0_7, io1_7
        Tx::WriteReadByte(0x21, vec![0x00], 0x80),
        Tx::WriteReadByte(0x21, vec![0x00], 0x7f),
        Tx::WriteReadByte(0x21, vec![0x01], 0x80),
        Tx::WriteReadByte(0x21, vec![0x01], 0x7f),
        // polarity io0_7, io1_7
        Tx::WriteReadByte(0x21, vec![0x04], 0x00),
        Tx::Write(0x21, vec![0x04, 0x80]),
        Tx::WriteReadByte(0x21, vec![0x04], 0xff),
        Tx::Write(0x21, vec![0x04, 0x7f]),
        Tx::WriteReadByte(0x21, vec![0x05], 0x00),
        Tx::Write(0x21, vec![0x05, 0x80]),
        Tx::WriteReadByte(0x21, vec![0x05], 0xff),
        Tx::Write(0x21, vec![0x05, 0x7f]),
    ];
    let bus = MockI2c::new(&expectations);

    let mut pcal = Pcal6416a::new(bus.clone(), true);
    let pcal_pins = pcal.split();

    let mut io0_0 = pcal_pins.io0_0.into_output(&mut pcal.port).unwrap();
    let io0_7 = pcal_pins.io0_7.into_output(&mut pcal.port).unwrap();
    let io0_7 = io0_7.into_input(&mut pcal.port).unwrap();

    let mut io1_0 = pcal_pins.io1_0.into_output(&mut pcal.port).unwrap();
    let io1_7 = pcal_pins.io1_7.into_output(&mut pcal.port).unwrap();
    let io1_7 = io1_7.into_input(&mut pcal.port).unwrap();

    // output high and low
    io0_0.set_high(&mut pcal.port).unwrap();
    io0_0.set_low(&mut pcal.port).unwrap();
    io1_0.set_high(&mut pcal.port).unwrap();
    io1_0.set_low(&mut pcal.port).unwrap();

    // input high and low
    assert!(io0_7.is_high(&mut pcal.port).unwrap());
    assert!(io0_7.is_low(&mut pcal.port).unwrap());
    assert!(io1_7.is_high(&mut pcal.port).unwrap());
    assert!(io1_7.is_low(&mut pcal.port).unwrap());

    let mut io0_7 = io0_7.into_inverted(&mut pcal.port).unwrap();
    io0_7.set_inverted(&mut pcal.port, false).unwrap();
    let mut io1_7 = io1_7.into_inverted(&mut pcal.port).unwrap();
    io1_7.set_inverted(&mut pcal.port, false).unwrap();

    bus.done();
}

#[test]
fn pi4ioe5v6408() {
    let expectations = [
        // driver setup
        Tx::WriteReadByte(0x43, vec![0x01], 0xa2),
        Tx::Write(0x43, vec![0x07, 0b00000000]),
        Tx::Write(0x43, vec![0x11, 0b11111111]),
        Tx::Write(0x43, vec![0x0b, 0b00000000]),
        // pin setup io0
        Tx::WriteReadByte(0x43, vec![0x03], 0),
        Tx::Write(0x43, vec![0x03, 0b00000001]),
        // pin setup io1
        Tx::Write(0x43, vec![0x05, 0b00000010]),
        Tx::WriteReadByte(0x43, vec![0x03], 0b00000001),
        Tx::Write(0x43, vec![0x03, 0b00000011]),
        // pin setup io0 as input
        Tx::WriteReadByte(0x43, vec![0x03], 0b00000011),
        Tx::Write(0x43, vec![0x03, 0b00000010]),
        // io1 writes
        Tx::Write(0x43, vec![0x05, 0b00000000]),
        Tx::Write(0x43, vec![0x05, 0b00000010]),
        Tx::Write(0x43, vec![0x05, 0b00000000]),
        // io0 reads
        Tx::WriteReadByte(0x43, vec![0x0f], 0b00000001),
        Tx::WriteReadByte(0x43, vec![0x0f], 0b00000000),
    ];
    let bus = MockI2c::new(&expectations);

    let mut pca = Pi4ioe5v6408::new(bus.clone(), false).unwrap();
    let pca_pins = pca.split();

    let io0 = pca_pins.io0.into_output(&mut pca.port).unwrap();
    let mut io1 = pca_pins.io1.into_output_high(&mut pca.port).unwrap();

    let io0 = io0.into_input(&mut pca.port).unwrap();

    io1.set_low(&mut pca.port).unwrap();
    io1.set_high(&mut pca.port).unwrap();
    io1.toggle(&mut pca.port).unwrap();

    assert!(io0.is_high(&mut pca.port).unwrap());
    assert!(io0.is_low(&mut pca.port).unwrap());

    bus.done();
}

#[test]
fn pi4ioe5v6408_retained() {
    let expectations = [
        // driver setup
        Tx::WriteReadByte(0x44, vec![0x01], 0xa2),
        Tx::WriteReadByte(0x44, vec![0x05], 0b10101111),
        // pin setup io0
        Tx::Write(0x44, vec![0x05, 0b10101110]),
        Tx::WriteReadByte(0x44, vec![0x03], 0),
        Tx::Write(0x44, vec![0x03, 0b00000001]),
        // pin setup io1
        Tx::WriteReadByte(0x44, vec![0x03], 0b00000001),
        Tx::Write(0x44, vec![0x03, 0b00000011]),
        // io1 writes
        Tx::Write(0x44, vec![0x05, 0b10101100]),
        Tx::Write(0x44, vec![0x05, 0b10101110]),
        Tx::Write(0x44, vec![0x05, 0b10101100]),
    ];
    let bus = MockI2c::new(&expectations);

    let mut pca = Pi4ioe5v6408::with_retained_pin_config(bus.clone(), true).unwrap();
    let pca_pins = pca.split();

    let _io0 = pca_pins.io0.into_output(&mut pca.port).unwrap();
    let mut io1 = pca_pins.io1.into_output_high(&mut pca.port).unwrap();

    io1.set_low(&mut pca.port).unwrap();
    io1.set_high(&mut pca.port).unwrap();
    io1.toggle(&mut pca.port).unwrap();

    bus.done();
}

#[test]
fn pi4ioe5v6408_wrong_device_id() {
    let expectations = [
        // the id register reports something that is not this chip
        Tx::WriteReadByte(0x43, vec![0x01], 0x55),
    ];
    let bus = MockI2c::new(&expectations);

    let r = Pi4ioe5v6408::new(bus.clone(), false);
    assert!(matches!(
        r,
        Err(port_expander::dev::pi4ioe5v6408::Pi4ioeError::UnexpectedDeviceId(0x55))
    ));

    bus.done();
}

#[test]
fn pcf8574_write_multiple() {
    let expectations = [
        // single writes for multiple pins
        Tx::Write(0x21, vec![0b10111011]),
        Tx::Write(0x21, vec![0b10101111]),
    ];
    let bus = MockI2c::new(&expectations);

    let mut pcf = Pcf8574::new(bus.clone(), true, false, false);
    let pcf_pins = pcf.split();

    write_multiple(
        &[&pcf_pins.p2, &pcf_pins.p4, &pcf_pins.p6],
        &[false, true, false],
        &mut pcf.port,
    )
    .unwrap();

    write_multiple(&[&pcf_pins.p2, &pcf_pins.p4], &[true, false], &mut pcf.port).unwrap();

    bus.done();
}

#[test]
fn pcf8575_write_multiple() {
    let expectations = [
        // single writes for multiple pins
        Tx::Write(0x21, vec![0b10111011, 0b11011101]),
        Tx::Write(0x21, vec![0b10101111, 0b11010111]),
    ];
    let bus = MockI2c::new(&expectations);

    let mut pcf = Pcf8575::new(bus.clone(), true, false, false);
    let pcf_pins = pcf.split();

    write_multiple(
        &[
            &pcf_pins.p02,
            &pcf_pins.p04,
            &pcf_pins.p06,
            &pcf_pins.p11,
            &pcf_pins.p13,
            &pcf_pins.p15,
        ],
        &[false, true, false, false, true, false],
        &mut pcf.port,
    )
    .unwrap();

    write_multiple(
        &[&pcf_pins.p02, &pcf_pins.p04, &pcf_pins.p11, &pcf_pins.p13],
        &[true, false, true, false],
        &mut pcf.port,
    )
    .unwrap();

    bus.done();
}

#[test]
fn pca9536_read_multiple() {
    let expectations = [
        // single reads for multiple pins
        Tx::WriteReadByte(0x41, vec![0x00], 0b00000101),
        Tx::WriteReadByte(0x41, vec![0x00], 0b00001010),
    ];
    let bus = MockI2c::new(&expectations);

    let mut pca = Pca9536::new(bus.clone());
    let pca_pins = pca.split();

    let res = read_multiple(&[&pca_pins.io0, &pca_pins.io1, &pca_pins.io2], &mut pca.port).unwrap();
    assert_eq!(res, [true, false, true]);

    let res = read_multiple(&[&pca_pins.io1, &pca_pins.io0, &pca_pins.io3], &mut pca.port).unwrap();
    assert_eq!(res, [true, false, true]);

    bus.done();
}
