use frc::pneumatics::bitset::{
    read_double_masked, read_masked, write_double_masked, write_masked, BitsetWrite,
    DoubleSolenoidState, InvalidDoubleSolenoidState,
};
use frc::pneumatics::borrowed::{AnyDoubleSolenoid, AnySolenoid};
use frc::pneumatics::compressor::{Compressor, DigitalCompressor};
use frc::pneumatics::ctre::{CtreChannel, CtreDoubleSolenoid, CtrePneumatics, CtreSolenoid};
use frc::pneumatics::ctre_pcm::{CtrePcm, CtrePcmPort};
use frc::pneumatics::rev::{RevDoubleSolenoid, RevSolenoid};
use frc::pneumatics::rev_ph::{RevPh, RevPhPort};
use frc::pneumatics::solenoid::{DoubleSolenoid, Solenoid};
use std::sync::atomic::{AtomicI32, AtomicU32, Ordering};
use std::sync::{Arc, Mutex};

#[derive(Default)]
struct Bank {
    bits: AtomicU32,
    writes: Mutex<Vec<(i32, i32)>>,
    config: AtomicI32,
    closed_loop: AtomicI32,
}

impl Bank {
    fn bits(&self) -> u32 {
        self.bits.load(Ordering::SeqCst)
    }

    fn write(&self, mask: i32, values: i32) {
        self.writes.lock().unwrap().push((mask, values));
        let write = BitsetWrite { mask: mask as u32, values: values as u32 };
        self.bits.store(write.apply(self.bits()), Ordering::SeqCst);
    }
}

struct Port(Arc<Bank>);

impl CtrePcmPort for Port {
    fn solenoids(&self) -> i32 {
        self.0.bits() as i32
    }

    fn set_solenoids(&self, mask: i32, values: i32) {
        self.0.write(mask, values);
    }

    fn compressor(&self) -> i32 {
        1
    }

    fn pressure_switch(&self) -> i32 {
        0
    }

    fn closed_loop_control(&self) -> i32 {
        self.0.closed_loop.load(Ordering::SeqCst)
    }

    fn set_closed_loop_control(&self, enabled: i32) {
        self.0.closed_loop.store(enabled, Ordering::SeqCst);
    }
}

impl RevPhPort for Port {
    fn solenoids(&self) -> i32 {
        self.0.bits() as i32
    }

    fn set_solenoids(&self, mask: i32, values: i32) {
        self.0.write(mask, values);
    }

    fn compressor(&self) -> i32 {
        0
    }

    fn compressor_config(&self) -> i32 {
        self.0.config.load(Ordering::SeqCst)
    }

    fn pressure_switch(&self) -> i32 {
        1
    }

    fn set_closed_loop_control_disabled(&self) {
        self.0.config.store(0, Ordering::SeqCst);
    }

    fn set_closed_loop_control_digital(&self) {
        self.0.config.store(1, Ordering::SeqCst);
    }
}

fn made<S, E>(made: Result<S, E>) -> S {
    match made {
        Ok(solenoid) => solenoid,
        Err(_) => panic!("channels of one controller were refused"),
    }
}

fn pcm() -> (Arc<Bank>, CtrePcm<Port>) {
    let bank = Arc::new(Bank::default());
    (bank.clone(), CtrePcm::from_port(Port(bank)))
}

fn ph() -> (Arc<Bank>, RevPh<Port>) {
    let bank = Arc::new(Bank::default());
    (bank.clone(), RevPh::from_port(Port(bank)))
}

#[test]
fn masked_reads_and_writes() {
    assert!(read_masked(0b1010, 0b0010));
    assert!(!read_masked(0b1010, 0b0101));
    assert_eq!(write_masked(0b100, true), BitsetWrite { mask: 0b100, values: 0xFFFF_FFFF });
    assert_eq!(write_masked(0b100, false), BitsetWrite { mask: 0b100, values: 0 });
    assert_eq!(read_double_masked(0b1001, 0b0001, 0b0100), Ok(DoubleSolenoidState::Forward));
    assert_eq!(read_double_masked(0b1100, 0b0001, 0b0100), Ok(DoubleSolenoidState::Backward));
    assert_eq!(read_double_masked(0b1000, 0b0001, 0b0100), Ok(DoubleSolenoidState::Off));
    assert_eq!(read_double_masked(0b0101, 0b0001, 0b0100), Err(InvalidDoubleSolenoidState));
    assert_eq!(
        write_double_masked(0b0001, 0b0100, DoubleSolenoidState::Backward),
        BitsetWrite { mask: 0b0101, values: 0b0100 }
    );
    assert_eq!(
        write_double_masked(0b0001, 0b0100, DoubleSolenoidState::Off),
        BitsetWrite { mask: 0b0101, values: 0 }
    );
}

#[test]
fn borrowed_channels_have_their_masks() {
    let (bank, mut module) = pcm();
    {
        let (_compressor, CtrePneumatics {
            channel0,
            channel1,
            channel2,
            channel3,
            channel4,
            channel5,
            channel6,
            channel7,
        }) = module.as_parts();
        CtreSolenoid::new(channel0).set(true);
        CtreSolenoid::new(channel1).set(true);
        CtreSolenoid::new(channel2).set(true);
        CtreSolenoid::new(channel3).set(true);
        CtreSolenoid::new(channel4).set(true);
        CtreSolenoid::new(channel5).set(true);
        CtreSolenoid::new(channel6).set(true);
        CtreSolenoid::new(channel7).set(true);
    }
    let masks: Vec<i32> = bank.writes.lock().unwrap().iter().map(|w| w.0).collect();
    assert_eq!(masks, vec![1, 2, 4, 8, 16, 32, 64, 128]);
    let _again = module.as_parts();
}

#[test]
fn borrowed_hub_channels_have_their_masks() {
    let (bank, mut hub) = ph();
    let (_compressor, channels) = hub.as_parts();
    RevSolenoid::new(channels.channel0).set(true);
    RevSolenoid::new(channels.channel9).set(true);
    RevSolenoid::new(channels.channel15).set(true);
    assert_eq!(bank.bits(), 1 | (1 << 9) | (1 << 15));
}

#[test]
fn borrowed_solenoid_sets_gets_and_returns_its_channel() {
    let (bank, mut module) = pcm();
    let (_compressor, channels) = module.as_parts();
    let mut solenoid = CtreSolenoid::new(channels.channel4);
    assert!(!solenoid.get());
    solenoid.set(true);
    assert!(solenoid.get());
    assert_eq!(bank.bits(), 1 << 4);
    let channel = solenoid.into_channel();
    assert!(std::ptr::eq(channel.get_controller(), channels.channel0.get_controller()));
    let mut again = CtreSolenoid::new(channel);
    again.set(false);
    assert_eq!(bank.bits(), 0);
}

#[test]
fn borrowed_solenoid_erases_its_channel() {
    let (bank, mut module) = pcm();
    let (_compressor, channels) = module.as_parts();
    let mut three = CtreSolenoid::new(channels.channel3);
    let mut six = CtreSolenoid::new(channels.channel6);
    {
        let mut erased = vec![three.erase_channel(), six.erase_channel()];
        erased[0].set(true);
        erased[1].set(true);
        assert!(erased[0].get());
    }
    assert_eq!(bank.bits(), (1 << 3) | (1 << 6));
    three.set(false);
    assert_eq!(bank.bits(), 1 << 6);
}

#[test]
fn borrowed_solenoids_of_both_kinds_are_stored_together() {
    let (pcm_bank, mut module) = pcm();
    let (ph_bank, mut hub) = ph();
    let (_c, ctre) = module.as_parts();
    let (_r, rev) = hub.as_parts();
    let mut first = CtreSolenoid::new(ctre.channel2);
    let mut second = RevSolenoid::new(rev.channel11);
    let mut mixed: Vec<AnySolenoid<'_, Port, Port>> = vec![first.erase_all(), second.erase_all()];
    for solenoid in mixed.iter_mut() {
        solenoid.set(true);
    }
    assert!(mixed[0].get());
    assert!(mixed[1].get());
    assert_eq!(pcm_bank.bits(), 1 << 2);
    assert_eq!(ph_bank.bits(), 1 << 11);
}

#[test]
fn borrowed_double_solenoid_sets_with_one_write() {
    let (bank, mut module) = pcm();
    let (_compressor, channels) = module.as_parts();
    let mut solenoid = made(CtreDoubleSolenoid::new(channels.channel0, channels.channel1));
    solenoid.set(DoubleSolenoidState::Forward);
    assert_eq!(bank.writes.lock().unwrap().clone(), vec![(0b11, 0b01)]);
    assert_eq!(solenoid.get(), Ok(DoubleSolenoidState::Forward));
    solenoid.set(DoubleSolenoidState::Backward);
    assert_eq!(solenoid.get(), Ok(DoubleSolenoidState::Backward));
    solenoid.set(DoubleSolenoidState::Off);
    assert_eq!(solenoid.get(), Ok(DoubleSolenoidState::Off));
    bank.bits.store(0b11, Ordering::SeqCst);
    assert_eq!(solenoid.get(), Err(InvalidDoubleSolenoidState));
    let (forward, backward) = solenoid.into_channels();
    CtreSolenoid::new(forward).set(false);
    assert_eq!(bank.bits(), 0b10);
    CtreSolenoid::new(backward).set(false);
    assert_eq!(bank.bits(), 0);
}

#[test]
fn borrowed_double_solenoid_of_two_modules_is_refused() {
    let (first_bank, mut first) = pcm();
    let (second_bank, mut second) = pcm();
    let (_c1, first_channels) = first.as_parts();
    let (_c2, second_channels) = second.as_parts();
    let refused = CtreDoubleSolenoid::new(first_channels.channel0, second_channels.channel1);
    let (forward, backward) = match refused {
        Ok(_) => panic!("channels of two modules made a double solenoid"),
        Err(channels) => channels,
    };
    CtreSolenoid::new(forward).set(true);
    CtreSolenoid::new(backward).set(true);
    assert_eq!(first_bank.bits(), 0b01);
    assert_eq!(second_bank.bits(), 0b10);
    assert!(CtreDoubleSolenoid::new(first_channels.channel2, first_channels.channel3).is_ok());
}

#[test]
fn borrowed_double_solenoids_erase_their_channels() {
    let (pcm_bank, mut module) = pcm();
    let (ph_bank, mut hub) = ph();
    let (_c, ctre) = module.as_parts();
    let (_r, rev) = hub.as_parts();
    let mut first = made(CtreDoubleSolenoid::new(ctre.channel6, ctre.channel7));
    let mut second = made(RevDoubleSolenoid::new(rev.channel14, rev.channel15));
    {
        let mut erased = first.erase_channel();
        erased.set(DoubleSolenoidState::Backward);
        assert_eq!(erased.get(), Ok(DoubleSolenoidState::Backward));
    }
    assert_eq!(pcm_bank.bits(), 1 << 7);
    {
        let mut erased = second.erase_channel();
        erased.set(DoubleSolenoidState::Forward);
        assert_eq!(erased.get(), Ok(DoubleSolenoidState::Forward));
    }
    assert_eq!(ph_bank.bits(), 1 << 14);
    let mut mixed: Vec<AnyDoubleSolenoid<'_, Port, Port>> =
        vec![first.erase_all(), second.erase_all()];
    mixed[0].set(DoubleSolenoidState::Forward);
    mixed[1].set(DoubleSolenoidState::Off);
    assert_eq!(mixed[0].get(), Ok(DoubleSolenoidState::Forward));
    assert_eq!(mixed[1].get(), Ok(DoubleSolenoidState::Off));
    assert_eq!(pcm_bank.bits(), 1 << 6);
    assert_eq!(ph_bank.bits(), 0);
}

#[test]
fn borrowed_compressors_read_and_switch() {
    let (bank, mut module) = pcm();
    {
        let (mut compressor, _channels) = module.as_parts();
        assert!(compressor.running());
        assert!(!compressor.get_pressure_switch());
        assert!(!compressor.in_digital_mode());
        compressor.enable_digital();
        assert!(compressor.in_digital_mode());
        compressor.disable();
        assert!(!compressor.in_digital_mode());
    }
    assert_eq!(bank.closed_loop.load(Ordering::SeqCst), 0);
    let (hub_bank, mut hub) = ph();
    let (mut compressor, _channels) = hub.as_parts();
    assert!(!compressor.running());
    assert!(compressor.get_pressure_switch());
    compressor.enable_digital();
    assert!(compressor.in_digital_mode());
    assert_eq!(hub_bank.config.load(Ordering::SeqCst), 1);
    compressor.disable();
    assert!(!compressor.in_digital_mode());
}

#[test]
fn borrowed_double_solenoid_follows_the_answer_of_the_check() {
    let (bank, mut module) = pcm();
    let (_compressor, channels) = module.as_parts();
    let (forward, backward) =
        match CtreDoubleSolenoid::from_check(channels.channel2, channels.channel5, false) {
            Ok(_) => panic!("a double solenoid was made against the check"),
            Err(channels) => channels,
        };
    let mut solenoid = match CtreDoubleSolenoid::from_check(forward, backward, true) {
        Ok(solenoid) => solenoid,
        Err(_) => panic!("no double solenoid was made with the check"),
    };
    solenoid.set(DoubleSolenoidState::Forward);
    assert_eq!(bank.bits(), 1 << 2);
    let (forward, backward) = solenoid.into_channels();
    CtreSolenoid::new(backward).set(true);
    assert_eq!(bank.bits(), (1 << 2) | (1 << 5));
    CtreSolenoid::new(forward).set(false);
    assert_eq!(bank.bits(), 1 << 5);

    let (hub_bank, mut hub) = ph();
    let (_compressor, channels) = hub.as_parts();
    assert!(RevDoubleSolenoid::from_check(channels.channel0, channels.channel1, false).is_err());
    let mut solenoid = made(RevDoubleSolenoid::from_check(channels.channel8, channels.channel9, true));
    solenoid.set(DoubleSolenoidState::Backward);
    assert_eq!(hub_bank.bits(), 1 << 9);
}
