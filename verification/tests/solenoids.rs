use frc::pneumatics::bitset::{BitsetWrite, DoubleSolenoidState, InvalidDoubleSolenoidState};
use frc::pneumatics::compressor::{Compressor, DigitalCompressor};
use frc::pneumatics::ctre_pcm::{CtrePcm, CtrePcmPort, CtrePneumatics};
use frc::pneumatics::rev_ph::{
    config_is, RevCompressorMode, RevPh, RevPhPort, RevPneumatics, REV_CONFIG_ANALOG,
    REV_CONFIG_DIGITAL, REV_CONFIG_DISABLED, REV_CONFIG_HYBRID,
};
use frc::pneumatics::solenoid::{
    AnyDoubleSolenoid, AnySolenoid, ChannelErasedDoubleSolenoid, ChannelErasedSolenoid,
    DoubleSolenoid, Solenoid, SolenoidChannel, SolenoidController, TypedDoubleSolenoid,
    TypedSolenoid,
};
use std::sync::atomic::{AtomicI32, AtomicU32, Ordering};
use std::sync::{Arc, Mutex};

/// What a test can still see of a module after the module has been given away.
#[derive(Default)]
struct Bench {
    bits: AtomicU32,
    writes: Mutex<Vec<(i32, i32)>>,
    compressor: AtomicI32,
    pressure_switch: AtomicI32,
    closed_loop: AtomicI32,
    config: AtomicI32,
}

impl Bench {
    fn bits(&self) -> u32 {
        self.bits.load(Ordering::SeqCst)
    }

    fn set_bits(&self, bits: u32) {
        self.bits.store(bits, Ordering::SeqCst);
    }

    fn writes(&self) -> Vec<(i32, i32)> {
        self.writes.lock().unwrap().clone()
    }

    fn write(&self, mask: i32, values: i32) {
        self.writes.lock().unwrap().push((mask, values));
        let write = BitsetWrite { mask: mask as u32, values: values as u32 };
        self.set_bits(write.apply(self.bits()));
    }
}

struct FakePcm(Arc<Bench>);

impl CtrePcmPort for FakePcm {
    fn solenoids(&self) -> i32 {
        self.0.bits() as i32
    }

    fn set_solenoids(&self, mask: i32, values: i32) {
        self.0.write(mask, values);
    }

    fn compressor(&self) -> i32 {
        self.0.compressor.load(Ordering::SeqCst)
    }

    fn pressure_switch(&self) -> i32 {
        self.0.pressure_switch.load(Ordering::SeqCst)
    }

    fn closed_loop_control(&self) -> i32 {
        self.0.closed_loop.load(Ordering::SeqCst)
    }

    fn set_closed_loop_control(&self, enabled: i32) {
        self.0.closed_loop.store(enabled, Ordering::SeqCst);
    }
}

struct FakePh(Arc<Bench>);

impl RevPhPort for FakePh {
    fn solenoids(&self) -> i32 {
        self.0.bits() as i32
    }

    fn set_solenoids(&self, mask: i32, values: i32) {
        self.0.write(mask, values);
    }

    fn compressor(&self) -> i32 {
        self.0.compressor.load(Ordering::SeqCst)
    }

    fn compressor_config(&self) -> i32 {
        self.0.config.load(Ordering::SeqCst)
    }

    fn pressure_switch(&self) -> i32 {
        self.0.pressure_switch.load(Ordering::SeqCst)
    }

    fn set_closed_loop_control_disabled(&self) {
        self.0.config.store(REV_CONFIG_DISABLED, Ordering::SeqCst);
    }

    fn set_closed_loop_control_digital(&self) {
        self.0.config.store(REV_CONFIG_DIGITAL, Ordering::SeqCst);
    }
}

fn made<S, E>(made: Result<S, E>) -> S {
    match made {
        Ok(solenoid) => solenoid,
        Err(_) => panic!("channels of one controller were refused"),
    }
}

fn pcm() -> (Arc<Bench>, CtrePcm<FakePcm>) {
    let bench = Arc::new(Bench::default());
    (bench.clone(), CtrePcm::from_port(FakePcm(bench)))
}

fn ph() -> (Arc<Bench>, RevPh<FakePh>) {
    let bench = Arc::new(Bench::default());
    (bench.clone(), RevPh::from_port(FakePh(bench)))
}

#[test]
fn controller_masked_write_sequence() {
    let (_bench, controller) = pcm();
    controller.set_solenoid_bitset(0xFFFF_FFFF, 0);
    assert_eq!(controller.get_solenoid_bitset(), 0);
    controller.set_solenoid_bitset(0xF000, 0xFFFF_FFFF);
    assert_eq!(controller.get_solenoid_bitset(), 0xF000);
    controller.set_solenoid_bitset(0x00FF, 0x0F0F);
    assert_eq!(controller.get_solenoid_bitset(), 0xF00F);
}

#[test]
fn controller_passes_the_top_bit_through_the_signed_word() {
    let (bench, controller) = pcm();
    controller.set_solenoid_bitset(0x8000_0000, 0xFFFF_FFFF);
    assert_eq!(bench.writes(), vec![(i32::MIN, -1)]);
    assert_eq!(controller.get_solenoid_bitset(), 0x8000_0000);
    assert!(controller.get_solenoid(31));
    assert!(!controller.get_solenoid(30));
}

#[test]
fn controller_derived_single_operations() {
    let (bench, controller) = pcm();
    controller.set_solenoid(3, true);
    assert_eq!(bench.writes(), vec![(0b1000, -1)]);
    assert!(controller.get_solenoid(3));
    assert!(!controller.get_solenoid(2));
    controller.set_solenoid(3, false);
    assert_eq!(bench.bits(), 0);
}

#[test]
fn controller_derived_double_operations() {
    let (bench, controller) = pcm();
    bench.set_bits(0b0000_0100);
    assert_eq!(controller.get_double_solenoid(2, 5), Ok(DoubleSolenoidState::Forward));
    bench.set_bits(0b0010_0000);
    assert_eq!(controller.get_double_solenoid(2, 5), Ok(DoubleSolenoidState::Backward));
    bench.set_bits(0b1101_1011);
    assert_eq!(controller.get_double_solenoid(2, 5), Ok(DoubleSolenoidState::Off));
    bench.set_bits(0b0010_0100);
    assert_eq!(controller.get_double_solenoid(2, 5), Err(InvalidDoubleSolenoidState));

    controller.set_double_solenoid(2, 5, DoubleSolenoidState::Backward);
    assert_eq!(bench.writes(), vec![(0b0010_0100, 0b0010_0000)]);
    assert_eq!(controller.get_double_solenoid(2, 5), Ok(DoubleSolenoidState::Backward));
}

#[test]
fn shared_controller_reaches_the_one_behind_it() {
    let (bench, controller) = pcm();
    let shared = Arc::new(controller);
    shared.set_solenoid(1, true);
    assert_eq!(bench.bits(), 0b10);
    assert!(SolenoidController::get_solenoid(&shared, 1));
    assert_eq!(SolenoidController::get_solenoid_bitset(&shared), 0b10);
    SolenoidController::set_solenoid_bitset(&shared, 0b11, 0b01);
    assert_eq!(bench.bits(), 0b01);
}

#[test]
fn partition_gives_each_channel_its_number() {
    let (bench, controller) = pcm();
    let (_compressor, CtrePneumatics {
        channel0,
        channel1,
        channel2,
        channel3,
        channel4,
        channel5,
        channel6,
        channel7,
    }) = controller.into_parts();
    TypedSolenoid::new(channel0).set(true);
    TypedSolenoid::new(channel1).set(true);
    TypedSolenoid::new(channel2).set(true);
    TypedSolenoid::new(channel3).set(true);
    TypedSolenoid::new(channel4).set(true);
    TypedSolenoid::new(channel5).set(true);
    TypedSolenoid::new(channel6).set(true);
    TypedSolenoid::new(channel7).set(true);
    let masks: Vec<i32> = bench.writes().iter().map(|w| w.0).collect();
    assert_eq!(masks, vec![1, 2, 4, 8, 16, 32, 64, 128]);
    assert_eq!(bench.bits(), 0xFF);
}

#[test]
fn hub_partition_gives_sixteen_channels() {
    let (bench, hub) = ph();
    let (_compressor, channels) = hub.into_parts();
    let RevPneumatics {
        channel0,
        channel1,
        channel2,
        channel3,
        channel4,
        channel5,
        channel6,
        channel7,
        channel8,
        channel9,
        channel10,
        channel11,
        channel12,
        channel13,
        channel14,
        channel15,
    } = channels;
    TypedSolenoid::new(channel0).set(true);
    TypedSolenoid::new(channel1).set(true);
    TypedSolenoid::new(channel2).set(true);
    TypedSolenoid::new(channel3).set(true);
    TypedSolenoid::new(channel4).set(true);
    TypedSolenoid::new(channel5).set(true);
    TypedSolenoid::new(channel6).set(true);
    TypedSolenoid::new(channel7).set(true);
    TypedSolenoid::new(channel8).set(true);
    TypedSolenoid::new(channel9).set(true);
    TypedSolenoid::new(channel10).set(true);
    TypedSolenoid::new(channel11).set(true);
    TypedSolenoid::new(channel12).set(true);
    TypedSolenoid::new(channel13).set(true);
    TypedSolenoid::new(channel14).set(true);
    TypedSolenoid::new(channel15).set(true);
    let masks: Vec<i32> = bench.writes().iter().map(|w| w.0).collect();
    let expected: Vec<i32> = (0..16).map(|n| 1 << n).collect();
    assert_eq!(masks, expected);
    assert_eq!(bench.bits(), 0xFFFF);
}

#[test]
fn typed_solenoid_sets_and_gets_its_channel() {
    let (bench, controller) = pcm();
    let (_compressor, channels) = controller.into_parts();
    let mut solenoid = TypedSolenoid::new(channels.channel5);
    assert!(!solenoid.get());
    solenoid.set(true);
    assert!(solenoid.get());
    assert_eq!(bench.bits(), 0b10_0000);
    bench.set_bits(0b1101_1111);
    assert!(!solenoid.get());
    solenoid.set(false);
    assert_eq!(bench.bits(), 0b1101_1111);
}

#[test]
fn typed_solenoid_returns_its_channel() {
    let (bench, controller) = pcm();
    let (_compressor, channels) = controller.into_parts();
    let solenoid = TypedSolenoid::new(channels.channel6);
    let channel = solenoid.into_channel();
    let mut again = TypedSolenoid::new(channel);
    again.set(true);
    assert_eq!(bench.bits(), 0b100_0000);
}

#[test]
fn channel_gives_up_its_controller() {
    let (bench, controller) = pcm();
    let (_compressor, channels) = controller.into_parts();
    let shared = channels.channel2.into_controller();
    shared.set_solenoid_bitset(0xFF, 0xA5);
    assert_eq!(bench.bits(), 0xA5);
    let other = channels.channel3.into_controller();
    assert!(Arc::ptr_eq(&shared, &other));
}

#[test]
fn erasing_the_channel_keeps_channel_and_controller() {
    let (bench, controller) = pcm();
    let (_compressor, channels) = controller.into_parts();
    let mut erased: Vec<ChannelErasedSolenoid<CtrePcm<FakePcm>>> = vec![
        TypedSolenoid::new(channels.channel1).erase_channel(),
        TypedSolenoid::new(channels.channel4).erase_channel(),
    ];
    erased[0].set(true);
    erased[1].set(true);
    assert_eq!(bench.bits(), 0b1_0010);
    assert!(erased[0].get());
    bench.set_bits(0b0_0010);
    assert!(!erased[1].get());
}

#[test]
fn erasing_everything_keeps_channel_and_controller() {
    let (pcm_bench, controller) = pcm();
    let (ph_bench, hub) = ph();
    let (_c, ctre) = controller.into_parts();
    let (_r, rev) = hub.into_parts();
    let mut mixed: Vec<AnySolenoid> = vec![
        TypedSolenoid::new(ctre.channel7).erase_all(),
        TypedSolenoid::new(rev.channel12).erase_all(),
        TypedSolenoid::new(rev.channel3).erase_channel().erase_all(),
    ];
    for solenoid in mixed.iter_mut() {
        solenoid.set(true);
    }
    assert_eq!(pcm_bench.bits(), 1 << 7);
    assert_eq!(ph_bench.bits(), (1 << 12) | (1 << 3));
    assert!(mixed[0].get());
    ph_bench.set_bits(1 << 3);
    assert!(!mixed[1].get());
    assert!(mixed[2].get());
}

#[test]
fn double_solenoid_sets_with_one_write() {
    let (bench, controller) = pcm();
    let (_compressor, channels) = controller.into_parts();
    let mut solenoid = made(TypedDoubleSolenoid::new(channels.channel0, channels.channel1));
    bench.set_bits(0b10);
    solenoid.set(DoubleSolenoidState::Forward);
    assert_eq!(bench.writes(), vec![(0b11, 0b01)]);
    assert_eq!(solenoid.get(), Ok(DoubleSolenoidState::Forward));
    assert_eq!(bench.bits() & 0b10, 0);
    solenoid.set(DoubleSolenoidState::Backward);
    assert_eq!(solenoid.get(), Ok(DoubleSolenoidState::Backward));
    solenoid.set(DoubleSolenoidState::Off);
    assert_eq!(solenoid.get(), Ok(DoubleSolenoidState::Off));
    assert_eq!(bench.writes().len(), 3);
}

#[test]
fn double_solenoid_reports_both_ends_actuated() {
    let (bench, controller) = pcm();
    let (_compressor, channels) = controller.into_parts();
    let solenoid = made(TypedDoubleSolenoid::new(channels.channel2, channels.channel6));
    bench.set_bits((1 << 2) | (1 << 6));
    assert_eq!(solenoid.get(), Err(InvalidDoubleSolenoidState));
}

#[test]
fn double_solenoid_of_two_controllers_is_refused() {
    let (first_bench, first) = pcm();
    let (second_bench, second) = pcm();
    let (_c1, first_channels) = first.into_parts();
    let (_c2, second_channels) = second.into_parts();
    let refused = TypedDoubleSolenoid::new(first_channels.channel0, second_channels.channel1);
    let (forward, backward) = match refused {
        Ok(_) => panic!("channels of two controllers made a double solenoid"),
        Err(channels) => channels,
    };
    TypedSolenoid::new(forward).set(true);
    TypedSolenoid::new(backward).set(true);
    assert_eq!(first_bench.bits(), 0b01);
    assert_eq!(second_bench.bits(), 0b10);
}

#[test]
fn double_solenoid_of_two_controllers_is_refused_every_time() {
    for _ in 0..50 {
        let (_b1, first) = pcm();
        let (_b2, second) = pcm();
        let (_c1, first_channels) = first.into_parts();
        let (_c2, second_channels) = second.into_parts();
        assert!(
            TypedDoubleSolenoid::new(first_channels.channel3, second_channels.channel4)
                .is_err()
        );
    }
}

#[test]
fn double_solenoid_of_one_controller_is_made() {
    let (bench, controller) = pcm();
    let (_compressor, channels) = controller.into_parts();
    let mut solenoid = match TypedDoubleSolenoid::new(channels.channel3, channels.channel4) {
        Ok(solenoid) => solenoid,
        Err(_) => panic!("channels of one controller were refused"),
    };
    solenoid.set(DoubleSolenoidState::Backward);
    assert_eq!(bench.bits(), 1 << 4);
}

#[test]
fn double_solenoid_returns_its_channels() {
    let (bench, controller) = pcm();
    let (_compressor, channels) = controller.into_parts();
    let solenoid = made(TypedDoubleSolenoid::new(channels.channel3, channels.channel4));
    let (forward, backward) = solenoid.into_channels();
    TypedSolenoid::new(backward).set(true);
    assert_eq!(bench.bits(), 1 << 4);
    TypedSolenoid::new(forward).set(true);
    assert_eq!(bench.bits(), (1 << 4) | (1 << 3));
}

#[test]
fn erased_double_solenoids_keep_their_channels() {
    let (pcm_bench, controller) = pcm();
    let (ph_bench, hub) = ph();
    let (_c, ctre) = controller.into_parts();
    let (_r, rev) = hub.into_parts();
    let mut same_kind: ChannelErasedDoubleSolenoid<CtrePcm<FakePcm>> =
        made(TypedDoubleSolenoid::new(ctre.channel0, ctre.channel1)).erase_channels();
    same_kind.set(DoubleSolenoidState::Backward);
    assert_eq!(pcm_bench.bits(), 0b10);
    assert_eq!(same_kind.get(), Ok(DoubleSolenoidState::Backward));

    let mut mixed: Vec<AnyDoubleSolenoid> = vec![
        same_kind.erase_all(),
        made(TypedDoubleSolenoid::new(ctre.channel2, ctre.channel3)).erase_all(),
        made(TypedDoubleSolenoid::new(rev.channel14, rev.channel15)).erase_all(),
    ];
    mixed[0].set(DoubleSolenoidState::Forward);
    mixed[1].set(DoubleSolenoidState::Forward);
    mixed[2].set(DoubleSolenoidState::Backward);
    assert_eq!(pcm_bench.bits(), 0b0101);
    assert_eq!(ph_bench.bits(), 1 << 15);
    assert_eq!(mixed[2].get(), Ok(DoubleSolenoidState::Backward));
    ph_bench.set_bits(0xC000);
    assert_eq!(mixed[2].get(), Err(InvalidDoubleSolenoidState));
}

#[test]
fn module_hands_its_port_back() {
    let (bench, controller) = pcm();
    let port = controller.into_port();
    assert!(Arc::ptr_eq(&port.0, &bench));
    let (bench, hub) = ph();
    let port = hub.into_port();
    assert!(Arc::ptr_eq(&port.0, &bench));
}

#[test]
fn module_compressor_reads_and_switches() {
    let (bench, controller) = pcm();
    let (mut compressor, _channels) = controller.into_parts();
    assert!(!compressor.running());
    bench.compressor.store(7, Ordering::SeqCst);
    assert!(compressor.running());
    bench.pressure_switch.store(-1, Ordering::SeqCst);
    assert!(compressor.get_pressure_switch());
    assert!(!compressor.in_digital_mode());
    compressor.enable_digital();
    assert_eq!(bench.closed_loop.load(Ordering::SeqCst), 1);
    assert!(compressor.in_digital_mode());
    compressor.disable();
    assert_eq!(bench.closed_loop.load(Ordering::SeqCst), 0);
    assert!(!compressor.in_digital_mode());
}

#[test]
fn hub_compressor_reads_its_mode() {
    let (bench, hub) = ph();
    let (mut compressor, _channels) = hub.into_parts();
    assert_eq!(compressor.mode(), Some(RevCompressorMode::Disabled));
    compressor.enable_digital();
    assert_eq!(compressor.mode(), Some(RevCompressorMode::Digital));
    assert!(compressor.in_digital_mode());
    bench.config.store(REV_CONFIG_ANALOG, Ordering::SeqCst);
    assert!(compressor.in_analog_mode());
    assert!(!compressor.in_hybrid_mode());
    bench.config.store(REV_CONFIG_HYBRID, Ordering::SeqCst);
    assert!(compressor.in_hybrid_mode());
    assert_eq!(compressor.mode(), Some(RevCompressorMode::Hybrid));
    bench.config.store(4, Ordering::SeqCst);
    assert_eq!(compressor.mode(), None);
    assert!(!compressor.in_digital_mode());
    compressor.disable();
    assert_eq!(compressor.mode(), Some(RevCompressorMode::Disabled));
    bench.compressor.store(1, Ordering::SeqCst);
    assert!(compressor.running());
    assert!(!compressor.get_pressure_switch());
}

#[test]
fn compressor_mode_from_configuration_word() {
    assert_eq!(RevCompressorMode::try_from(0), Ok(RevCompressorMode::Disabled));
    assert_eq!(RevCompressorMode::try_from(1), Ok(RevCompressorMode::Digital));
    assert_eq!(RevCompressorMode::try_from(2), Ok(RevCompressorMode::Analog));
    assert_eq!(RevCompressorMode::try_from(3), Ok(RevCompressorMode::Hybrid));
    assert_eq!(RevCompressorMode::try_from(4), Err(()));
    assert_eq!(RevCompressorMode::try_from(-1), Err(()));
    assert_eq!(RevCompressorMode::Hybrid.to_config(), 3);
    assert_eq!(RevCompressorMode::Disabled.to_config(), 0);
    assert!(config_is(2, RevCompressorMode::Analog));
    assert!(!config_is(2, RevCompressorMode::Digital));
}

#[test]
fn double_solenoid_follows_the_answer_of_the_check() {
    let (bench, controller) = pcm();
    let (_compressor, channels) = controller.into_parts();
    let (forward, backward) =
        match TypedDoubleSolenoid::from_check(channels.channel0, channels.channel1, false) {
            Ok(_) => panic!("a double solenoid was made against the check"),
            Err(channels) => channels,
        };
    let mut solenoid = match TypedDoubleSolenoid::from_check(forward, backward, true) {
        Ok(solenoid) => solenoid,
        Err(_) => panic!("no double solenoid was made with the check"),
    };
    solenoid.set(DoubleSolenoidState::Backward);
    assert_eq!(bench.bits(), 0b10);
    let (forward, backward) = solenoid.into_channels();
    TypedSolenoid::new(forward).set(true);
    assert_eq!(bench.bits(), 0b11);
    TypedSolenoid::new(backward).set(false);
    assert_eq!(bench.bits(), 0b01);
}
