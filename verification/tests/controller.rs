use frc::pneumatics::bitset::{BitsetWrite, DoubleSolenoidState};
use frc::pneumatics::solenoid::SolenoidController;
use std::sync::atomic::{AtomicU32, Ordering};

struct Latch(AtomicU32);

impl SolenoidController for Latch {
    // The two relations are read by the verifier alone and are never called.
    fn may_read(&self, _bits: u32) -> bool {
        true
    }

    fn may_write(&self, _mask: u32, _values: u32) -> bool {
        true
    }

    fn get_solenoid_bitset(&self) -> u32 {
        self.0.load(Ordering::SeqCst)
    }

    fn set_solenoid_bitset(&self, mask: u32, values: u32) {
        let next = BitsetWrite { mask, values }.apply(self.0.load(Ordering::SeqCst));
        self.0.store(next, Ordering::SeqCst);
    }
}

#[test]
fn a_controller_of_ones_own_gets_the_provided_methods() {
    let latch = Latch(AtomicU32::new(0));
    latch.set_solenoid_bitset(0xFFFF_FFFF, 0);
    assert_eq!(latch.get_solenoid_bitset(), 0);
    latch.set_solenoid_bitset(0xF000, 0xFFFF_FFFF);
    assert_eq!(latch.get_solenoid_bitset(), 0xF000);
    latch.set_solenoid_bitset(0x00FF, 0x0F0F);
    assert_eq!(latch.get_solenoid_bitset(), 0xF00F);
    latch.set_double_solenoid(4, 5, DoubleSolenoidState::Forward);
    assert_eq!(latch.get_double_solenoid(4, 5), Ok(DoubleSolenoidState::Forward));
    assert!(!latch.get_solenoid(5));
    latch.set_solenoid(5, true);
    assert!(latch.get_double_solenoid(4, 5).is_err());
}
