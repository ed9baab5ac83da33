use adc_capsule::rng::{Continue, Random};

/// A deterministic linear congruential generator standing in for a
/// hardware source; `Random` implementations use interior mutability.
struct Lcg {
    state: std::cell::Cell<u32>,
}

impl Random for Lcg {
    fn initialize(&self) {
        self.state.set(0x1234_5678);
    }

    fn reseed(&self, seed: u32) {
        self.state.set(seed);
    }

    fn random(&self) -> u32 {
        let next = self.state.get().wrapping_mul(1_103_515_245).wrapping_add(12_345);
        self.state.set(next);
        next
    }
}

#[test]
fn continue_variants_are_distinct() {
    assert_eq!(Continue::More, Continue::More);
    assert_ne!(Continue::More, Continue::Done);
}

#[test]
fn random_reseed_is_deterministic() {
    let a = Lcg { state: std::cell::Cell::new(0) };
    let b = Lcg { state: std::cell::Cell::new(0) };
    a.reseed(42);
    b.reseed(42);
    assert_eq!(a.random(), b.random());
    assert_eq!(a.random(), b.random());
    a.initialize();
    b.initialize();
    assert_eq!(a.random(), b.random());
}
