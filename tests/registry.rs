use n64_pac::hardware::Hardware;
use n64_pac::registry::CheckoutError;

#[test]
fn hardware_is_made_once() {
    let mut taken = false;
    let first = Hardware::take(&mut taken);
    assert!(first.is_some());
    assert!(taken);
    assert!(Hardware::take(&mut taken).is_none());
    assert!(Hardware::take(&mut taken).is_none());
}

#[test]
fn new_hardware_has_every_block_available() {
    let mut taken = false;
    let hw = Hardware::new(&mut taken);
    assert!(taken);
    assert!(hw.ai.is_available() && hw.dpc.is_available() && hw.dps.is_available());
    assert!(hw.mi.is_available() && hw.pc.is_available() && hw.pi.is_available());
    assert!(hw.rdram.is_available() && hw.ri.is_available() && hw.si.is_available());
    assert!(hw.sp.is_available() && hw.vi.is_available());
}

#[test]
fn take_release_take() {
    let mut taken = false;
    let mut hw = Hardware::take(&mut taken).unwrap();
    let token = hw.vi.take();
    assert!(token.is_ok());
    assert!(matches!(hw.vi.take(), Err(CheckoutError::AlreadyTaken)));
    assert!(!hw.vi.is_available());
    hw.vi.release(token.unwrap());
    assert!(hw.vi.is_available());
    assert!(hw.vi.take().is_ok());
}

#[test]
fn second_take_fails_until_release() {
    let mut taken = false;
    let mut hw = Hardware::new(&mut taken);
    let ai = hw.ai.take().unwrap();
    for _ in 0..3 {
        assert!(matches!(hw.ai.take(), Err(CheckoutError::AlreadyTaken)));
    }
    // other blocks are unaffected
    assert!(hw.dps.take().is_ok());
    hw.ai.release(ai);
    assert!(hw.ai.take().is_ok());
}
