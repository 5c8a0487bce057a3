use pinout::mode::Mode;
use pinout::pin::{DriveError, Pin};

#[test]
fn test() {
    let mut s1 = Pin::new();
    let mut s2 = Pin::new();
    let mut dd1 = Pin::new();
    let mut dd2 = Pin::new();
    let mut du1 = Pin::new();
    let mut du2 = Pin::new();
    let mut df1 = Pin::new();
    let mut df2 = Pin::new();

    let id1 = Pin::new().into_pull_down_input();
    let id2 = Pin::new().into_pull_down_input();
    let iu1 = Pin::new().into_pull_up_input();
    let iu2 = Pin::new().into_pull_up_input();
    let if1 = Pin::new().into_floating_input();
    let if2 = Pin::new().into_floating_input();
    let o1 = Pin::new().into_push_pull_output();
    let o2 = Pin::new().into_push_pull_output();
    let ol1 = {
        let mut pin = Pin::new().into_push_pull_output();
        pin.set_low().ok().unwrap();
        pin
    };
    let ol2 = {
        let mut pin = Pin::new().into_push_pull_output();
        pin.set_low().ok().unwrap();
        pin
    };
    let oh1 = {
        let mut pin = Pin::new().into_push_pull_output();
        pin.set_high().ok().unwrap();
        pin
    };
    let oh2 = {
        let mut pin = Pin::new().into_push_pull_output();
        pin.set_high().ok().unwrap();
        pin
    };
    let _ = s1.into_mode::<rp2040_hal::gpio::FunctionSpi>();
    let _ = s2.into_mode::<rp2040_hal::gpio::FunctionSpi>();
    dd1.into_pull_down_disabled();
    dd2.into_pull_down_disabled();
    du1.into_pull_up_disabled();
    du2.into_pull_up_disabled();
    df1.into_floating_disabled();
    df2.into_floating_disabled();

    assert_eq!((id1.mode(), id2.mode()), (Mode::InputPullDown, Mode::InputPullDown));
    assert_eq!((iu1.mode(), iu2.mode()), (Mode::InputPullUp, Mode::InputPullUp));
    assert_eq!((if1.mode(), if2.mode()), (Mode::InputFloating, Mode::InputFloating));
    assert_eq!((o1.mode(), o2.mode()), (Mode::Output, Mode::Output));
    assert_eq!((ol1.mode(), ol2.mode()), (Mode::OutputLow, Mode::OutputLow));
    assert_eq!((oh1.mode(), oh2.mode()), (Mode::OutputHigh, Mode::OutputHigh));
    assert_eq!((s1.mode(), s2.mode()), (Mode::PeripheralFunction, Mode::PeripheralFunction));
    assert_eq!((dd1.mode(), dd2.mode()), (Mode::DisabledPullDown, Mode::DisabledPullDown));
    assert_eq!((du1.mode(), du2.mode()), (Mode::DisabledPullUp, Mode::DisabledPullUp));
    assert_eq!((df1.mode(), df2.mode()), (Mode::DisabledFloating, Mode::DisabledFloating));
}

#[test]
fn new_pin_is_unconfigured_and_healthy() {
    let pin = Pin::new();
    assert_eq!(pin.mode(), Mode::Unconfigured);
    assert!(!pin.is_faulty());
}

#[test]
fn new_faulty_pin_is_unconfigured_and_faulty() {
    let pin = Pin::new_faulty();
    assert_eq!(pin.mode(), Mode::Unconfigured);
    assert!(pin.is_faulty());
}

#[test]
fn set_low_on_fresh_output_succeeds() {
    let mut pin = Pin::new().into_push_pull_output();
    assert_eq!(pin.set_low(), Ok(()));
    assert_eq!(pin.mode(), Mode::OutputLow);
}

#[test]
fn set_high_on_fresh_output_succeeds() {
    let mut pin = Pin::new().into_push_pull_output();
    assert_eq!(pin.set_high(), Ok(()));
    assert_eq!(pin.mode(), Mode::OutputHigh);
}

#[test]
fn set_low_on_faulty_line_is_refused() {
    let mut pin = Pin::new_faulty().into_push_pull_output();
    assert_eq!(pin.set_low(), Err(DriveError));
    assert_eq!(pin.mode(), Mode::Invalid);
    assert!(pin.is_faulty());
}

#[test]
fn set_high_on_faulty_line_is_refused() {
    let mut pin = Pin::new_faulty().into_push_pull_output();
    assert_eq!(pin.set_high(), Err(DriveError));
    assert_eq!(pin.mode(), Mode::Invalid);
}

#[test]
fn set_low_on_pin_that_is_no_output_is_refused() {
    let mut pin = Pin::new();
    assert_eq!(pin.set_low(), Err(DriveError));
    assert_eq!(pin.mode(), Mode::Invalid);

    let mut input = Pin::new().into_pull_up_input();
    assert_eq!(input.set_low(), Err(DriveError));
    assert_eq!(input.mode(), Mode::Invalid);
}

#[test]
fn set_high_on_pin_that_is_no_output_is_refused() {
    let mut pin = Pin::new();
    pin.into_floating_disabled();
    assert_eq!(pin.set_high(), Err(DriveError));
    assert_eq!(pin.mode(), Mode::Invalid);
}

#[test]
fn second_drive_on_driven_output_is_refused() {
    let mut pin = Pin::new().into_push_pull_output();
    assert_eq!(pin.set_low(), Ok(()));
    assert_eq!(pin.set_high(), Err(DriveError));
    assert_eq!(pin.mode(), Mode::Invalid);
}

#[test]
fn transitions_accept_a_pin_in_any_mode() {
    let mut pin = Pin::new().into_push_pull_output();
    let _ = pin.set_low();
    let _ = pin.set_low();
    assert_eq!(pin.mode(), Mode::Invalid);
    let pin = pin.into_floating_input();
    assert_eq!(pin.mode(), Mode::InputFloating);
    let pin = pin.into_pull_down_input().into_pull_up_input();
    assert_eq!(pin.mode(), Mode::InputPullUp);
}

#[test]
fn transitions_keep_the_fault_of_the_line() {
    let mut pin = Pin::new_faulty().into_pull_down_input();
    assert!(pin.is_faulty());
    pin.into_pull_up_disabled();
    assert!(pin.is_faulty());
    let _ = pin.into_mode::<rp2040_hal::gpio::FunctionSpi>();
    assert!(pin.is_faulty());
    assert_eq!(pin.mode(), Mode::PeripheralFunction);
}

#[test]
fn borrowed_transitions_hand_back_the_same_pin() {
    let mut pin = Pin::new();
    let again = pin.into_pull_down_disabled();
    assert_eq!(again.mode(), Mode::DisabledPullDown);
    again.into_floating_disabled();
    assert_eq!(pin.mode(), Mode::DisabledFloating);
}
