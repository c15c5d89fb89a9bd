use pio_engine::program::InstalledProgram;
use pio_engine::state_machine::{Error, State, StateMachine};

fn blink() -> pio::Program<32> {
    let mut assembler = pio::Assembler::<32>::new();
    assembler.set(pio::SetDestination::PINS, 1);
    assembler.set(pio::SetDestination::PINS, 0);
    assembler.assemble_program()
}

#[test]
fn new_state_machine_is_uninitialized() {
    let sm = StateMachine::<0, 0>::new();
    assert_eq!(sm.state(), State::Uninitialized);
    assert!(!sm.is_initialized());
    assert!(!sm.is_running());
    assert_eq!(sm.pins(), None);
    assert_eq!(sm.clock_divisor(), None);
}

#[test]
fn program_binds_and_stops() {
    let installed = InstalledProgram::new(blink());
    let mut sm = StateMachine::<1, 2>::new();
    let (rx, tx) = sm.program(&installed, (7, 3), (125, 64)).unwrap();
    assert_eq!(sm.state(), State::Stopped);
    assert!(sm.is_initialized());
    assert!(!sm.is_running());
    assert_eq!(sm.pins(), Some((7, 3)));
    assert_eq!(sm.clock_divisor(), Some((125, 64)));
    assert_eq!((rx.block(), rx.slot()), (1, 2));
    assert_eq!((tx.block(), tx.slot()), (1, 2));
}

#[test]
fn program_fails_when_stopped() {
    let installed = InstalledProgram::new(blink());
    let mut sm = StateMachine::<0, 1>::new();
    let _channels = sm.program(&installed, (2, 1), (5, 1)).unwrap();
    let again = sm.program(&installed, (9, 2), (6, 0));
    assert!(matches!(again, Err(Error::ProgrammingFailed)));
    assert_eq!(sm.state(), State::Stopped);
    assert_eq!(sm.pins(), Some((2, 1)));
    assert_eq!(sm.clock_divisor(), Some((5, 1)));
}

#[test]
fn program_fails_when_running() {
    let installed = InstalledProgram::new(blink());
    let mut sm = StateMachine::<0, 1>::new();
    let _channels = sm.program(&installed, (2, 1), (5, 1)).unwrap();
    sm.start().unwrap();
    let again = sm.program(&installed, (9, 2), (6, 0));
    assert!(matches!(again, Err(Error::ProgrammingFailed)));
    assert_eq!(sm.state(), State::Running);
    assert_eq!(sm.pins(), Some((2, 1)));
}

#[test]
fn start_and_stop_alternate() {
    let installed = InstalledProgram::new(blink());
    let mut sm = StateMachine::<0, 3>::new();
    let _channels = sm.program(&installed, (2, 1), (5, 1)).unwrap();
    assert_eq!(sm.start(), Ok(()));
    assert_eq!(sm.state(), State::Running);
    assert!(sm.is_running());
    assert_eq!(sm.stop(), Ok(()));
    assert_eq!(sm.state(), State::Stopped);
    assert_eq!(sm.start(), Ok(()));
    assert_eq!(sm.state(), State::Running);
    assert_eq!(sm.pins(), Some((2, 1)));
    assert_eq!(sm.clock_divisor(), Some((5, 1)));
}

#[test]
fn start_fails_unless_stopped() {
    let installed = InstalledProgram::new(blink());
    let mut sm = StateMachine::<0, 0>::new();
    assert_eq!(sm.start(), Err(Error::FailedToStart));
    assert_eq!(sm.state(), State::Uninitialized);
    let _channels = sm.program(&installed, (2, 1), (5, 1)).unwrap();
    sm.start().unwrap();
    assert_eq!(sm.start(), Err(Error::FailedToStart));
    assert_eq!(sm.state(), State::Running);
}

#[test]
fn stop_fails_unless_running() {
    let installed = InstalledProgram::new(blink());
    let mut sm = StateMachine::<0, 0>::new();
    assert_eq!(sm.stop(), Err(Error::FailedToStop));
    assert_eq!(sm.state(), State::Uninitialized);
    let _channels = sm.program(&installed, (2, 1), (5, 1)).unwrap();
    assert_eq!(sm.stop(), Err(Error::FailedToStop));
    assert_eq!(sm.state(), State::Stopped);
}

#[test]
fn uninstall_from_stopped() {
    let installed = InstalledProgram::new(blink());
    let mut sm = StateMachine::<1, 0>::new();
    let (rx, tx) = sm.program(&installed, (2, 1), (5, 1)).unwrap();
    assert_eq!(sm.uninstall(rx, tx), Ok(()));
    assert_eq!(sm.state(), State::Uninitialized);
    assert_eq!(sm.pins(), None);
    assert_eq!(sm.clock_divisor(), None);
}

#[test]
fn uninstall_stops_a_running_state_machine() {
    let installed = InstalledProgram::new(blink());
    let mut sm = StateMachine::<1, 0>::new();
    let (rx, tx) = sm.program(&installed, (2, 1), (5, 1)).unwrap();
    sm.start().unwrap();
    assert_eq!(sm.uninstall(rx, tx), Ok(()));
    assert_eq!(sm.state(), State::Uninitialized);
    assert!(!sm.is_running());
}

#[test]
fn uninstall_without_program_fails() {
    let installed = InstalledProgram::new(blink());
    let mut bound = StateMachine::<0, 2>::new();
    let (rx, tx) = bound.program(&installed, (2, 1), (5, 1)).unwrap();
    let mut twin = StateMachine::<0, 2>::new();
    assert_eq!(twin.uninstall(rx, tx), Err(Error::NoProgramToUninstall));
    assert_eq!(twin.state(), State::Uninitialized);
}

#[test]
fn uninstall_with_channels_of_another_state_machine_fails() {
    let installed = InstalledProgram::new(blink());
    let mut first = StateMachine::<0, 0>::new();
    let mut second = StateMachine::<0, 1>::new();
    let (rx0, tx0) = first.program(&installed, (2, 1), (5, 1)).unwrap();
    let (rx1, tx1) = second.program(&installed, (3, 1), (10, 0)).unwrap();
    second.start().unwrap();
    assert_eq!(second.uninstall(rx0, tx1), Err(Error::NoProgramToUninstall));
    assert_eq!(second.state(), State::Running);
    assert_eq!(first.uninstall(rx1, tx0), Err(Error::NoProgramToUninstall));
    assert_eq!(first.state(), State::Stopped);
}

#[test]
fn program_again_after_uninstall() {
    let installed = InstalledProgram::new(blink());
    let mut sm = StateMachine::<0, 0>::new();
    let (rx, tx) = sm.program(&installed, (2, 1), (5, 1)).unwrap();
    sm.uninstall(rx, tx).unwrap();
    let (rx, tx) = sm.program(&installed, (4, 2), (1, 128)).unwrap();
    assert_eq!(sm.state(), State::Stopped);
    assert_eq!(sm.pins(), Some((4, 2)));
    assert_eq!(sm.clock_divisor(), Some((1, 128)));
    assert_eq!((rx.block(), rx.slot(), tx.block(), tx.slot()), (0, 0, 0, 0));
}

#[test]
fn shared_handles_show_one_image() {
    let installed = InstalledProgram::new(blink());
    let shared = installed.share();
    assert_eq!(installed.image().code.as_slice(), blink().code.as_slice());
    assert_eq!(shared.image().code.as_slice(), installed.image().code.as_slice());
    assert!(std::ptr::eq(shared.image(), installed.image()));
    assert_eq!(shared.image().code.len(), 2);
}

#[test]
fn a_programmed_state_machine_holds_the_installed_image() {
    let installed = InstalledProgram::new(blink());
    let mut sm = StateMachine::<0, 0>::new();
    assert!(sm.installed().is_none());
    let (rx, tx) = sm.program(&installed, (2, 1), (5, 1)).unwrap();
    assert!(std::ptr::eq(sm.installed().unwrap().image(), installed.image()));
    sm.start().unwrap();
    assert!(std::ptr::eq(sm.installed().unwrap().image(), installed.image()));
    sm.uninstall(rx, tx).unwrap();
    assert!(sm.installed().is_none());
}
