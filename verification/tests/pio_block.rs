use pio_engine::pio::{Error, Pio};
use pio_engine::state_machine;
use pio_engine::state_machine::State;

fn blink() -> pio::Program<32> {
    let mut assembler = pio::Assembler::<32>::new();
    assembler.set(pio::SetDestination::PINS, 1);
    assembler.set(pio::SetDestination::PINS, 0);
    assembler.assemble_program()
}

fn states<const BLOCK: u8>(pio: &Pio<BLOCK>) -> Vec<State> {
    vec![
        pio.state(0).unwrap(),
        pio.state(1).unwrap(),
        pio.state(2).unwrap(),
        pio.state(3).unwrap(),
    ]
}

#[test]
fn new_block_is_idle() {
    let pio = Pio::<0>::new();
    assert_eq!(states(&pio), vec![State::Uninitialized; 4]);
    assert!(!pio.in_use());
    assert_eq!(pio.state(4), None);
    assert_eq!(pio.pins(0), None);
    assert_eq!(pio.clock_divisor(0), None);
}

#[test]
fn install_two_of_four_then_run_and_uninstall() {
    let mut pio = Pio::<0>::new();
    let channels = pio
        .install_program(
            blink(),
            2,
            (Some((2, 1)), Some((3, 1)), None, None),
            (Some((5, 1)), Some((10, 0)), None, None),
        )
        .unwrap();
    assert!(channels.0.is_some());
    assert!(channels.1.is_some());
    assert!(channels.2.is_none());
    assert!(channels.3.is_none());
    assert!(pio.in_use());
    assert_eq!(
        states(&pio),
        vec![State::Stopped, State::Stopped, State::Uninitialized, State::Uninitialized]
    );

    assert_eq!(pio.start(), Ok(()));
    assert_eq!(
        states(&pio),
        vec![State::Running, State::Running, State::Uninitialized, State::Uninitialized]
    );

    assert_eq!(pio.stop(), Ok(()));
    assert_eq!(
        states(&pio),
        vec![State::Stopped, State::Stopped, State::Uninitialized, State::Uninitialized]
    );

    assert_eq!(pio.unininstall_program(channels), Ok(()));
    assert_eq!(states(&pio), vec![State::Uninitialized; 4]);
    assert!(!pio.in_use());
}

#[test]
fn install_hands_out_channels_in_place() {
    let mut pio = Pio::<1>::new();
    let channels = pio
        .install_program(
            blink(),
            3,
            (Some((0, 1)), Some((1, 2)), Some((3, 4)), None),
            (Some((1, 0)), Some((2, 3)), Some((65535, 255)), None),
        )
        .unwrap();
    let (rx, tx) = channels.0.unwrap();
    assert_eq!((rx.block(), rx.slot(), tx.block(), tx.slot()), (1, 0, 1, 0));
    let (rx, tx) = channels.1.unwrap();
    assert_eq!((rx.block(), rx.slot(), tx.block(), tx.slot()), (1, 1, 1, 1));
    let (rx, tx) = channels.2.unwrap();
    assert_eq!((rx.block(), rx.slot(), tx.block(), tx.slot()), (1, 2, 1, 2));
    assert!(channels.3.is_none());
}

#[test]
fn install_binds_each_state_machine_to_its_entries() {
    let mut pio = Pio::<0>::new();
    let _channels = pio
        .install_program(
            blink(),
            4,
            (Some((0, 1)), Some((1, 2)), Some((3, 4)), Some((29, 1))),
            (Some((1, 0)), Some((2, 3)), Some((65535, 255)), Some((0, 0))),
        )
        .unwrap();
    assert_eq!(states(&pio), vec![State::Stopped; 4]);
    assert_eq!(pio.pins(0), Some((0, 1)));
    assert_eq!(pio.pins(1), Some((1, 2)));
    assert_eq!(pio.pins(2), Some((3, 4)));
    assert_eq!(pio.pins(3), Some((29, 1)));
    assert_eq!(pio.pins(4), None);
    assert_eq!(pio.clock_divisor(0), Some((1, 0)));
    assert_eq!(pio.clock_divisor(1), Some((2, 3)));
    assert_eq!(pio.clock_divisor(2), Some((65535, 255)));
    assert_eq!(pio.clock_divisor(3), Some((0, 0)));
    assert_eq!(pio.clock_divisor(4), None);
}

#[test]
fn install_ignores_entries_past_the_count() {
    let mut pio = Pio::<0>::new();
    let channels = pio
        .install_program(
            blink(),
            1,
            (Some((2, 1)), Some((3, 1)), Some((4, 1)), None),
            (Some((5, 1)), None, Some((7, 0)), Some((8, 0))),
        )
        .unwrap();
    assert!(channels.0.is_some());
    assert!(channels.1.is_none());
    assert!(channels.2.is_none());
    assert!(channels.3.is_none());
    assert_eq!(
        states(&pio),
        vec![State::Stopped, State::Uninitialized, State::Uninitialized, State::Uninitialized]
    );
    assert_eq!(pio.pins(1), None);
}

#[test]
fn install_on_no_state_machine_changes_nothing() {
    let mut pio = Pio::<0>::new();
    let channels = pio
        .install_program(blink(), 0, (None, None, None, None), (None, None, None, None))
        .unwrap();
    assert!(channels.0.is_none() && channels.1.is_none());
    assert!(channels.2.is_none() && channels.3.is_none());
    assert_eq!(states(&pio), vec![State::Uninitialized; 4]);
    assert!(!pio.in_use());
    assert_eq!(pio.unininstall_program(channels), Ok(()));
}

#[test]
fn install_on_more_than_four_fails() {
    let mut pio = Pio::<0>::new();
    let r = pio.install_program(
        blink(),
        5,
        (Some((2, 1)), Some((3, 1)), Some((4, 1)), Some((5, 1))),
        (Some((5, 1)), Some((10, 0)), Some((1, 0)), Some((1, 0))),
    );
    assert_eq!(r.unwrap_err(), Error::TooManyStateMachinesRequested);
    assert_eq!(states(&pio), vec![State::Uninitialized; 4]);
    assert!(!pio.in_use());
    let r = pio.install_program(
        blink(),
        usize::MAX,
        (None, None, None, None),
        (None, None, None, None),
    );
    assert_eq!(r.unwrap_err(), Error::TooManyStateMachinesRequested);
}

#[test]
fn too_many_wins_over_missing_entries() {
    let mut pio = Pio::<1>::new();
    let r = pio.install_program(blink(), 5, (None, None, None, None), (None, None, None, None));
    assert_eq!(r.unwrap_err(), Error::TooManyStateMachinesRequested);
}

#[test]
fn install_with_a_missing_pin_entry_fails_and_binds_nothing() {
    let mut pio = Pio::<0>::new();
    let r = pio.install_program(
        blink(),
        2,
        (Some((2, 1)), None, None, None),
        (Some((5, 1)), Some((10, 0)), None, None),
    );
    assert_eq!(r.unwrap_err(), Error::BadStateMachineProgramming);
    assert_eq!(states(&pio), vec![State::Uninitialized; 4]);
    assert!(!pio.in_use());
}

#[test]
fn install_with_a_missing_clock_entry_fails_and_binds_nothing() {
    let mut pio = Pio::<0>::new();
    let r = pio.install_program(
        blink(),
        4,
        (Some((2, 1)), Some((3, 1)), Some((4, 1)), Some((5, 1))),
        (Some((5, 1)), Some((10, 0)), Some((1, 0)), None),
    );
    assert_eq!(r.unwrap_err(), Error::BadStateMachineProgramming);
    assert_eq!(states(&pio), vec![State::Uninitialized; 4]);
    assert!(!pio.in_use());
    assert_eq!(pio.pins(0), None);
}

#[test]
fn install_on_a_bound_state_machine_fails_and_changes_nothing() {
    let mut pio = Pio::<0>::new();
    let _channels = pio
        .install_program(blink(), 1, (Some((2, 1)), None, None, None), (Some((5, 1)), None, None, None))
        .unwrap();
    pio.start().unwrap();
    let r = pio.install_program(
        blink(),
        2,
        (Some((8, 1)), Some((9, 1)), None, None),
        (Some((3, 0)), Some((4, 0)), None, None),
    );
    assert_eq!(r.unwrap_err(), Error::BadStateMachineProgramming);
    assert_eq!(
        states(&pio),
        vec![State::Running, State::Uninitialized, State::Uninitialized, State::Uninitialized]
    );
    assert_eq!(pio.pins(0), Some((2, 1)));
    assert_eq!(pio.clock_divisor(0), Some((5, 1)));
}

#[test]
fn start_on_an_idle_block_does_nothing() {
    let mut pio = Pio::<1>::new();
    assert_eq!(pio.start(), Ok(()));
    assert_eq!(states(&pio), vec![State::Uninitialized; 4]);
    assert_eq!(pio.stop(), Ok(()));
    assert_eq!(states(&pio), vec![State::Uninitialized; 4]);
}

#[test]
fn start_on_a_running_block_fails() {
    let mut pio = Pio::<0>::new();
    let _channels = pio
        .install_program(
            blink(),
            2,
            (Some((2, 1)), Some((3, 1)), None, None),
            (Some((5, 1)), Some((10, 0)), None, None),
        )
        .unwrap();
    pio.start().unwrap();
    assert_eq!(pio.start(), Err(state_machine::Error::FailedToStart));
    assert_eq!(
        states(&pio),
        vec![State::Running, State::Running, State::Uninitialized, State::Uninitialized]
    );
}

#[test]
fn stop_on_a_stopped_block_fails() {
    let mut pio = Pio::<0>::new();
    let _channels = pio
        .install_program(
            blink(),
            2,
            (Some((2, 1)), Some((3, 1)), None, None),
            (Some((5, 1)), Some((10, 0)), None, None),
        )
        .unwrap();
    assert_eq!(pio.stop(), Err(state_machine::Error::FailedToStop));
    assert_eq!(
        states(&pio),
        vec![State::Stopped, State::Stopped, State::Uninitialized, State::Uninitialized]
    );
}

#[test]
fn start_ends_at_the_first_running_state_machine() {
    let mut pio = Pio::<0>::new();
    let first = pio
        .install_program(
            blink(),
            3,
            (Some((2, 1)), Some((3, 1)), Some((4, 1)), None),
            (Some((5, 1)), Some((10, 0)), Some((1, 0)), None),
        )
        .unwrap();
    pio.start().unwrap();
    // free state machines 0 and 2, bind them again: 0 and 2 stopped, 1 running
    pio.unininstall_program((first.0, None, first.2, None)).unwrap();
    assert_eq!(
        states(&pio),
        vec![State::Uninitialized, State::Running, State::Uninitialized, State::Uninitialized]
    );
    let _zero = pio
        .install_program(blink(), 1, (Some((2, 1)), None, None, None), (Some((5, 1)), None, None, None))
        .unwrap();
    assert_eq!(pio.start(), Err(state_machine::Error::FailedToStart));
    assert_eq!(
        states(&pio),
        vec![State::Running, State::Running, State::Uninitialized, State::Uninitialized]
    );
}

#[test]
fn stop_ends_at_the_first_stopped_state_machine() {
    let mut pio = Pio::<0>::new();
    let first = pio
        .install_program(
            blink(),
            2,
            (Some((2, 1)), Some((3, 1)), None, None),
            (Some((5, 1)), Some((10, 0)), None, None),
        )
        .unwrap();
    pio.start().unwrap();
    pio.unininstall_program((None, first.1, None, None)).unwrap();
    // state machine 0 runs; 1 is free
    pio.stop().unwrap();
    pio.start().unwrap();
    pio.unininstall_program((first.0, None, None, None)).unwrap();
    let second = pio
        .install_program(
            blink(),
            2,
            (Some((2, 1)), Some((3, 1)), None, None),
            (Some((5, 1)), Some((10, 0)), None, None),
        )
        .unwrap();
    pio.start().unwrap();
    pio.unininstall_program((second.0, None, None, None)).unwrap();
    let _zero = pio
        .install_program(blink(), 1, (Some((2, 1)), None, None, None), (Some((5, 1)), None, None, None))
        .unwrap();
    // state machine 0 is stopped, 1 is running
    assert_eq!(
        states(&pio),
        vec![State::Stopped, State::Running, State::Uninitialized, State::Uninitialized]
    );
    assert_eq!(pio.stop(), Err(state_machine::Error::FailedToStop));
    assert_eq!(
        states(&pio),
        vec![State::Stopped, State::Running, State::Uninitialized, State::Uninitialized]
    );
}

#[test]
fn uninstall_stops_running_state_machines() {
    let mut pio = Pio::<1>::new();
    let channels = pio
        .install_program(
            blink(),
            4,
            (Some((2, 1)), Some((3, 1)), Some((4, 1)), Some((5, 1))),
            (Some((5, 1)), Some((10, 0)), Some((1, 0)), Some((1, 0))),
        )
        .unwrap();
    pio.start().unwrap();
    assert!(pio.in_use());
    assert_eq!(pio.unininstall_program(channels), Ok(()));
    assert_eq!(states(&pio), vec![State::Uninitialized; 4]);
    assert!(!pio.in_use());
}

#[test]
fn uninstall_of_some_channels_keeps_the_block_in_use() {
    let mut pio = Pio::<0>::new();
    let channels = pio
        .install_program(
            blink(),
            2,
            (Some((2, 1)), Some((3, 1)), None, None),
            (Some((5, 1)), Some((10, 0)), None, None),
        )
        .unwrap();
    assert_eq!(pio.unininstall_program((channels.0, None, None, None)), Ok(()));
    assert_eq!(
        states(&pio),
        vec![State::Uninitialized, State::Stopped, State::Uninitialized, State::Uninitialized]
    );
    assert!(pio.in_use());
    assert_eq!(pio.unininstall_program((None, channels.1, None, None)), Ok(()));
    assert!(!pio.in_use());
}

#[test]
fn uninstall_with_channels_of_the_other_block_fails() {
    let mut pio0 = Pio::<0>::new();
    let mut pio1 = Pio::<1>::new();
    let _own = pio0
        .install_program(blink(), 1, (Some((2, 1)), None, None, None), (Some((5, 1)), None, None, None))
        .unwrap();
    let other = pio1
        .install_program(blink(), 1, (Some((2, 1)), None, None, None), (Some((5, 1)), None, None, None))
        .unwrap();
    assert_eq!(
        pio0.unininstall_program(other),
        Err(state_machine::Error::NoProgramToUninstall)
    );
    assert_eq!(pio0.state(0), Some(State::Stopped));
    assert_eq!(pio1.state(0), Some(State::Stopped));
}

#[test]
fn uninstall_with_channels_out_of_place_fails() {
    let mut pio = Pio::<0>::new();
    let channels = pio
        .install_program(
            blink(),
            2,
            (Some((2, 1)), Some((3, 1)), None, None),
            (Some((5, 1)), Some((10, 0)), None, None),
        )
        .unwrap();
    assert_eq!(
        pio.unininstall_program((channels.1, channels.0, None, None)),
        Err(state_machine::Error::NoProgramToUninstall)
    );
    assert_eq!(
        states(&pio),
        vec![State::Stopped, State::Stopped, State::Uninitialized, State::Uninitialized]
    );
}

#[test]
fn uninstall_ends_at_the_first_entry_it_cannot_take() {
    let mut pio = Pio::<0>::new();
    let channels = pio
        .install_program(
            blink(),
            3,
            (Some((2, 1)), Some((3, 1)), Some((4, 1)), None),
            (Some((5, 1)), Some((10, 0)), Some((1, 0)), None),
        )
        .unwrap();
    // the channels of state machine 1 stand in the place of state machine 3
    assert_eq!(
        pio.unininstall_program((channels.0, None, channels.2, channels.1)),
        Err(state_machine::Error::NoProgramToUninstall)
    );
    assert_eq!(
        states(&pio),
        vec![State::Uninitialized, State::Stopped, State::Uninitialized, State::Uninitialized]
    );
    assert!(pio.in_use());
}

#[test]
fn install_again_after_uninstall() {
    let mut pio = Pio::<0>::new();
    let channels = pio
        .install_program(
            blink(),
            2,
            (Some((2, 1)), Some((3, 1)), None, None),
            (Some((5, 1)), Some((10, 0)), None, None),
        )
        .unwrap();
    pio.unininstall_program(channels).unwrap();
    let channels = pio
        .install_program(
            blink(),
            3,
            (Some((6, 2)), Some((8, 2)), Some((10, 2)), None),
            (Some((1, 1)), Some((2, 2)), Some((3, 3)), None),
        )
        .unwrap();
    assert_eq!(
        states(&pio),
        vec![State::Stopped, State::Stopped, State::Stopped, State::Uninitialized]
    );
    assert_eq!(pio.pins(1), Some((8, 2)));
    assert_eq!(pio.clock_divisor(2), Some((3, 3)));
    pio.unininstall_program(channels).unwrap();
    assert!(!pio.in_use());
}

#[test]
fn state_machines_of_one_install_share_one_image() {
    let mut pio = Pio::<0>::new();
    assert!(pio.installed(0).is_none());
    let channels = pio
        .install_program(
            blink(),
            2,
            (Some((2, 1)), Some((3, 1)), None, None),
            (Some((5, 1)), Some((10, 0)), None, None),
        )
        .unwrap();
    let first = pio.installed(0).unwrap().image();
    let second = pio.installed(1).unwrap().image();
    assert!(std::ptr::eq(first, second));
    assert_eq!(first.code.as_slice(), blink().code.as_slice());
    assert!(pio.installed(2).is_none());
    assert!(pio.installed(3).is_none());
    assert!(pio.installed(4).is_none());
    pio.unininstall_program(channels).unwrap();
    assert!(pio.installed(0).is_none());
    assert!(pio.installed(1).is_none());
}

#[test]
fn two_installs_keep_two_images() {
    let mut pio = Pio::<1>::new();
    let first = pio
        .install_program(
            blink(),
            2,
            (Some((2, 1)), Some((3, 1)), None, None),
            (Some((5, 1)), Some((10, 0)), None, None),
        )
        .unwrap();
    pio.unininstall_program((first.0, None, None, None)).unwrap();
    let mut assembler = pio::Assembler::<32>::new();
    assembler.set(pio::SetDestination::X, 3);
    let _second = pio
        .install_program(
            assembler.assemble_program(),
            1,
            (Some((8, 1)), None, None, None),
            (Some((1, 0)), None, None, None),
        )
        .unwrap();
    let zero = pio.installed(0).unwrap().image();
    let one = pio.installed(1).unwrap().image();
    assert!(!std::ptr::eq(zero, one));
    assert_eq!(zero.code.len(), 1);
    assert_eq!(one.code.len(), 2);
    assert_eq!(pio.pins(0), Some((8, 1)));
    assert_eq!(pio.pins(1), Some((3, 1)));
}

#[test]
fn uninstall_undoes_install_beside_a_bound_state_machine() {
    let mut pio = Pio::<0>::new();
    let first = pio
        .install_program(
            blink(),
            2,
            (Some((2, 1)), Some((3, 1)), None, None),
            (Some((5, 1)), Some((10, 0)), None, None),
        )
        .unwrap();
    pio.start().unwrap();
    pio.unininstall_program((first.0, None, None, None)).unwrap();
    let before = states(&pio);
    assert_eq!(
        before,
        vec![State::Uninitialized, State::Running, State::Uninitialized, State::Uninitialized]
    );

    let second = pio
        .install_program(blink(), 1, (Some((8, 2)), None, None, None), (Some((7, 7)), None, None, None))
        .unwrap();
    assert_eq!(pio.state(0), Some(State::Stopped));
    assert_eq!(pio.unininstall_program(second), Ok(()));

    assert_eq!(states(&pio), before);
    assert!(pio.installed(0).is_none());
    assert_eq!(pio.pins(0), None);
    assert_eq!(pio.pins(1), Some((3, 1)));
    assert_eq!(pio.clock_divisor(1), Some((10, 0)));
    assert!(pio.in_use());
}
