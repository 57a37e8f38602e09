use tpt_zero_formal::fsm::{Event, Invariant, Machine, State, Transition};

#[derive(Debug)]
struct Locked;
#[derive(Debug)]
struct Unlocked;
impl State for Locked {}
impl State for Unlocked {}

struct Unlock;
struct Lock;
impl Event for Unlock {}
impl Event for Lock {}

// The transition table: Locked --unlock--> Unlocked --lock--> Locked.
impl Transition<Locked, Unlock> for () {
    type To = Unlocked;
}
impl Transition<Unlocked, Lock> for () {
    type To = Locked;
}

#[test]
fn machine_is_zero_sized() {
    assert_eq!(core::mem::size_of::<Machine<Locked>>(), 0);
}

#[test]
fn round_trip_transitions() {
    let m = Machine::<Locked>::new();
    let m: Machine<Unlocked> = m.transition::<Unlock, ()>();
    let _m: Machine<Locked> = m.transition::<Lock, ()>();
}

#[test]
fn machine_invariant_holds() {
    let m = Machine::<Locked>::new();
    assert!(m.check());
}

#[test]
fn machine_is_copy() {
    let m = Machine::<Locked>::new();
    let copy = m;
    // `m` is still usable after the copy because `Machine` is `Copy`.
    assert!(copy.check());
    assert!(m.check());
}

#[test]
fn machine_debug_uses_writer() {
    let m = Machine::<Locked>::new();
    let written = format!("{m:?}");
    assert!(written.contains("Machine"));
}

#[test]
fn machine_is_zero_sized_across_states() {
    assert_eq!(std::mem::size_of::<Machine<Locked>>(), 0);
    assert_eq!(std::mem::size_of::<Machine<Unlocked>>(), 0);
}

#[test]
fn many_cycles_stay_well_formed() {
    let mut locked = Machine::<Locked>::new();
    for _ in 0..1_000 {
        let unlocked = locked.transition::<Unlock, ()>();
        assert!(unlocked.check());
        locked = unlocked.transition::<Lock, ()>();
        assert!(locked.check());
    }
}

#[test]
fn turnstile_transitions_keep_the_invariant() {
    let m = Machine::<Locked>::new();
    let m: Machine<Unlocked> = m.transition::<Unlock, ()>();
    // The invariant check, as the invariant macro would run it.
    assert!(m.check());
    let m: Machine<Locked> = m.transition::<Lock, ()>();
    assert!(m.check());
}
