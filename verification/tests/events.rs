use analog_comparator::arbiter::{AnalogComparator, Channel, Comparator};
use analog_comparator::grant::GrantStore;
use analog_comparator::syscall::{CommandReturn, ErrorCode};
use analog_comparator::upcall::{Scheduled, Upcall};

/// A hardware collaborator whose answers are fixed: comparisons read low and
/// the continuous operations always succeed.
struct QuietHardware;

impl Comparator for QuietHardware {
    fn comparison(&self, _channel: &Channel) -> bool {
        false
    }

    fn start_comparing(&self, _channel: &Channel) -> Result<(), ErrorCode> {
        Ok(())
    }

    fn stop_comparing(&self, _channel: &Channel) -> Result<(), ErrorCode> {
        Ok(())
    }
}

fn arbiter(num_channels: usize, processes: &[u32]) -> AnalogComparator<QuietHardware> {
    let mut channels = Vec::new();
    for id in 0..num_channels {
        channels.push(Channel { id });
    }
    let mut store = GrantStore::new();
    for &pid in processes {
        store.add_process(pid);
    }
    AnalogComparator::new(QuietHardware, channels, store)
}

const PROC_A: u32 = 1;
const PROC_B: u32 = 2;

#[test]
fn subscribe_slot_zero_swaps_callback() {
    let mut ac = arbiter(2, &[PROC_A]);
    // The first registration hands back the inert default descriptor.
    assert_eq!(ac.subscribe(0, Upcall { id: 5 }, PROC_A), Ok(Upcall { id: 0 }));
    // A later registration hands back the one it replaces.
    assert_eq!(ac.subscribe(0, Upcall { id: 9 }, PROC_A), Ok(Upcall { id: 5 }));
}

#[test]
fn subscribe_other_slot_fails_unsupported_and_leaves_callback() {
    let mut ac = arbiter(2, &[PROC_A]);
    assert_eq!(ac.subscribe(0, Upcall { id: 5 }, PROC_A), Ok(Upcall { id: 0 }));
    // Slot 1 is rejected and the new descriptor comes back unconsumed.
    assert_eq!(
        ac.subscribe(1, Upcall { id: 8 }, PROC_A),
        Err((Upcall { id: 8 }, ErrorCode::Unsupported))
    );
    // The stored callback is untouched: the next swap still returns id 5.
    assert_eq!(ac.subscribe(0, Upcall { id: 9 }, PROC_A), Ok(Upcall { id: 5 }));
}

#[test]
fn subscribe_unreachable_process_fails_no_memory() {
    let mut ac = arbiter(2, &[PROC_A]);
    assert_eq!(
        ac.subscribe(0, Upcall { id: 5 }, PROC_B),
        Err((Upcall { id: 5 }, ErrorCode::NoMemory))
    );
}

#[test]
fn fired_without_owner_is_dropped() {
    let mut ac = arbiter(2, &[PROC_A]);
    assert_eq!(ac.fired(0), None);
}

#[test]
fn fired_schedules_owner_callback_and_consumes_token() {
    let mut ac = arbiter(2, &[PROC_A]);
    assert_eq!(ac.subscribe(0, Upcall { id: 5 }, PROC_A), Ok(Upcall { id: 0 }));
    assert_eq!(ac.command(2, 1, 0, PROC_A), CommandReturn::Success);
    assert_eq!(
        ac.fired(1),
        Some(Scheduled { callback: Upcall { id: 5 }, arg0: 1, arg1: 0, arg2: 0 })
    );
    // The token was consumed with the event: a second event has no listener.
    assert_eq!(ac.fired(1), None);
}

#[test]
fn fired_with_unreachable_owner_is_dropped() {
    let mut ac = arbiter(2, &[PROC_A]);
    assert_eq!(ac.subscribe(0, Upcall { id: 5 }, PROC_A), Ok(Upcall { id: 0 }));
    assert_eq!(ac.command(2, 0, 0, PROC_A), CommandReturn::Success);
    ac.remove_process(PROC_A);
    // The owner's record is gone; the event is swallowed silently.
    assert_eq!(ac.fired(0), None);
}

#[test]
fn end_to_end_two_channels() {
    let mut ac = arbiter(2, &[PROC_A, PROC_B]);
    assert_eq!(ac.subscribe(0, Upcall { id: 7 }, PROC_A), Ok(Upcall { id: 0 }));
    assert_eq!(ac.subscribe(0, Upcall { id: 9 }, PROC_B), Ok(Upcall { id: 0 }));
    // A performs a single comparison on channel 0 and becomes owner.
    let r = ac.command(1, 0, 0, PROC_A);
    assert!(r == CommandReturn::SuccessU32(0) || r == CommandReturn::SuccessU32(1));
    // B is rejected on the same channel.
    assert_eq!(
        ac.command(1, 0, 0, PROC_B),
        CommandReturn::Failure(ErrorCode::ResourceBusy)
    );
    // A, still owner, starts continuous comparisons on channel 1.
    assert_eq!(ac.command(2, 1, 0, PROC_A), CommandReturn::Success);
    // Hardware fires on channel 1: A's callback is scheduled with (1, 0, 0);
    // B's callback is not the one handed out.
    let scheduled = ac.fired(1).expect("the owner's callback must be scheduled");
    assert_eq!(scheduled.callback, Upcall { id: 7 });
    assert_ne!(scheduled.callback, Upcall { id: 9 });
    assert_eq!((scheduled.arg0, scheduled.arg1, scheduled.arg2), (1, 0, 0));
}

#[test]
fn readding_live_process_keeps_its_record() {
    let mut ac = arbiter(2, &[PROC_A]);
    assert_eq!(ac.subscribe(0, Upcall { id: 5 }, PROC_A), Ok(Upcall { id: 0 }));
    // A repeated availability notice must not reset the registered callback.
    ac.add_process(PROC_A);
    assert_eq!(ac.subscribe(0, Upcall { id: 9 }, PROC_A), Ok(Upcall { id: 5 }));
}

#[test]
fn default_callback_is_inert_descriptor() {
    let descriptor = Upcall::default();
    assert_eq!(descriptor, Upcall { id: 0 });
    let app = analog_comparator::grant::App::default();
    assert_eq!(app.callback, Upcall { id: 0 });
}
