//! The comparator arbiter: ownership arbitration, command dispatch and event
//! routing for a fixed list of comparator channels.

use vstd::prelude::*;

use crate::grant::{App, GrantStore};
use crate::syscall::{CommandReturn, ErrorCode};
use crate::upcall::{Scheduled, Upcall};

verus! {

/// An opaque handle to one physical comparator unit. Handles are supplied at
/// construction as an ordered list; a command names a channel by its position
/// in that list.
#[derive(Clone, Copy, Debug, PartialEq, Eq, Structural)]
pub struct Channel {
    /// Hardware identifier of the unit, meaningful only to the hardware
    /// collaborator.
    pub id: usize,
}

/// The hardware collaborator: one driver for the physical comparator units,
/// implemented by the platform and handed to the arbiter at construction.
/// Nothing is assumed of the values its operations return; they reflect the
/// electrical state of the hardware and are propagated verbatim.
pub trait Comparator {
    /// Perform one synchronous comparison on the channel and report its
    /// outcome.
    fn comparison(&self, channel: &Channel) -> bool;

    /// Start continuous, interrupt-based comparisons on the channel and
    /// report the hardware status.
    fn start_comparing(&self, channel: &Channel) -> Result<(), ErrorCode>;

    /// Stop continuous comparisons on the channel and report the hardware
    /// status.
    fn stop_comparing(&self, channel: &Channel) -> Result<(), ErrorCode>;
}

/// The abstract state of the arbiter: the channel handles it multiplexes,
/// which process currently holds the peripheral, and the per-process records
/// the store can reach.
pub ghost struct ArbiterView {
    /// The configured channel handles, in the order supplied at construction.
    /// A command names a channel by its position here. Fixed for the lifetime
    /// of the arbiter.
    pub channels: Seq<Channel>,
    /// The ownership token: the process currently permitted to issue
    /// comparator commands, if any.
    pub owner: Option<u32>,
    /// The reachable per-process records, keyed by process identifier.
    pub grants: Map<u32, App>,
}

impl ArbiterView {
    /// Number of configured channels.
    pub open spec fn num_channels(self) -> nat {
        self.channels.len()
    }
}

/// The arbitration rule. A requesting process may proceed when the token is
/// free, when the recorded owner's state record is no longer reachable (the
/// owner was torn down, so the peripheral is implicitly released), or when the
/// requester is the recorded owner itself.
pub open spec fn ownership_is_free(owner: Option<u32>, grants: Map<u32, App>, requester: u32) -> bool {
    match owner {
        Option::None => true,
        Option::Some(current) => !grants.contains_key(current) || current == requester,
    }
}

/// The comparator arbiter. It owns the channel list for the lifetime of the
/// system, holds the single ownership token, and forwards validated commands
/// to the hardware collaborator.
pub struct AnalogComparator<A: Comparator> {
    comparator: A,
    channels: Vec<Channel>,
    grants: GrantStore,
    current_process: Option<u32>,
}

impl<A: Comparator> View for AnalogComparator<A> {
    type V = ArbiterView;

    closed spec fn view(&self) -> ArbiterView {
        ArbiterView {
            channels: self.channels@,
            owner: self.current_process,
            grants: self.grants@,
        }
    }
}

impl<A: Comparator> AnalogComparator<A> {
    /// The channel count fits the 32-bit field it is reported through.
    pub open spec fn wf(&self) -> bool {
        self@.num_channels() <= u32::MAX
    }

    /// Build an arbiter over the given hardware driver, channel list and
    /// per-process state store. The peripheral starts free.
    pub fn new(comparator: A, channels: Vec<Channel>, grant: GrantStore) -> (r: AnalogComparator<A>)
        requires
            channels@.len() <= u32::MAX,
        ensures
            r.wf(),
            r@.channels == channels@,
            r@.owner is None,
            r@.grants == grant@,
    {
        AnalogComparator { comparator, channels, grants: grant, current_process: None }
    }

    /// Report the number of configured channels. Succeeds unconditionally,
    /// whatever the ownership state, so a process can discover capability
    /// before attempting to claim the peripheral.
    pub fn driver_check(&self) -> (r: u32)
        requires
            self.wf(),
        ensures
            r == self@.num_channels(),
    {
        self.channels.len() as u32
    }

    /// The channel handle a valid index resolves to: position `channel` of
    /// the list supplied at construction.
    fn resolve_channel(&self, channel: usize) -> (c: Channel)
        requires
            channel < self@.channels.len(),
        ensures
            c == self@.channels[channel as int],
    {
        self.channels[channel]
    }

    /// Resolve the channel index and perform one synchronous comparison on
    /// it, reporting the hardware's boolean outcome. An out-of-range index is
    /// rejected before any hardware access.
    fn comparison(&self, channel: usize) -> (r: Result<bool, ErrorCode>)
        ensures
            channel >= self@.num_channels() ==> r == Err::<bool, ErrorCode>(
                ErrorCode::InvalidArgument,
            ),
            channel < self@.num_channels() ==> r is Ok,
    {
        if channel >= self.channels.len() {
            return Err(ErrorCode::InvalidArgument);
        }
        let chan = self.resolve_channel(channel);
        let result = self.comparator.comparison(&chan);
        Ok(result)
    }

    /// Resolve the channel index and start continuous comparisons on it,
    /// propagating the hardware status verbatim. An out-of-range index is
    /// rejected before any hardware access.
    fn start_comparing(&self, channel: usize) -> (r: Result<(), ErrorCode>)
        ensures
            channel >= self@.num_channels() ==> r == Err::<(), ErrorCode>(
                ErrorCode::InvalidArgument,
            ),
    {
        if channel >= self.channels.len() {
            return Err(ErrorCode::InvalidArgument);
        }
        let chan = self.resolve_channel(channel);
        self.comparator.start_comparing(&chan)
    }

    /// Resolve the channel index and stop continuous comparisons on it,
    /// propagating the hardware status verbatim. An out-of-range index is
    /// rejected before any hardware access.
    fn stop_comparing(&self, channel: usize) -> (r: Result<(), ErrorCode>)
        ensures
            channel >= self@.num_channels() ==> r == Err::<(), ErrorCode>(
                ErrorCode::InvalidArgument,
            ),
    {
        if channel >= self.channels.len() {
            return Err(ErrorCode::InvalidArgument);
        }
        let chan = self.resolve_channel(channel);
        self.comparator.stop_comparing(&chan)
    }

    /// Handle one command request from `process`.
    ///
    /// Command 0 reports the channel count unconditionally. Every other
    /// command is first arbitrated: a free peripheral is claimed (or
    /// re-affirmed) for the requester, a busy one fails the whole request
    /// with `ResourceBusy` before any hardware access. For an admitted
    /// requester the channel index is validated and the command dispatched:
    /// command 1 is a single comparison whose boolean outcome is reported as
    /// 0 or 1, commands 2 and 3 start and stop continuous comparisons and
    /// propagate the hardware status, and any other code fails with
    /// `Unsupported`.
    pub fn command(&mut self, command_num: usize, channel: usize, _reserved: usize, process: u32) -> (r:
        CommandReturn)
        requires
            old(self).wf(),
        ensures
            final(self).wf(),
            final(self)@.channels == old(self)@.channels,
            final(self)@.grants == old(self)@.grants,
            command_num == 0 ==> {
                &&& r == CommandReturn::SuccessU32(old(self)@.num_channels() as u32)
                &&& final(self)@ == old(self)@
            },
            command_num != 0 && !ownership_is_free(old(self)@.owner, old(self)@.grants, process) ==> {
                &&& r == CommandReturn::Failure(ErrorCode::ResourceBusy)
                &&& final(self)@ == old(self)@
            },
            command_num != 0 && ownership_is_free(old(self)@.owner, old(self)@.grants, process)
                ==> final(self)@.owner == Some(process),
            (command_num == 1 || command_num == 2 || command_num == 3) && ownership_is_free(
                old(self)@.owner,
                old(self)@.grants,
                process,
            ) && channel >= old(self)@.num_channels() ==> r == CommandReturn::Failure(
                ErrorCode::InvalidArgument,
            ),
            command_num == 1 && ownership_is_free(old(self)@.owner, old(self)@.grants, process)
                && channel < old(self)@.num_channels() ==> (r == CommandReturn::SuccessU32(0)
                || r == CommandReturn::SuccessU32(1)),
            (command_num == 2 || command_num == 3) && ownership_is_free(
                old(self)@.owner,
                old(self)@.grants,
                process,
            ) && channel < old(self)@.num_channels() ==> (r is Success || r is Failure),
            command_num > 3 && ownership_is_free(old(self)@.owner, old(self)@.grants, process)
                ==> r == CommandReturn::Failure(ErrorCode::Unsupported),
    {
        if command_num == 0 {
            // Returned unconditionally, before any arbitration.
            return CommandReturn::SuccessU32(self.channels.len() as u32);
        }
        // Free, dedicated to this process already, or held by a process
        // whose state record is no longer reachable.
        let free = match self.current_process {
            None => true,
            Some(current) => {
                if self.grants.can_enter(current) {
                    current == process
                } else {
                    true
                }
            }
        };
        if free {
            self.current_process = Some(process);
        } else {
            return CommandReturn::Failure(ErrorCode::ResourceBusy);
        }
        match command_num {
            1 => match self.comparison(channel) {
                Ok(b) => CommandReturn::SuccessU32(if b { 1 } else { 0 }),
                Err(e) => CommandReturn::Failure(e),
            },
            2 => match self.start_comparing(channel) {
                Ok(()) => CommandReturn::Success,
                Err(e) => CommandReturn::Failure(e),
            },
            3 => match self.stop_comparing(channel) {
                Ok(()) => CommandReturn::Success,
                Err(e) => CommandReturn::Failure(e),
            },
            _ => CommandReturn::Failure(ErrorCode::Unsupported),
        }
    }

    /// Register `callback` for `app_id` on a subscription slot.
    ///
    /// Only slot 0, the "comparator fired" slot, is valid: there the new
    /// callback atomically replaces the stored one and the previous
    /// descriptor is handed back so the runtime can retire it. Any other
    /// slot fails with `Unsupported`, and an unreachable state record fails
    /// with `NoMemory`; in both cases the stored state is untouched and the
    /// new callback is returned unconsumed inside the error.
    pub fn subscribe(&mut self, subscribe_num: usize, callback: Upcall, app_id: u32) -> (r: Result<
        Upcall,
        (Upcall, ErrorCode),
    >)
        ensures
            final(self)@.channels == old(self)@.channels,
            final(self)@.owner == old(self)@.owner,
            subscribe_num != 0 ==> {
                &&& r == Err::<Upcall, (Upcall, ErrorCode)>((callback, ErrorCode::Unsupported))
                &&& final(self)@ == old(self)@
            },
            subscribe_num == 0 && old(self)@.grants.contains_key(app_id) ==> {
                &&& r == Ok::<Upcall, (Upcall, ErrorCode)>(old(self)@.grants[app_id].callback)
                &&& final(self)@.grants == old(self)@.grants.insert(app_id, (App { callback }))
            },
            subscribe_num == 0 && !old(self)@.grants.contains_key(app_id) ==> {
                &&& r == Err::<Upcall, (Upcall, ErrorCode)>((callback, ErrorCode::NoMemory))
                &&& final(self)@ == old(self)@
            },
    {
        match subscribe_num {
            0 => match self.grants.swap_callback(app_id, callback) {
                Some(previous) => Ok(previous),
                None => Err((callback, ErrorCode::NoMemory)),
            },
            _ => Err((callback, ErrorCode::Unsupported)),
        }
    }

    /// Deliver the hardware's "comparator fired" event for `channel`.
    ///
    /// The ownership token is consumed by the lookup: after the event the
    /// peripheral is free. If a process was recorded as owner and its state
    /// record is reachable, its registered callback is handed back for the
    /// host scheduler to invoke with the triggering channel index and two
    /// reserved zero arguments. With no owner, or with the owner's record
    /// unreachable, the event is silently dropped: a fired event with no
    /// listener is not an error condition.
    pub fn fired(&mut self, channel: usize) -> (r: Option<Scheduled>)
        ensures
            final(self)@.channels == old(self)@.channels,
            final(self)@.grants == old(self)@.grants,
            final(self)@.owner is None,
            match old(self)@.owner {
                Option::Some(p) => {
                    &&& old(self)@.grants.contains_key(p) ==> r == Some(
                        (Scheduled {
                            callback: old(self)@.grants[p].callback,
                            arg0: channel,
                            arg1: 0,
                            arg2: 0,
                        }),
                    )
                    &&& !old(self)@.grants.contains_key(p) ==> r is None
                },
                Option::None => r is None,
            },
    {
        match self.current_process {
            Some(appid) => {
                self.current_process = None;
                match self.grants.get_app(appid) {
                    Some(app) => Some(
                        Scheduled { callback: app.callback, arg0: channel, arg1: 0, arg2: 0 },
                    ),
                    None => None,
                }
            }
            None => None,
        }
    }

    /// Forwarded notice from the host kernel that `pid`'s grant region is
    /// available (see [`GrantStore::add_process`]).
    pub fn add_process(&mut self, pid: u32)
        ensures
            final(self)@.channels == old(self)@.channels,
            final(self)@.owner == old(self)@.owner,
            old(self)@.grants.contains_key(pid) ==> final(self)@.grants == old(self)@.grants,
            !old(self)@.grants.contains_key(pid) ==> final(self)@.grants == old(
                self,
            )@.grants.insert(pid, App::inert()),
    {
        self.grants.add_process(pid);
    }

    /// Forwarded notice from the host kernel that `pid` was torn down and its
    /// grant region reclaimed (see [`GrantStore::remove_process`]). A stale
    /// ownership token naming `pid` is left in place; once the record is
    /// gone, arbitration treats the peripheral as free.
    pub fn remove_process(&mut self, pid: u32)
        ensures
            final(self)@.channels == old(self)@.channels,
            final(self)@.owner == old(self)@.owner,
            final(self)@.grants == old(self)@.grants.remove(pid),
    {
        self.grants.remove_process(pid);
    }
}

/// Exclusion: while a process holds the token and its state record remains
/// reachable, every other process is turned away busy — a second process is
/// rejected, not queued.
pub proof fn lemma_owner_excludes_others(
    owner: Option<u32>,
    grants: Map<u32, App>,
    p: u32,
    q: u32,
)
    requires
        owner == Some(p),
        grants.contains_key(p),
        p != q,
    ensures
        !ownership_is_free(owner, grants, q),
{
}

/// Self-exemption: the recorded owner is always admitted, whatever the state
/// store holds, so it can issue a whole sequence of commands without an
/// explicit release.
pub proof fn lemma_owner_admits_itself(owner: Option<u32>, grants: Map<u32, App>, p: u32)
    requires
        owner == Some(p),
    ensures
        ownership_is_free(owner, grants, p),
{
}

/// A free token admits any process.
pub proof fn lemma_free_token_admits_any(owner: Option<u32>, grants: Map<u32, App>, q: u32)
    requires
        owner is None,
    ensures
        ownership_is_free(owner, grants, q),
{
}

/// Implicit release: once the recorded owner's state record is unreachable,
/// any process is admitted, though the stale token is still in place.
pub proof fn lemma_teardown_admits_any(
    owner: Option<u32>,
    grants: Map<u32, App>,
    p: u32,
    q: u32,
)
    requires
        owner == Some(p),
        !grants.contains_key(p),
    ensures
        ownership_is_free(owner, grants, q),
{
}

} // verus!
