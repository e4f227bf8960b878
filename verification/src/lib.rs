//! Typed projection of local service objects onto an inter-process message
//! bus.
//!
//! The crate provides the pieces that let a process expose its service
//! objects over a bus and call methods on service objects owned by other
//! processes, without writing wire-protocol code by hand:
//!
//! - value marshaling between native types and self-describing wire values
//!   ([`wire`], [`marshal`], [`iface_bluetooth_gatt`]);
//! - a service exporter with a declarative method table ([`exporter`]);
//! - remote proxy objects whose methods package arguments into outbound,
//!   fire-and-forget bus calls ([`proxy`]);
//! - a registry of disconnect observers per remote peer ([`registry`]);
//! - a single-consumer dispatch model that applies native-stack events to
//!   shared service state in arrival order (this module).

use vstd::prelude::*;

pub mod a2dp;
pub mod btif;
pub mod command_handler;
pub mod exporter;
pub mod gatt;
pub mod iface_bluetooth_gatt;
pub mod marshal;
pub mod proxy;
pub mod registry;
pub mod wire;

verus! {

/// Message types that are sent to the stack's main dispatch loop: each is
/// one normalized native-stack occurrence, queued in arrival order.
#[derive(Debug)]
pub enum Message {
    A2dp(crate::a2dp::A2dpCallbacks),
    GattClient(crate::gatt::GattClientCallbacks),
    GattServer(crate::gatt::GattServerCallbacks),
    BluetoothCallbackDisconnected(u32),
}

/// The callback ids left after applying one event to `cbs`: a callback
/// disconnection removes every registration of that id; any other event
/// leaves the registrations alone.
pub open spec fn spec_callbacks_after(cbs: Seq<u32>, m: Message) -> Seq<u32>
    decreases cbs.len(),
{
    match m {
        Message::BluetoothCallbackDisconnected(id) => {
            if cbs.len() == 0 {
                Seq::empty()
            } else if cbs.last() == id {
                spec_callbacks_after(cbs.drop_last(), m)
            } else {
                spec_callbacks_after(cbs.drop_last(), m).push(cbs.last())
            }
        },
        _ => cbs,
    }
}

/// The callback ids left after applying a whole queue of events in
/// order.
pub open spec fn spec_callbacks_after_all(cbs: Seq<u32>, queue: Seq<Message>) -> Seq<u32>
    decreases queue.len(),
{
    if queue.len() == 0 {
        cbs
    } else {
        spec_callbacks_after(spec_callbacks_after_all(cbs, queue.drop_last()), queue.last())
    }
}

/// Shared service state as the dispatch loop sees it: the dispatch loop
/// is its sole writer, so native-stack threads never race each other on
/// it.
pub struct ServiceState {
    /// Every event applied so far, in application order.
    pub log: Vec<Message>,
    /// Ids of the service callbacks currently registered.
    pub callbacks: Vec<u32>,
}

impl ServiceState {
    /// State with nothing applied and no callbacks registered.
    pub fn new() -> (s: ServiceState)
        ensures
            s.log@ == Seq::<Message>::empty(),
            s.callbacks@ == Seq::<u32>::empty(),
    {
        ServiceState { log: Vec::new(), callbacks: Vec::new() }
    }
}

/// Umbrella class for the Bluetooth stack.
pub struct Stack {}

impl Stack {
    /// Applies one dispatch event to the shared state: the event joins
    /// the application log, and a callback disconnection clears that
    /// callback's registrations.
    pub fn dispatch_message(state: &mut ServiceState, m: Message)
        ensures
            final(state).log@ == old(state).log@.push(m),
            final(state).callbacks@ == spec_callbacks_after(old(state).callbacks@, m),
    {
        let is_disconnect = match &m {
            Message::BluetoothCallbackDisconnected(_) => true,
            _ => false,
        };
        if is_disconnect {
            let id: u32 = match &m {
                Message::BluetoothCallbackDisconnected(id) => *id,
                _ => 0,
            };
            let ghost before = state.callbacks@;
            let mut remaining: Vec<u32> = Vec::new();
            let mut i: usize = 0;
            proof {
                assert(before.take(0) =~= Seq::<u32>::empty());
            }
            while i < state.callbacks.len()
                invariant
                    m matches Message::BluetoothCallbackDisconnected(id2) && id2 == id,
                    state.callbacks@ == before,
                    0 <= i <= before.len(),
                    remaining@ == spec_callbacks_after(before.take(i as int), m),
                decreases before.len() - i,
            {
                let ghost prefix = before.take(i as int);
                proof {
                    assert(before.take(i as int + 1) =~= prefix.push(before[i as int]));
                    assert(prefix.push(before[i as int]).drop_last() =~= prefix);
                }
                if state.callbacks[i] != id {
                    remaining.push(state.callbacks[i]);
                }
                i = i + 1;
            }
            proof {
                assert(before.take(before.len() as int) =~= before);
            }
            state.callbacks = remaining;
        }
        state.log.push(m);
    }

    /// Runs the main dispatch loop over a drained channel's queue: the
    /// single consumer takes one event at a time and applies it to the
    /// shared state, in arrival order, never reordering or dropping one.
    /// An emptied queue is orderly shutdown, not an error.
    pub fn dispatch(queue: Vec<Message>, state: &mut ServiceState)
        ensures
            final(state).log@ == old(state).log@ + queue@,
            final(state).callbacks@ == spec_callbacks_after_all(old(state).callbacks@, queue@),
    {
        let ghost whole = queue@;
        let mut q = queue;
        proof {
            assert(whole.take(0) =~= Seq::<Message>::empty());
            assert(old(state).log@ + Seq::<Message>::empty() =~= old(state).log@);
        }
        let n = q.len();
        let mut i: usize = 0;
        while q.len() > 0
            invariant
                whole.len() == n,
                0 <= i <= whole.len(),
                q@ == whole.skip(i as int),
                state.log@ == old(state).log@ + whole.take(i as int),
                state.callbacks@ == spec_callbacks_after_all(
                    old(state).callbacks@,
                    whole.take(i as int),
                ),
            decreases q@.len(),
        {
            proof {
                assert(whole.skip(i as int).len() == whole.len() - i);
            }
            let m = q.remove(0);
            proof {
                assert(whole.skip(i as int)[0] == whole[i as int]);
                assert(m == whole[i as int]);
                assert(whole.take(i as int + 1) =~= whole.take(i as int).push(m));
                assert(whole.take(i as int).push(m).drop_last() =~= whole.take(i as int));
                assert(whole.skip(i as int).remove(0) =~= whole.skip(i as int + 1));
            }
            Stack::dispatch_message(state, m);
            proof {
                assert(state.log@ =~= old(state).log@ + whole.take(i as int + 1));
            }
            i = i + 1;
        }
        proof {
            assert(whole.skip(i as int).len() == 0);
            assert(i == whole.len());
            assert(whole.take(i as int) =~= whole);
        }
    }
}

} // verus!
