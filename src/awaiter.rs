//! The future handle: a computation started on a thread of its own, and the
//! three ways of asking for its result.
use crate::channel::{open_channel, receive, receive_within, send_value, take_queued, try_receive};
use crate::resolution::{is_successor, next_cached};
use std::marker::PhantomData;
use std::sync::mpsc::{Receiver, Sender};
use std::time::Duration;
use vstd::prelude::*;

verus! {

/// A one-shot completion callback, boxed so that callbacks of different
/// closure types share one channel.
trait Callback<F>: Send {
    fn call(self: Box<Self>, r: &F);
}

/// A closure registered with [`Await::then`], together with the fact that it
/// accepts every possible result.
#[verifier::reject_recursive_types(F)]
struct Registered<F, C: FnOnce(&F)> {
    callable: C,
    result_type: PhantomData<F>,
}

impl<F, C: FnOnce(&F)> Registered<F, C> {
    #[verifier::type_invariant]
    spec fn accepts_any_result(&self) -> bool {
        forall|x: &F| #[trigger] self.callable.requires((x,))
    }
}

impl<F: Send, C: FnOnce(&F) + Send> Callback<F> for Registered<F, C> {
    fn call(self: Box<Self>, r: &F) {
        let registered = *self;
        proof {
            use_type_invariant(&registered);
        }
        let Registered { callable, result_type: _ } = registered;
        callable(r)
    }
}

/// What an `Option<&F>` shows of the value it refers to.
pub open spec fn shown<F>(r: Option<&F>) -> Option<F> {
    match r {
        Some(v) => Some(*v),
        None => None,
    }
}

/// The handle on a computation that runs on its own worker thread.
#[verifier::reject_recursive_types(F)]
pub struct Await<F> {
    result: Option<F>,
    then_sender: Sender<Box<dyn Callback<F>>>,
    result_receiver: Receiver<F>,
}

/// Invokes each callback once with `result`, in the order in which they stand.
fn run_callbacks<F>(callbacks: Vec<Box<dyn Callback<F>>>, result: &F) {
    let mut queue = callbacks;
    while queue.len() > 0
        decreases queue.len(),
    {
        let callback = queue.remove(0);
        callback.call(result);
    }
}

impl<F> Await<F> {
    /// The cached result: `None` while pending, `Some(v)` once resolved. It is
    /// set at most once and never reset.
    pub closed spec fn cached(&self) -> Option<F> {
        self.result
    }

    /// Records what a poll or a wait received, and shows the cached result.
    fn settle(&mut self, received: Option<F>) -> (r: Option<&F>)
        ensures
            final(self).cached() == next_cached(old(self).cached(), received),
            shown(r) == final(self).cached(),
    {
        if self.result.is_none() {
            self.result = received;
        }
        self.result.as_ref()
    }
}

/// The work that a handle's worker thread does: run the computation once,
/// invoke the callbacks registered with [`Await::then`], send the result to
/// the handle.
#[verifier::reject_recursive_types(F)]
pub struct Worker<F, T> {
    task: T,
    then_receiver: Receiver<Box<dyn Callback<F>>>,
    result_sender: Sender<F>,
}

impl<F, T: FnOnce() -> F> Worker<F, T> {
    /// The computation may be started.
    pub closed spec fn ready(&self) -> bool {
        self.task.requires(())
    }

    /// The computation that this worker runs.
    pub closed spec fn task_of(&self) -> T {
        self.task
    }

    /// Runs the computation once, closes registration, invokes every callback
    /// registered up to that moment with a reference to its result, in the
    /// order of registration, and only then sends the result to the handle.
    pub fn run(self)
        requires
            self.ready(),
    {
        let Worker { task, then_receiver, result_sender } = self;
        let result = task();
        let callbacks = take_queued(then_receiver);
        run_callbacks(callbacks, &result);
        let _ = send_value(&result_sender, result);
    }
}

impl<F: Send + 'static> Await<F> {
    /// Creates a pending handle for `task` and hands the worker that will run
    /// it to `spawn`, which is expected to start it on a thread of its own.
    /// `spawn` is called once, with a worker that holds `task`, ready to run.
    pub fn new<T, S>(task: T, spawn: S) -> (r: Await<F>) where
        T: FnOnce() -> F + Send + 'static,
        S: FnOnce(Worker<F, T>),
        requires
            task.requires(()),
            forall|w: Worker<F, T>| w.ready() ==> #[trigger] spawn.requires((w,)),
        ensures
            r.cached() is None,
            exists|w: Worker<F, T>|
                w.task_of() == task && w.ready() && #[trigger] spawn.ensures((w,), ()),
    {
        let (result_sender, result_receiver) = open_channel::<F>();
        let (then_sender, then_receiver) = open_channel::<Box<dyn Callback<F>>>();
        let worker = Worker { task, then_receiver, result_sender };
        let ghost handed = worker;
        spawn(worker);
        assert(spawn.ensures((handed,), ()));
        Await { result: None, then_sender, result_receiver }
    }

    /// Polls without blocking: the cached result once resolved, else a value
    /// that has arrived since, else `None`.
    pub fn result(&mut self) -> (r: Option<&F>)
        ensures
            is_successor(old(self).cached(), final(self).cached()),
            shown(r) == final(self).cached(),
    {
        let received = if self.result.is_some() {
            None
        } else {
            try_receive(&self.result_receiver)
        };
        self.settle(received)
    }

    /// Blocks for the result: without end when `timeout` is `None`, at most
    /// the given duration otherwise. A resolved handle answers at once; on a
    /// timeout the handle stays pending and `None` comes back.
    pub fn wait(&mut self, timeout: Option<Duration>) -> (r: Option<&F>)
        ensures
            is_successor(old(self).cached(), final(self).cached()),
            shown(r) == final(self).cached(),
    {
        let received = if self.result.is_some() {
            None
        } else {
            match timeout {
                Some(limit) => receive_within(&self.result_receiver, limit),
                None => receive(&self.result_receiver),
            }
        };
        self.settle(received)
    }

    /// Registers a callback that the worker invokes with the result once the
    /// computation has finished. Returns `false` when registration is closed:
    /// always once this handle holds its result, since the worker closes
    /// registration before it sends the result. A callback that reaches the
    /// worker in the moment between its collecting the queue and closing
    /// registration is dropped although `true` came back: the channel gives
    /// no way to tell the two apart.
    pub fn then<C: FnOnce(&F) + Send + 'static>(&self, callable: C) -> (r: bool)
        requires
            forall|x: &F| #[trigger] callable.requires((x,)),
        ensures
            self.cached() is Some ==> !r,
    {
        if self.result.is_some() {
            return false;
        }
        let registered = Registered { callable, result_type: PhantomData };
        let callback: Box<dyn Callback<F>> = Box::new(registered);
        send_value(&self.then_sender, callback)
    }
}

} // verus!
