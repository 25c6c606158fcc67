//! The worker, its handler, and the handles that producers and the owner
//! hold.

use vstd::prelude::*;
use crate::channel::{clone_sender, milliseconds, notification, recv_timeout, send};
use crate::envelope::{Call, Envelope, NotifyError, Received};
use crate::model::{calls_of, lemma_trace_push, next_call, runs_through, stops, with_call};
use crate::util::Consume;

verus! {

/// How long one receive waits before the handler is polled, in milliseconds.
pub const POLLING_DELAY_MS: u64 = 20;

/// What a worker drives: the domain logic that reacts to commands and to
/// polling ticks. It lives on the worker's thread alone, and what it does with
/// a command or a tick is its own affair: its methods carry no contract.
pub trait Handle: Sized {
    /// What a command is.
    type Command;

    /// Builds the handler; called on the thread that will run it.
    fn new() -> Self;

    /// Reacts to one command.
    fn command(&mut self, cmd: Self::Command);

    /// Reacts to one polling tick.
    fn poll(&mut self);
}

/// The receiving side of the channel together with the running flag.
#[verifier::reject_recursive_types(C)]
pub struct Worker<C> {
    tx: std::sync::mpsc::Sender<Envelope<C>>,
    rx: std::sync::mpsc::Receiver<Envelope<C>>,
    run: bool,
    seen: Ghost<Seq<Received<C>>>,
    made: Ghost<Seq<Call<C>>>,
}

impl<C> Worker<C> {
    /// Whether the worker is in its running state; the other state, stopped,
    /// is left only by `run`.
    pub closed spec fn running(&self) -> bool {
        self.run
    }

    /// The receive outcomes that the worker has taken since it was made or
    /// last set running by `run`, oldest first.
    pub closed spec fn received(&self) -> Seq<Received<C>> {
        self.seen@
    }

    /// The handler calls that the worker has made through `dispatch` since it
    /// was made or last set running by `run`, oldest first. The worker keeps
    /// this record itself, at the place of each call.
    pub closed spec fn dispatched(&self) -> Seq<Call<C>> {
        self.made@
    }

    /// The sending end of the worker's channel that the worker keeps.
    pub closed spec fn port(&self) -> std::sync::mpsc::Sender<Envelope<C>> {
        self.tx
    }

    /// Whether the worker's state is what its receive outcomes amount to: it
    /// is running exactly if none of them was a shutdown, and the calls it
    /// made are the calls they earn. This holds of a new worker and after
    /// `run`, and `dispatch` and `shutdown` keep it.
    pub open spec fn faithful(&self) -> bool {
        &&& self.running() == runs_through(self.received())
        &&& self.dispatched() == calls_of(self.received())
    }

    /// A running worker on a fresh channel.
    pub fn new() -> (worker: Worker<C>)
        ensures
            worker.running(),
            worker.received() == Seq::<Received<C>>::empty(),
            worker.dispatched() == Seq::<Call<C>>::empty(),
            worker.faithful(),
    {
        let (tx, rx) = notification();
        Worker { tx: tx, rx: rx, run: true, seen: Ghost(Seq::empty()), made: Ghost(Seq::empty()) }
    }

    /// Whether the worker is running.
    pub fn is_running(&self) -> (running: bool)
        ensures
            running == self.running(),
    {
        self.run
    }

    /// Another sending end of the worker's channel: a clone of the one that
    /// the worker keeps.
    pub fn sender(&self) -> (copy: std::sync::mpsc::Sender<Envelope<C>>)
        ensures
            copy == self.port(),
    {
        clone_sender(&self.tx)
    }

    /// Stops the worker, as a shutdown envelope does.
    pub fn shutdown(&mut self)
        ensures
            !final(self).running(),
            final(self).received() == old(self).received().push(
                Received::Message(Envelope::Shutdown),
            ),
            final(self).dispatched() == old(self).dispatched(),
            old(self).faithful() ==> final(self).faithful(),
    {
        proof {
            lemma_trace_push(self.seen@, Received::Message(Envelope::Shutdown));
        }
        self.run = false;
        self.seen = Ghost(self.seen@.push(Received::Message(Envelope::Shutdown)));
    }

    /// One transition of the worker: takes a receive outcome and says which
    /// handler call it earns. A shutdown envelope stops the worker; a stopped
    /// worker stays stopped and earns no call.
    pub fn step(&mut self, received: Received<C>) -> (call: Option<Call<C>>)
        ensures
            call == next_call(old(self).running(), received),
            final(self).running() == (old(self).running() && !stops(received)),
            final(self).received() == old(self).received().push(received),
            final(self).dispatched() == old(self).dispatched(),
    {
        if !self.run {
            self.seen = Ghost(self.seen@.push(received));
            return None;
        }
        match received {
            Received::Message(Envelope::Shutdown) => {
                self.shutdown();
                None
            },
            Received::Message(Envelope::Cmd(cmd)) => {
                self.seen = Ghost(self.seen@.push(received));
                Some(Call::Command(cmd))
            },
            Received::TimedOut => {
                self.seen = Ghost(self.seen@.push(received));
                Some(Call::Poll)
            },
            Received::Closed => {
                self.seen = Ghost(self.seen@.push(received));
                None
            },
        }
    }

    /// Takes one receive outcome and makes the handler call that `step`
    /// earns for it, if any: that call and no other joins the record.
    pub fn dispatch<H: Handle<Command = C>>(&mut self, handler: &mut H, received: Received<C>)
        ensures
            final(self).dispatched() == with_call(
                old(self).dispatched(),
                next_call(old(self).running(), received),
            ),
            final(self).running() == (old(self).running() && !stops(received)),
            final(self).received() == old(self).received().push(received),
            old(self).faithful() ==> final(self).faithful(),
    {
        proof {
            lemma_trace_push(self.seen@, received);
        }
        match self.step(received) {
            Some(Call::Command(cmd)) => {
                self.made = Ghost(self.made@.push(Call::Command(cmd)));
                handler.command(cmd)
            },
            Some(Call::Poll) => {
                self.made = Ghost(self.made@.push(Call::Poll));
                handler.poll()
            },
            None => {},
        }
    }

    /// The dispatch loop, for at most `rounds` receives: sets the worker
    /// running, then receives with the polling timeout and dispatches each
    /// outcome until a shutdown envelope arrives. Says whether one did.
    ///
    /// Whatever the channel yields, the calls made are exactly those that the
    /// outcomes of this run earn, in their order; the loop ends with the
    /// first shutdown envelope, and without one only when the rounds are used
    /// up.
    pub fn run<H: Handle<Command = C>>(&mut self, handler: &mut H, rounds: u64) -> (stopped: bool)
        ensures
            stopped == !final(self).running(),
            final(self).faithful(),
            final(self).received().len() <= rounds,
            !stopped ==> final(self).received().len() == rounds && runs_through(
                final(self).received(),
            ),
            stopped ==> final(self).received().len() > 0 && stops(final(self).received().last())
                && runs_through(final(self).received().drop_last()),
    {
        self.run = true;
        self.seen = Ghost(Seq::empty());
        self.made = Ghost(Seq::empty());
        let timeout = milliseconds(POLLING_DELAY_MS);
        let mut left: u64 = rounds;
        while self.run && left > 0
            invariant
                left <= rounds,
                self.seen@.len() == rounds - left,
                self.run ==> runs_through(self.seen@),
                !self.run ==> self.seen@.len() > 0 && stops(self.seen@.last()) && runs_through(
                    self.seen@.drop_last(),
                ),
                self.faithful(),
            decreases left,
        {
            let received = recv_timeout(&self.rx, timeout);
            proof {
                assert(self.seen@.push(received).drop_last() =~= self.seen@);
            }
            self.dispatch(handler, received);
            left = left - 1;
        }
        !self.run
    }
}

/// A producer's handle: pushes commands into the worker's queue.
#[verifier::reject_recursive_types(C)]
pub struct Consumer<C> {
    sender: std::sync::mpsc::Sender<Envelope<C>>,
}

impl<C> Consumer<C> {
    /// The sending end that the consumer pushes into.
    pub closed spec fn port(&self) -> std::sync::mpsc::Sender<Envelope<C>> {
        self.sender
    }
}

impl<C> Clone for Consumer<C> {
    /// Another consumer on the same sending end.
    fn clone(&self) -> (copy: Self)
        ensures
            copy.port() == self.port(),
    {
        Consumer { sender: clone_sender(&self.sender) }
    }
}

impl<C> Consume for Consumer<C> {
    type Item = C;
    type Error = NotifyError<Envelope<C>>;

    /// Wraps `cmd` in a command envelope and sends it; the transport's error
    /// comes back unchanged, so a failed push hands back that very envelope.
    /// The consumer itself is left as it was.
    fn consume(&mut self, cmd: C) -> (pushed: Result<(), NotifyError<Envelope<C>>>)
        ensures
            pushed matches Err(failed) ==> failed.0 == Envelope::Cmd(cmd),
            *final(self) == *old(self),
    {
        send(&self.sender, Envelope::Cmd(cmd))
    }
}

/// What a shutdown leaves to its caller: whether the signal went out, and the
/// handle of the worker's thread, still to be joined.
#[verifier::reject_recursive_types(C)]
pub struct Released<C, J> {
    /// The result of sending the shutdown envelope.
    pub signalled: Result<(), NotifyError<Envelope<C>>>,
    /// The handle that the stub was made with.
    pub child: J,
}

/// The owner's side of a worker: a sender for the shutdown signal and the
/// handle `J` of the thread that runs the worker.
#[verifier::reject_recursive_types(C)]
pub struct WorkerStub<C, J> {
    sender: std::sync::mpsc::Sender<Envelope<C>>,
    child: J,
}

impl<C, J> WorkerStub<C, J> {
    /// The thread handle that the stub holds.
    pub closed spec fn child(&self) -> J {
        self.child
    }

    /// The sending end that the stub holds.
    pub closed spec fn port(&self) -> std::sync::mpsc::Sender<Envelope<C>> {
        self.sender
    }

    /// A stub for the worker that `sender` feeds and `child` runs.
    pub fn new(sender: std::sync::mpsc::Sender<Envelope<C>>, child: J) -> (stub: WorkerStub<C, J>)
        ensures
            stub.child() == child,
            stub.port() == sender,
    {
        WorkerStub { sender: sender, child: child }
    }

    /// A new consumer on the worker's channel: it pushes into a clone of the
    /// sending end that the stub holds.
    pub fn consumer(&self) -> (consumer: Consumer<C>)
        ensures
            consumer.port() == self.port(),
    {
        Consumer { sender: clone_sender(&self.sender) }
    }

    /// Sends the shutdown envelope and gives up the thread handle for the
    /// join. A failed send does not keep the handle back. The stub is used
    /// up: there is no second shutdown.
    pub fn shutdown(self) -> (released: Released<C, J>)
        ensures
            released.child == self.child(),
            released.signalled matches Err(failed) ==> failed.0 == Envelope::<C>::Shutdown,
    {
        let signalled = send(&self.sender, Envelope::Shutdown);
        Released { signalled: signalled, child: self.child }
    }
}

} // verus!
