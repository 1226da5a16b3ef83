//! The command channel: the one way by which work reaches the thread that
//! owns the state.

use vstd::prelude::*;

verus! {

/// The producer end of the command channel. Copies of one sender are the same
/// producer.
#[derive(Clone, Copy, Debug, PartialEq, Eq, Structural)]
pub struct StateFnSender {
    pub producer: u64,
}

/// A command on its way to the owner of the state, with the producer that
/// submitted it.
#[derive(Debug)]
pub struct Submission<C> {
    pub producer: u64,
    pub command: C,
}

/// An unbounded queue of commands in the order in which they arrived.
#[derive(Debug)]
pub struct CommandChannel<C> {
    queue: Vec<Submission<C>>,
    open: bool,
    senders: u64,
}

impl<C> CommandChannel<C> {
    /// The commands that wait, the one that arrived first standing first.
    pub closed spec fn queued(&self) -> Seq<Submission<C>> {
        self.queue@
    }

    /// Whether the consumer still takes commands.
    pub closed spec fn is_open(&self) -> bool {
        self.open
    }

    /// How many senders were handed out.
    pub closed spec fn senders(&self) -> u64 {
        self.senders
    }

    /// An open channel in which nothing waits.
    pub fn new() -> (r: Self)
        ensures
            r.is_open(),
            r.queued() == Seq::<Submission<C>>::empty(),
            r.senders() == 0,
    {
        CommandChannel { queue: Vec::new(), open: true, senders: 0 }
    }

    /// A sender for a new producer. The producers are numbered from zero;
    /// `None` when the numbers have run out.
    pub fn sender(&mut self) -> (r: Option<StateFnSender>)
        ensures
            final(self).queued() == old(self).queued(),
            final(self).is_open() == old(self).is_open(),
            match r {
                Some(sender) => sender.producer == old(self).senders() && final(self).senders()
                    == old(self).senders() + 1,
                None => old(self).senders() == u64::MAX && final(self).senders() == u64::MAX,
            },
    {
        if self.senders == u64::MAX {
            None
        } else {
            let producer = self.senders;
            self.senders = producer + 1;
            Some(StateFnSender { producer })
        }
    }

    /// Enqueues a command behind those that wait and returns at once. On a
    /// closed channel the command is dropped: it is handed back, and nothing
    /// is enqueued.
    pub fn submit(&mut self, sender: &StateFnSender, command: C) -> (r: Result<(), C>)
        ensures
            final(self).is_open() == old(self).is_open(),
            final(self).senders() == old(self).senders(),
            match r {
                Ok(()) => old(self).is_open() && final(self).queued() == old(self).queued().push(
                    Submission { producer: sender.producer, command },
                ),
                Err(dropped) => !old(self).is_open() && dropped == command && final(self).queued()
                    == old(self).queued(),
            },
    {
        if self.open {
            self.queue.push(Submission { producer: sender.producer, command });
            Ok(())
        } else {
            Err(command)
        }
    }

    /// Closes the channel: from now on submissions are dropped. What waits
    /// stays.
    pub fn close(&mut self)
        ensures
            !final(self).is_open(),
            final(self).queued() == old(self).queued(),
            final(self).senders() == old(self).senders(),
    {
        self.open = false;
    }

    /// Takes every command that waits, in the order of arrival, and leaves
    /// the channel empty.
    pub fn drain(&mut self) -> (r: Vec<Submission<C>>)
        ensures
            r@ == old(self).queued(),
            final(self).queued() == Seq::<Submission<C>>::empty(),
            final(self).is_open() == old(self).is_open(),
            final(self).senders() == old(self).senders(),
    {
        let mut taken: Vec<Submission<C>> = Vec::new();
        core::mem::swap(&mut self.queue, &mut taken);
        taken
    }
}

/// One turn of the owner of the state: takes every command that waits and
/// executes each on `data`, in the order of arrival, with exclusive access.
/// Returns how many were executed.
///
/// The states that `data` goes through form a trace: it begins with the state
/// before the call and ends with the state after it, and each command in turn
/// takes one state of the trace to the next.
pub fn run_pending<S, C, F>(data: &mut S, channel: &mut CommandChannel<C>, execute: F) -> (n:
    usize) where F: Fn(&mut S, C)
    requires
        forall|s: &mut S, c: C| call_requires(execute, (s, c)),
    ensures
        n == old(channel).queued().len(),
        final(channel).queued() == Seq::<Submission<C>>::empty(),
        final(channel).is_open() == old(channel).is_open(),
        final(channel).senders() == old(channel).senders(),
        ({
            let first = *old(data);
            let last = *final(data);
            let commands = old(channel).queued();
            exists|trace: Seq<S>|
                {
                    &&& trace.len() == n + 1
                    &&& trace[0] == first
                    &&& trace[n as int] == last
                    &&& forall|i: int|
                        0 <= i < n ==> exists|s: &mut S|
                            *s == #[trigger] trace[i] && *final(s) == trace[i + 1] && call_ensures(
                                execute,
                                (s, commands[i].command),
                                (),
                            )
                }
        }),
{
    let pending = channel.drain();
    let n = pending.len();
    let ghost commands = pending@;
    let ghost trace: Seq<S> = seq![*data];
    for submission in it: pending
        invariant
            it.seq() == commands,
            forall|s: &mut S, c: C| call_requires(execute, (s, c)),
            trace.len() == it.index() + 1,
            trace[0] == *old(data),
            trace[it.index() as int] == *data,
            forall|i: int|
                0 <= i < it.index() ==> exists|s: &mut S|
                    *s == #[trigger] trace[i] && *final(s) == trace[i + 1] && call_ensures(
                        execute,
                        (s, commands[i].command),
                        (),
                    ),
    {
        execute(data, submission.command);
        proof {
            trace = trace.push(*data);
        }
    }
    n
}

/// What waits in a channel after `arrivals` were submitted to it in this
/// order, when `queued` waited before.
pub open spec fn after_submissions<C>(queued: Seq<Submission<C>>, arrivals: Seq<Submission<C>>) -> Seq<
    Submission<C>,
>
    decreases arrivals.len(),
{
    if arrivals.len() == 0 {
        queued
    } else {
        after_submissions(queued, arrivals.drop_last()).push(arrivals.last())
    }
}

/// Tells the submissions of one producer from the others.
pub open spec fn from_producer<C>(producer: u64) -> spec_fn(Submission<C>) -> bool {
    |s: Submission<C>| s.producer == producer
}

/// Commands are taken out in the order in which they arrived: whatever way
/// the submissions of several producers interleave, what is drained from a
/// channel that was empty is the arrivals in their order, so that the commands
/// of each producer come out in the order in which that producer submitted
/// them.
pub proof fn lemma_producer_order_is_kept<C>(arrivals: Seq<Submission<C>>, producer: u64)
    ensures
        after_submissions(Seq::empty(), arrivals) == arrivals,
        after_submissions(Seq::empty(), arrivals).filter(from_producer(producer)) == arrivals.filter(
            from_producer(producer),
        ),
    decreases arrivals.len(),
{
    if arrivals.len() > 0 {
        lemma_producer_order_is_kept(arrivals.drop_last(), producer);
        assert(arrivals.drop_last().push(arrivals.last()) =~= arrivals);
    }
}

} // verus!
