//! Per-group FIFO of inbound reports.
//!
//! Inbound reports are routed by the high nibble of the identifier in
//! byte 0, so that each logical channel (system, GPIO, I2C status, I2C
//! data, UART data, ...) has a queue of its own.  Within a group the
//! arrival order is kept; groups are independent.

use std::collections::VecDeque;
use vstd::prelude::*;

verus! {

/// Number of report groups: one for each possible high nibble of an
/// identifier byte.
pub const GROUP_COUNT: usize = 16;

/// The group a report identifier is routed to: its high nibble.
pub open spec fn group_of(id: u8) -> int {
    (id >> 4) as int
}

/// Group index of an identifier as a machine integer.
fn group_index(id: u8) -> (g: usize)
    ensures
        g == group_of(id),
        g < GROUP_COUNT,
{
    proof {
        assert(id >> 4 < 16) by (bit_vector);
    }
    (id >> 4) as usize
}

/// What one iteration of a polling read does next.
#[derive(Debug, Clone, Copy, PartialEq, Eq, Structural)]
pub enum PollStep {
    /// Give up waiting and return what was assembled so far.
    Stop,
    /// Yield and poll again.
    Wait,
    /// Pop the oldest queued report and feed it to the assembly step.
    Take,
}

/// Decision of one iteration of a polling read, from the number of queued
/// reports and whether the deadline has passed.  A queued report is always
/// taken; an empty queue waits until the deadline, so a zero timeout with
/// nothing queued stops on the first iteration.
pub fn read_poll_decision(queued: usize, timed_out: bool) -> (step: PollStep)
    ensures
        queued > 0 ==> step == PollStep::Take,
        queued == 0 && timed_out ==> step == PollStep::Stop,
        queued == 0 && !timed_out ==> step == PollStep::Wait,
{
    if queued > 0 {
        PollStep::Take
    } else if timed_out {
        PollStep::Stop
    } else {
        PollStep::Wait
    }
}

/// Law: a group's queue is first-in first-out.  Three reports pushed onto
/// a queue come back oldest-first when it is popped three times, leaving
/// the queue as it started; and since `push_report`, `pop_report` and
/// `clear` each confine their change to the addressed group, traffic on
/// any other group leaves this order untouched.
pub proof fn lemma_fifo_ordering(q: Seq<Seq<u8>>, r1: Seq<u8>, r2: Seq<u8>, r3: Seq<u8>)
    ensures
        ({
            let q3 = q.push(r1).push(r2).push(r3);
            &&& q3.len() == q.len() + 3
            &&& q.len() == 0 ==> {
                &&& q3[0] == r1
                &&& q3.drop_first()[0] == r2
                &&& q3.drop_first().drop_first()[0] == r3
                &&& q3.drop_first().drop_first().drop_first() =~= q
            }
        }),
{
    let q3 = q.push(r1).push(r2).push(r3);
    if q.len() == 0 {
        assert(q3.drop_first() =~= seq![r2, r3]);
        assert(q3.drop_first().drop_first() =~= seq![r3]);
        assert(q3.drop_first().drop_first().drop_first() =~= q);
    }
}

/// Mapping from report group to an ordered queue of raw reports.
pub struct ReportFifo {
    queues: Vec<VecDeque<Vec<u8>>>,
}

impl ReportFifo {
    /// The queued reports of one group, oldest first.
    pub closed spec fn group(&self, g: int) -> Seq<Seq<u8>> {
        self.queues@[g]@.map_values(|r: Vec<u8>| r@)
    }

    #[verifier::type_invariant]
    spec fn wf(&self) -> bool {
        self.queues@.len() == GROUP_COUNT
    }

    /// An empty FIFO: every group's queue is empty.
    pub fn new() -> (fifo: Self)
        ensures
            forall|g: int|
                0 <= g < GROUP_COUNT ==> fifo.group(g) == Seq::<Seq<u8>>::empty(),
    {
        let mut queues: Vec<VecDeque<Vec<u8>>> = Vec::new();
        while queues.len() < GROUP_COUNT
            invariant
                queues@.len() <= GROUP_COUNT,
                forall|j: int| 0 <= j < queues@.len() ==> queues@[j]@.len() == 0,
            decreases GROUP_COUNT - queues@.len(),
        {
            queues.push(VecDeque::new());
        }
        let fifo = ReportFifo { queues };
        proof {
            assert forall|g: int|
                0 <= g < GROUP_COUNT implies fifo.group(g) == Seq::<Seq<u8>>::empty() by {
                assert(fifo.group(g) =~= Seq::<Seq<u8>>::empty());
            }
        }
        fifo
    }

    /// Queue a report at the back of the group selected by its identifier
    /// byte; no other group changes.
    pub fn push_report(&mut self, data: Vec<u8>)
        requires
            data@.len() > 0,
        ensures
            final(self).group(group_of(data@[0]))
                == old(self).group(group_of(data@[0])).push(data@),
            forall|g: int|
                0 <= g < GROUP_COUNT && g != group_of(data@[0])
                    ==> final(self).group(g) == old(self).group(g),
    {
        proof {
            use_type_invariant(&*self);
        }
        let g = group_index(data[0]);
        self.queues[g].push_back(data);
        proof {
            assert(self.group(g as int) =~= old(self).group(g as int).push(data@));
            assert forall|h: int|
                0 <= h < GROUP_COUNT && h != g implies self.group(h) == old(self).group(h) by {
                assert(self.queues@[h] == old(self).queues@[h]);
            }
        }
    }

    /// Dequeue the oldest report of the identifier's group, or nothing when
    /// that group is empty; no other group changes.
    pub fn pop_report(&mut self, id: u8) -> (rep: Option<Vec<u8>>)
        ensures
            match rep {
                Some(r) => {
                    &&& old(self).group(group_of(id)).len() > 0
                    &&& r@ == old(self).group(group_of(id))[0]
                    &&& final(self).group(group_of(id))
                        == old(self).group(group_of(id)).drop_first()
                },
                None => {
                    &&& old(self).group(group_of(id)).len() == 0
                    &&& final(self).group(group_of(id)) == old(self).group(group_of(id))
                },
            },
            forall|g: int|
                0 <= g < GROUP_COUNT && g != group_of(id)
                    ==> final(self).group(g) == old(self).group(g),
    {
        proof {
            use_type_invariant(&*self);
        }
        let g = group_index(id);
        let rep = self.queues[g].pop_front();
        proof {
            match &rep {
                Some(_r) => {
                    assert(self.group(g as int)
                        =~= old(self).group(g as int).drop_first());
                },
                None => {
                    assert(self.group(g as int) =~= old(self).group(g as int));
                },
            }
            assert forall|h: int|
                0 <= h < GROUP_COUNT && h != g implies self.group(h) == old(self).group(h) by {
                assert(self.queues@[h] == old(self).queues@[h]);
            }
        }
        rep
    }

    /// Discard every queued report of the identifier's group; other groups
    /// keep their contents.
    pub fn clear(&mut self, id: u8)
        ensures
            final(self).group(group_of(id)) == Seq::<Seq<u8>>::empty(),
            forall|g: int|
                0 <= g < GROUP_COUNT && g != group_of(id)
                    ==> final(self).group(g) == old(self).group(g),
    {
        proof {
            use_type_invariant(&*self);
        }
        let g = group_index(id);
        self.queues[g].clear();
        proof {
            assert(self.group(g as int) =~= Seq::<Seq<u8>>::empty());
            assert forall|h: int|
                0 <= h < GROUP_COUNT && h != g implies self.group(h) == old(self).group(h) by {
                assert(self.queues@[h] == old(self).queues@[h]);
            }
        }
    }

    /// Discard every queued report of every group.
    pub fn clear_all(&mut self)
        ensures
            forall|g: int|
                0 <= g < GROUP_COUNT ==> final(self).group(g) == Seq::<Seq<u8>>::empty(),
    {
        proof {
            use_type_invariant(&*self);
        }
        let mut g: usize = 0;
        while g < GROUP_COUNT
            invariant
                g <= GROUP_COUNT,
                self.queues@.len() == GROUP_COUNT,
                forall|j: int| 0 <= j < g ==> self.queues@[j]@.len() == 0,
            decreases GROUP_COUNT - g,
        {
            self.queues[g].clear();
            g = g + 1;
        }
        proof {
            assert forall|h: int|
                0 <= h < GROUP_COUNT implies self.group(h) == Seq::<Seq<u8>>::empty() by {
                assert(self.group(h) =~= Seq::<Seq<u8>>::empty());
            }
        }
    }

    /// Number of reports queued in the identifier's group.
    pub fn len(&self, id: u8) -> (n: usize)
        ensures
            n == self.group(group_of(id)).len(),
    {
        proof {
            use_type_invariant(self);
        }
        let g = group_index(id);
        self.queues[g].len()
    }

    /// Borrow the identifier's group queue, oldest report first, to inspect
    /// reports without consuming them.
    pub fn iter_peek(&self, id: u8) -> (q: &VecDeque<Vec<u8>>)
        ensures
            q@.map_values(|r: Vec<u8>| r@) == self.group(group_of(id)),
    {
        proof {
            use_type_invariant(self);
        }
        let g = group_index(id);
        let q = &self.queues[g];
        proof {
            assert(q@.map_values(|r: Vec<u8>| r@) =~= self.group(g as int));
        }
        q
    }
}

} // verus!
