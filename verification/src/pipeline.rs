//! The audit event pipeline: finished audit logs are queued by many
//! connections, and a single consumer persists them one at a time in arrival
//! order. Once intake closes for shutdown, nothing more enters; everything
//! already queued is still persisted, so a full drain loses no record.

use vstd::prelude::*;
use crate::audit::AuditLog;

verus! {

/// A multi-producer queue of finished audit logs with drain-on-shutdown
/// semantics. `pending` holds what was accepted and not yet persisted;
/// `persisted` holds, in arrival order, everything already handed to the
/// sink.
pub struct AuditPipeline {
    intake_open: bool,
    pending: Vec<AuditLog>,
    persisted: Vec<AuditLog>,
}

impl AuditPipeline {
    /// Whether records are still admitted.
    pub closed spec fn is_open(self) -> bool {
        self.intake_open
    }

    /// What was accepted and not yet persisted, in arrival order.
    pub closed spec fn pending_logs(self) -> Seq<crate::audit::AuditLogView> {
        self.pending.deep_view()
    }

    /// What was already persisted, in arrival order.
    pub closed spec fn persisted_logs(self) -> Seq<crate::audit::AuditLogView> {
        self.persisted.deep_view()
    }

    /// Everything the pipeline ever accepted, in arrival order: the
    /// persisted prefix followed by the pending suffix. Each accepted record
    /// stays in this sequence exactly once, whatever else happens.
    pub open spec fn accepted_logs(self) -> Seq<crate::audit::AuditLogView> {
        self.persisted_logs() + self.pending_logs()
    }

    /// A fresh pipeline: intake open, nothing queued, nothing persisted.
    pub fn new() -> (pipeline: AuditPipeline)
        ensures
            pipeline.is_open(),
            pipeline.pending_logs() == Seq::<crate::audit::AuditLogView>::empty(),
            pipeline.persisted_logs() == Seq::<crate::audit::AuditLogView>::empty(),
    {
        let pipeline = AuditPipeline {
            intake_open: true,
            pending: Vec::new(),
            persisted: Vec::new(),
        };
        proof {
            assert(pipeline.pending_logs() =~= Seq::<crate::audit::AuditLogView>::empty());
            assert(pipeline.persisted_logs() =~= Seq::<crate::audit::AuditLogView>::empty());
        }
        pipeline
    }

    /// Admits one finished record, at the back of the queue. Succeeds exactly
    /// when intake is still open; after shutdown has closed intake the record
    /// is refused and the pipeline does not change (the caller logs the loss
    /// and drops the record).
    pub fn enqueue(&mut self, record: AuditLog) -> (accepted: bool)
        ensures
            accepted == old(self).is_open(),
            final(self).is_open() == old(self).is_open(),
            final(self).persisted_logs() == old(self).persisted_logs(),
            accepted ==> final(self).pending_logs() == old(self).pending_logs().push(record@),
            !accepted ==> final(self).pending_logs() == old(self).pending_logs(),
    {
        if self.intake_open {
            let ghost r = record@;
            self.pending.push(record);
            proof {
                assert(self.pending.deep_view() =~= old(self).pending.deep_view().push(r));
            }
            true
        } else {
            false
        }
    }

    /// Closes intake: the first step of shutdown. Nothing queued is lost.
    pub fn close_intake(&mut self)
        ensures
            !final(self).is_open(),
            final(self).pending_logs() == old(self).pending_logs(),
            final(self).persisted_logs() == old(self).persisted_logs(),
    {
        self.intake_open = false;
    }

    /// Moves the oldest pending record to the persisted sequence, where
    /// `last_persisted` offers it to the sink writer. Records leave the
    /// queue in arrival order, one at a time, each exactly once.
    pub fn persist_next(&mut self) -> (progressed: bool)
        ensures
            final(self).is_open() == old(self).is_open(),
            progressed == (old(self).pending_logs().len() > 0),
            progressed ==> {
                &&& final(self).persisted_logs()
                    == old(self).persisted_logs().push(old(self).pending_logs()[0])
                &&& final(self).pending_logs() == old(self).pending_logs().drop_first()
            },
            !progressed ==> {
                &&& final(self).persisted_logs() == old(self).persisted_logs()
                &&& final(self).pending_logs() == old(self).pending_logs()
            },
            final(self).accepted_logs() == old(self).accepted_logs(),
    {
        if self.pending.len() == 0 {
            return false;
        }
        let record = self.pending.remove(0);
        self.persisted.push(record);
        proof {
            assert(self.persisted.deep_view()
                =~= old(self).persisted.deep_view().push(old(self).pending.deep_view()[0]));
            assert(self.pending.deep_view() =~= old(self).pending.deep_view().drop_first());
            assert(self.accepted_logs() =~= old(self).accepted_logs());
        }
        true
    }

    /// The most recently persisted record, for the sink writer to serialize.
    pub fn last_persisted(&self) -> (record: Option<&AuditLog>)
        ensures
            match record {
                Some(r) => {
                    &&& self.persisted_logs().len() > 0
                    &&& r@ == self.persisted_logs().last()
                },
                None => self.persisted_logs().len() == 0,
            },
    {
        if self.persisted.len() == 0 {
            None
        } else {
            Some(&self.persisted[self.persisted.len() - 1])
        }
    }

    /// How many records were persisted so far.
    pub fn persisted_count(&self) -> (n: usize)
        ensures
            n == self.persisted_logs().len(),
    {
        self.persisted.len()
    }

    /// How many records still await persistence.
    pub fn pending_count(&self) -> (n: usize)
        ensures
            n == self.pending_logs().len(),
    {
        self.pending.len()
    }

    /// Whether shutdown may complete: intake closed and nothing left queued.
    pub fn is_drained(&self) -> (drained: bool)
        ensures
            drained == (!self.is_open() && self.pending_logs().len() == 0),
    {
        !self.intake_open && self.pending.len() == 0
    }
}

/// The shutdown guarantee of the pipeline: once intake is closed and the
/// queue has been drained, the persisted sequence is exactly the sequence of
/// records the pipeline ever accepted — each one present, in arrival order,
/// exactly once.
pub proof fn lemma_drained_pipeline_is_lossless(pipeline: AuditPipeline)
    requires
        pipeline.pending_logs().len() == 0,
    ensures
        pipeline.persisted_logs() == pipeline.accepted_logs(),
{
    assert(pipeline.persisted_logs() =~= pipeline.persisted_logs() + pipeline.pending_logs());
}

} // verus!
