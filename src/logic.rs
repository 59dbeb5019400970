//! Rules of a transaction. The logic manager does not talk to the server
//! itself: it queues each rule request on the transaction's stream, whose
//! owner sends the queued requests in order and reads back the answers.
use vstd::prelude::*;

verus! {

/// A rule of the schema: when its condition holds, its conclusion is inferred.
/// Both bodies are held as TypeQL text.
#[derive(Clone, Debug)]
pub struct Rule {
    pub label: String,
    pub when: String,
    pub then: String,
}

/// A request on rules, as it goes out on a transaction stream.
#[derive(Clone, Debug)]
pub enum RuleRequest {
    /// Create the rule, or replace the one with the same label.
    Put { label: String, when: String, then: String },
    /// Fetch the rule with this label, if there is one.
    Get { label: String },
    /// Fetch all rules, as a stream of answers.
    All,
}

/// The outgoing side of an open transaction stream: the requests queued on
/// it that have not been sent yet, in order.
#[derive(Clone, Debug)]
pub struct TransactionStream {
    queued: Vec<RuleRequest>,
}

impl TransactionStream {
    pub closed spec fn pending(&self) -> Seq<RuleRequest> {
        self.queued@
    }

    pub fn new() -> (r: TransactionStream)
        ensures
            r.pending() == Seq::<RuleRequest>::empty(),
    {
        TransactionStream { queued: Vec::new() }
    }

    /// The number of requests queued and not yet sent.
    pub fn pending_count(&self) -> (r: usize)
        ensures
            r == self.pending().len(),
    {
        self.queued.len()
    }

    /// Queues a request; its answer will come back at the returned position.
    pub fn submit(&mut self, request: RuleRequest) -> (r: usize)
        requires
            old(self).pending().len() < usize::MAX,
        ensures
            final(self).pending() == old(self).pending().push(request),
            r == old(self).pending().len(),
    {
        let n = self.queued.len();
        self.queued.push(request);
        n
    }

    /// Hands over the queued requests, in order, and leaves none queued.
    pub fn take_pending(&mut self) -> (r: Vec<RuleRequest>)
        ensures
            r@ == old(self).pending(),
            final(self).pending() == Seq::<RuleRequest>::empty(),
    {
        let mut taken: Vec<RuleRequest> = Vec::new();
        core::mem::swap(&mut self.queued, &mut taken);
        taken
    }
}

/// Provides methods for manipulating rules in the database.
#[derive(Clone, Debug)]
pub struct LogicManager {
    transaction_stream: TransactionStream,
}

impl LogicManager {
    pub closed spec fn stream(&self) -> TransactionStream {
        self.transaction_stream
    }

    pub fn new(transaction_stream: TransactionStream) -> (r: LogicManager)
        ensures
            r.stream() == transaction_stream,
    {
        LogicManager { transaction_stream }
    }

    pub fn transaction_stream(&mut self) -> (r: &mut TransactionStream)
        ensures
            *r == old(self).stream(),
            final(self).stream() == *final(r),
    {
        &mut self.transaction_stream
    }

    /// Requests that the rule be created, or replace the existing one with
    /// the same label.
    pub fn put_rule(&mut self, label: String, when: String, then: String) -> (r: usize)
        requires
            old(self).stream().pending().len() < usize::MAX,
        ensures
            final(self).stream().pending() == old(self).stream().pending().push(
                RuleRequest::Put { label, when, then },
            ),
            r == old(self).stream().pending().len(),
    {
        self.transaction_stream.submit(RuleRequest::Put { label, when, then })
    }

    /// Requests the rule that has the given label.
    pub fn get_rule(&mut self, label: String) -> (r: usize)
        requires
            old(self).stream().pending().len() < usize::MAX,
        ensures
            final(self).stream().pending() == old(self).stream().pending().push(
                RuleRequest::Get { label },
            ),
            r == old(self).stream().pending().len(),
    {
        self.transaction_stream.submit(RuleRequest::Get { label })
    }

    /// Requests all rules.
    pub fn get_rules(&mut self) -> (r: usize)
        requires
            old(self).stream().pending().len() < usize::MAX,
        ensures
            final(self).stream().pending() == old(self).stream().pending().push(RuleRequest::All),
            r == old(self).stream().pending().len(),
    {
        self.transaction_stream.submit(RuleRequest::All)
    }
}

} // verus!
