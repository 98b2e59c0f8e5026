//! What the protocol hands to its host: bus steps to perform one after the other, and
//! the operations of a transaction.

use vstd::prelude::*;
use crate::interface::InterfaceError;

verus! {

/// One thing for the host to do on the driver's behalf.
#[derive(Debug, PartialEq, Eq)]
pub enum BusStep {
    /// Write these bytes to the expander, in one I2C write.
    Write(Vec<u8>),
    /// Wait for at least so many microseconds.
    DelayUs(u32),
}

/// A step as the contracts see it.
pub enum Step {
    Write(Seq<u8>),
    DelayUs(u32),
}

impl View for BusStep {
    type V = Step;

    open spec fn view(&self) -> Step {
        match self {
            BusStep::Write(bytes) => Step::Write(bytes@),
            BusStep::DelayUs(us) => Step::DelayUs(*us),
        }
    }
}

/// The steps of a list, as the contracts see them.
pub open spec fn steps_view(steps: Seq<BusStep>) -> Seq<Step> {
    steps.map_values(|step: BusStep| step@)
}

/// One operation inside an I2C transaction.
#[derive(Debug, PartialEq, Eq)]
pub enum BusOperation {
    /// Write these bytes to the expander.
    Write(Vec<u8>),
    /// Read one byte from the expander: a sample of the port.
    Read,
}

/// An operation as the contracts see it.
pub enum Operation {
    Write(Seq<u8>),
    Read,
}

impl View for BusOperation {
    type V = Operation;

    open spec fn view(&self) -> Operation {
        match self {
            BusOperation::Write(bytes) => Operation::Write(bytes@),
            BusOperation::Read => Operation::Read,
        }
    }
}

/// The operations of a list, as the contracts see them.
pub open spec fn operations_view(operations: Seq<BusOperation>) -> Seq<Operation> {
    operations.map_values(|operation: BusOperation| operation@)
}

/// Where a transfer stands: a step for the host to perform, or the result.
pub enum Progress<'a> {
    Perform(&'a BusStep),
    Finished(Result<(), InterfaceError>),
}

/// `Progress` as the contracts see it.
pub enum Pending {
    Perform(Step),
    Finished(Result<(), InterfaceError>),
}

impl<'a> View for Progress<'a> {
    type V = Pending;

    open spec fn view(&self) -> Pending {
        match self {
            Progress::Perform(step) => Pending::Perform(step@),
            Progress::Finished(r) => Pending::Finished(*r),
        }
    }
}

/// A transfer as the contracts see it: its steps, how many of them are done, and whether
/// one has failed.
pub struct TransferView {
    pub script: Seq<Step>,
    pub performed: nat,
    pub failed: bool,
}

impl TransferView {
    /// A transfer of which nothing has been performed yet.
    pub open spec fn fresh(script: Seq<Step>) -> TransferView {
        TransferView { script, performed: 0, failed: false }
    }

    /// What the host is to do now: nothing more once a step has failed, the next step
    /// while one is left, nothing more when all are done.
    pub open spec fn pending(self) -> Pending {
        if self.failed {
            Pending::Finished(Err(InterfaceError::Pcf8574I2cError))
        } else if self.performed < self.script.len() {
            Pending::Perform(self.script[self.performed as int])
        } else {
            Pending::Finished(Ok(()))
        }
    }

    /// The transfer after the host has told how the pending step went. A success moves it
    /// on by one step, a failure ends it, and a finished transfer stays as it is.
    pub open spec fn after(self, ok: bool) -> TransferView {
        if self.pending() is Finished {
            self
        } else if ok {
            TransferView { performed: self.performed + 1, ..self }
        } else {
            TransferView { failed: true, ..self }
        }
    }

    /// The transfer after the host has told of one step after the other how it went.
    pub open spec fn after_all(self, outcomes: Seq<bool>) -> TransferView
        decreases outcomes.len(),
    {
        if outcomes.len() == 0 {
            self
        } else {
            self.after(outcomes[0]).after_all(outcomes.skip(1))
        }
    }
}

/// A run of bus steps that the host performs in order, up to the first that fails.
///
/// The host asks with `poll` what to do, does it, and tells with `report` how it went,
/// until `poll` answers with the result.
pub struct Transfer {
    steps: Vec<BusStep>,
    done: usize,
    failed: bool,
}

impl View for Transfer {
    type V = TransferView;

    closed spec fn view(&self) -> TransferView {
        TransferView {
            script: steps_view(self.steps@),
            performed: self.done as nat,
            failed: self.failed,
        }
    }
}

impl Transfer {
    /// A transfer of these steps, of which nothing has been performed yet.
    pub(crate) fn new(steps: Vec<BusStep>) -> (transfer: Self)
        ensures
            transfer@ == TransferView::fresh(steps_view(steps@)),
    {
        Transfer { steps, done: 0, failed: false }
    }

    /// What the host is to do now.
    pub fn poll(&self) -> (progress: Progress<'_>)
        ensures
            progress@ == self@.pending(),
    {
        if self.failed {
            Progress::Finished(Err(InterfaceError::Pcf8574I2cError))
        } else if self.done < self.steps.len() {
            Progress::Perform(&self.steps[self.done])
        } else {
            Progress::Finished(Ok(()))
        }
    }

    /// Takes in how the step that `poll` handed out went.
    pub fn report(&mut self, ok: bool)
        ensures
            final(self)@ == old(self)@.after(ok),
    {
        if !self.failed && self.done < self.steps.len() {
            if ok {
                self.done = self.done + 1;
            } else {
                self.failed = true;
            }
        }
    }
}

/// A host that performs the steps it is handed and reports success each time is handed
/// the steps of the script in order, each once, and after the last of them the result `Ok`.
pub proof fn lemma_transfer_runs_in_order(script: Seq<Step>, n: nat)
    requires
        n <= script.len(),
    ensures
        TransferView::fresh(script).after_all(Seq::new(n, |i: int| true)) == (TransferView {
            script,
            performed: n,
            failed: false,
        }),
        n < script.len() ==> TransferView::fresh(script).after_all(
            Seq::new(n, |i: int| true),
        ).pending() == Pending::Perform(script[n as int]),
        n == script.len() ==> TransferView::fresh(script).after_all(
            Seq::new(n, |i: int| true),
        ).pending() == Pending::Finished(Ok(())),
{
    lemma_successes(TransferView::fresh(script), n);
}

/// The first step that fails ends a transfer: no later step is handed out, whatever the
/// host reports from then on, and the result is the bus error.
pub proof fn lemma_transfer_stops_at_failure(script: Seq<Step>, k: nat, later: Seq<bool>)
    requires
        k < script.len(),
    ensures
        TransferView::fresh(script).after_all(Seq::new(k, |i: int| true).push(false) + later) == (
        TransferView { script, performed: k, failed: true }),
        TransferView::fresh(script).after_all(
            Seq::new(k, |i: int| true).push(false) + later,
        ).pending() == Pending::Finished(Err(InterfaceError::Pcf8574I2cError)),
{
    let start = TransferView::fresh(script);
    let successes = Seq::new(k, |i: int| true);
    let failed = TransferView { script, performed: k, failed: true };
    lemma_successes(start, k);
    lemma_after_all_splits(start, successes, seq![false] + later);
    assert(successes.push(false) + later =~= successes + (seq![false] + later));
    assert((seq![false] + later).skip(1) =~= later);
    lemma_finished_stays(failed, later);
}

proof fn lemma_successes(t: TransferView, n: nat)
    requires
        !t.failed,
        t.performed + n <= t.script.len(),
    ensures
        t.after_all(Seq::new(n, |i: int| true)) == (TransferView {
            performed: t.performed + n,
            ..t
        }),
    decreases n,
{
    let outcomes = Seq::new(n, |i: int| true);
    if n > 0 {
        assert(outcomes.skip(1) =~= Seq::new((n - 1) as nat, |i: int| true));
        lemma_successes(t.after(true), (n - 1) as nat);
    }
}

proof fn lemma_after_all_splits(t: TransferView, first: Seq<bool>, second: Seq<bool>)
    ensures
        t.after_all(first + second) == t.after_all(first).after_all(second),
    decreases first.len(),
{
    if first.len() > 0 {
        assert((first + second).skip(1) =~= first.skip(1) + second);
        lemma_after_all_splits(t.after(first[0]), first.skip(1), second);
    }
}

proof fn lemma_finished_stays(t: TransferView, outcomes: Seq<bool>)
    requires
        t.pending() is Finished,
    ensures
        t.after_all(outcomes) == t,
    decreases outcomes.len(),
{
    if outcomes.len() > 0 {
        lemma_finished_stays(t, outcomes.skip(1));
    }
}

} // verus!
