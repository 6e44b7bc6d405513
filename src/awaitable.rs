//! A one-shot cell that hands one value from a producer to one consumer.
//!
//! The cell itself is a plain state machine; sharing it between tasks (a
//! reference count and a short lock) is the caller's concern.

use vstd::prelude::*;

verus! {

/// Relies on core::task::Waker only as an opaque value: a cell stores the
/// consumer's waker and hands it back, and never looks inside it.
#[verifier::external_type_specification]
#[verifier::external_body]
pub struct ExWaker(core::task::Waker);

/// A usage invariant of a cell that a call would break.
#[derive(Debug, Clone, Copy, PartialEq, Eq, Structural)]
pub enum CellError {
    /// A waker was installed while another one was still waiting.
    WakerInstalledTwice,
    /// The cell was completed a second time.
    DoneTwice,
}

/// The state of a cell: still waiting for its output, or done.
pub enum CompletionCell<Input, Output> {
    Ongoing { input: Option<Input>, waker: Option<core::task::Waker> },
    Done { output: Output },
}

/// What a cell holds, seen as a value.
pub enum CellView<Input, Output> {
    Ongoing { input: Option<Input>, waker: Option<core::task::Waker> },
    Done { output: Output },
}

impl<Input, Output> View for CompletionCell<Input, Output> {
    type V = CellView<Input, Output>;

    open spec fn view(&self) -> CellView<Input, Output> {
        match self {
            CompletionCell::Ongoing { input, waker } => CellView::Ongoing {
                input: *input,
                waker: *waker,
            },
            CompletionCell::Done { output } => CellView::Done { output: *output },
        }
    }
}

/// A fresh cell, optionally carrying an input for the producer to reuse.
pub open spec fn fresh_cell<Input, Output>(input: Option<Input>) -> CellView<Input, Output> {
    CellView::Ongoing { input, waker: None }
}

/// The waker that an ongoing cell holds.
pub open spec fn stored_waker<Input, Output>(s: CellView<Input, Output>) -> Option<
    core::task::Waker,
> {
    match s {
        CellView::Ongoing { waker, .. } => waker,
        CellView::Done { .. } => None,
    }
}

/// Result of installing a waker: `Ok(true)` when the output is already there.
pub open spec fn install_result<Input, Output>(s: CellView<Input, Output>) -> Result<bool, CellError> {
    match s {
        CellView::Ongoing { waker, .. } => if waker is Some {
            Err(CellError::WakerInstalledTwice)
        } else {
            Ok(false)
        },
        CellView::Done { .. } => Ok(true),
    }
}

/// State after installing `w`: an ongoing cell without a waker stores it;
/// a cell that already holds one keeps it, and a done cell is unchanged.
pub open spec fn after_install<Input, Output>(
    s: CellView<Input, Output>,
    w: core::task::Waker,
) -> CellView<Input, Output> {
    match s {
        CellView::Ongoing { input, waker } => if waker is Some {
            s
        } else {
            CellView::Ongoing { input, waker: Some(w) }
        },
        CellView::Done { .. } => s,
    }
}

/// The input handed out by `take_input`.
pub open spec fn input_of<Input, Output>(s: CellView<Input, Output>) -> Option<Input> {
    match s {
        CellView::Ongoing { input, .. } => input,
        CellView::Done { .. } => None,
    }
}

/// State after the input was taken; the waker stays.
pub open spec fn after_take<Input, Output>(s: CellView<Input, Output>) -> CellView<Input, Output> {
    match s {
        CellView::Ongoing { waker, .. } => CellView::Ongoing { input: None, waker },
        CellView::Done { .. } => s,
    }
}

/// State after completing with `output`; a done cell stays as it was.
pub open spec fn after_complete<Input, Output>(
    s: CellView<Input, Output>,
    output: Output,
) -> CellView<Input, Output> {
    match s {
        CellView::Ongoing { .. } => CellView::Done { output },
        CellView::Done { .. } => s,
    }
}

/// Result of completing: the installed waker, to be woken, if any.
pub open spec fn complete_result<Input, Output>(s: CellView<Input, Output>) -> Result<
    Option<core::task::Waker>,
    CellError,
> {
    match s {
        CellView::Ongoing { waker, .. } => Ok(waker),
        CellView::Done { .. } => Err(CellError::DoneTwice),
    }
}

/// The output that the consumer retrieves.
pub open spec fn value_of<Input, Output>(s: CellView<Input, Output>) -> Option<Output> {
    match s {
        CellView::Ongoing { .. } => None,
        CellView::Done { output } => Some(output),
    }
}

/// A first waker finds an unfinished cell ongoing (`Ok(false)`) and is the
/// one stored; any waker installed after completion finds the output there
/// (`Ok(true)`) and is not stored.
pub proof fn lemma_install_reports_completion<Input, Output>(
    s: CellView<Input, Output>,
    w: core::task::Waker,
    output: Output,
)
    requires
        s is Ongoing,
        s->waker is None,
    ensures
        install_result(s) == Ok::<bool, CellError>(false),
        stored_waker(after_install(s, w)) == Some(w),
        install_result(after_complete(s, output)) == Ok::<bool, CellError>(true),
        after_install(after_complete(s, output), w) == after_complete(s, output),
{
}

/// Completing a cell a second time is refused, and the first output stays.
pub proof fn lemma_complete_twice_refused<Input, Output>(
    s: CellView<Input, Output>,
    first: Output,
    second: Output,
)
    requires
        s is Ongoing,
    ensures
        complete_result(s) is Ok,
        complete_result(after_complete(s, first)) == Err::<Option<core::task::Waker>, CellError>(
            CellError::DoneTwice,
        ),
        after_complete(after_complete(s, first), second) == after_complete(s, first),
{
}

/// Installing a second waker on a cell that is still ongoing is refused:
/// the first waker stays stored and the second is never stored.
pub proof fn lemma_install_twice_refused<Input, Output>(
    s: CellView<Input, Output>,
    first: core::task::Waker,
    second: core::task::Waker,
)
    requires
        s is Ongoing,
        s->waker is None,
    ensures
        install_result(s) is Ok,
        install_result(after_install(s, first)) == Err::<bool, CellError>(
            CellError::WakerInstalledTwice,
        ),
        after_install(after_install(s, first), second) == after_install(s, first),
        stored_waker(after_install(after_install(s, first), second)) == Some(first),
{
}

/// Completion hands back exactly the waker that was installed, whatever
/// inputs were taken in between; a cell that never got one hands back none.
pub proof fn lemma_done_wakes_installed_waker<Input, Output>(
    s: CellView<Input, Output>,
    w: core::task::Waker,
    output: Output,
)
    requires
        s is Ongoing,
        s->waker is None,
    ensures
        complete_result(s) == Ok::<Option<core::task::Waker>, CellError>(None),
        complete_result(after_install(s, w)) == Ok::<Option<core::task::Waker>, CellError>(
            Some(w),
        ),
        complete_result(after_take(after_install(s, w))) == Ok::<
            Option<core::task::Waker>,
            CellError,
        >(Some(w)),
{
}

/// The input given to a fresh cell is handed out by the first `take_input`,
/// and never again.
pub proof fn lemma_take_input_once<Input, Output>(input: Input)
    ensures
        input_of(fresh_cell::<Input, Output>(Some(input))) == Some(input),
        input_of(after_take(fresh_cell::<Input, Output>(Some(input)))) is None,
{
}

/// Once the input is gone, no operation brings it back: every later
/// `take_input`, before or after completion, returns nothing.
pub proof fn lemma_input_stays_taken<Input, Output>(
    s: CellView<Input, Output>,
    w: core::task::Waker,
    output: Output,
)
    requires
        input_of(s) is None,
    ensures
        input_of(after_take(s)) is None,
        input_of(after_install(s, w)) is None,
        input_of(after_complete(s, output)) is None,
{
}

/// After completion, whatever else happens to the cell, the consumer
/// retrieves exactly the output that was stored.
pub proof fn lemma_value_is_completed_output<Input, Output>(
    s: CellView<Input, Output>,
    w: core::task::Waker,
    output: Output,
    other: Output,
)
    requires
        s is Ongoing,
    ensures
        value_of(after_complete(s, output)) == Some(output),
        value_of(after_take(after_complete(s, output))) == Some(output),
        value_of(after_install(after_complete(s, output), w)) == Some(output),
        value_of(after_complete(after_complete(s, output), other)) == Some(output),
{
}

impl<Input, Output> CompletionCell<Input, Output> {
    /// Creates an ongoing cell with no waker.
    pub fn new(input: Option<Input>) -> (r: Self)
        ensures
            r@ == fresh_cell::<Input, Output>(input),
    {
        CompletionCell::Ongoing { input, waker: None }
    }

    /// Registers the consumer's waker. Returns `Ok(true)` when the cell is
    /// already done, in which case the waker is dropped and the consumer
    /// must read the value at once instead of suspending.
    pub fn install_waker(&mut self, waker: core::task::Waker) -> (r: Result<bool, CellError>)
        ensures
            r == install_result(old(self)@),
            final(self)@ == after_install(old(self)@, waker),
    {
        match self {
            CompletionCell::Ongoing { input: _, waker: stored } => {
                if stored.is_some() {
                    Err(CellError::WakerInstalledTwice)
                } else {
                    *stored = Some(waker);
                    Ok(false)
                }
            },
            CompletionCell::Done { .. } => Ok(true),
        }
    }

    /// Removes the pre-supplied input, if the cell is ongoing and still has it.
    pub fn take_input(&mut self) -> (r: Option<Input>)
        ensures
            r == input_of(old(self)@),
            final(self)@ == after_take(old(self)@),
    {
        match self {
            CompletionCell::Ongoing { input, waker: _ } => input.take(),
            CompletionCell::Done { .. } => None,
        }
    }

    /// Stores `value` and returns the installed waker, to be woken once the
    /// caller has released its hold on the cell. A done cell is left as it
    /// was and refuses the call.
    pub fn done(&mut self, value: Output) -> (r: Result<Option<core::task::Waker>, CellError>)
        ensures
            final(self)@ == after_complete(old(self)@, value),
            r == complete_result(old(self)@),
    {
        let mut prev = CompletionCell::Done { output: value };
        core::mem::swap(self, &mut prev);
        match prev {
            CompletionCell::Ongoing { input: _, waker } => Ok(waker),
            CompletionCell::Done { .. } => {
                core::mem::swap(self, &mut prev);
                Err(CellError::DoneTwice)
            },
        }
    }

    /// Consumes the cell and returns its output, or `None` if it was not done.
    pub fn into_value(self) -> (r: Option<Output>)
        ensures
            r == value_of(self@),
    {
        match self {
            CompletionCell::Done { output } => Some(output),
            CompletionCell::Ongoing { .. } => None,
        }
    }

    /// Whether the output has been stored.
    pub fn is_done(&self) -> (r: bool)
        ensures
            r == self@ is Done,
    {
        match self {
            CompletionCell::Done { .. } => true,
            CompletionCell::Ongoing { .. } => false,
        }
    }
}

} // verus!
