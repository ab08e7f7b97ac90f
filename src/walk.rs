use vstd::prelude::*;

use crate::dir::{descends, dir_decision};
use crate::status::{answered, Error, ErrorView, InteractiveMode, Metadata, RmStatus, StatusView};

verus! {

/// One pending offer: a path, and whether it is a directory whose children
/// have already been walked.
#[derive(Debug)]
pub struct Frame {
    pub path: String,
    pub visited: bool,
}

/// A [`Frame`] as plain values: the path and the visited flag.
pub type FrameView = (Seq<char>, bool);

impl View for Frame {
    type V = FrameView;

    open spec fn view(&self) -> FrameView {
        (self.path@, self.visited)
    }
}

/// What the caller does next for the frame just settled.
#[derive(Debug)]
pub enum Step {
    /// Remove the entity at this path.
    Delete(String),
    /// Leave the entity as it is.
    Skip,
    /// List the children of this directory and hand them to `descend`.
    List(String),
    /// Stop the walk with this error.
    Abort(Error),
}

/// A [`Step`] as plain values.
pub enum StepView {
    Delete(Seq<char>),
    Skip,
    List(Seq<char>),
    Abort(ErrorView),
}

impl View for Step {
    type V = StepView;

    open spec fn view(&self) -> StepView {
        match self {
            Step::Delete(p) => StepView::Delete(p@),
            Step::Skip => StepView::Skip,
            Step::List(p) => StepView::List(p@),
            Step::Abort(e) => StepView::Abort(e@),
        }
    }
}

/// A depth-first, post-order walk over the operands, held as an explicit
/// stack of pending offers whose top is the last element.
#[derive(Debug)]
pub struct Walk {
    stack: Vec<Frame>,
}

/// Fresh offers of `paths`, stacked so that the first path is on top.
pub open spec fn fresh_offers(paths: Seq<Seq<char>>) -> Seq<FrameView> {
    Seq::new(paths.len(), |j: int| (paths[paths.len() - 1 - j], false))
}

/// A step that only takes the top offer off or only puts offers on top.
pub open spec fn pushes_or_pops(before: Seq<FrameView>, after: Seq<FrameView>) -> bool {
    ||| before.len() > 0 && after == before.drop_last()
    ||| before.len() <= after.len() && after.subrange(0, before.len() as int) == before
}

/// What the caller does for an outcome. An accepted directory whose
/// children are still to be walked is walked first, as a descent would be:
/// a mode that accepts without asking does not skip the children.
pub open spec fn settled_step(path: Seq<char>, status: StatusView, unwalked: bool) -> StepView {
    match status {
        StatusView::Accept => if unwalked {
            StepView::List(path)
        } else {
            StepView::Delete(path)
        },
        StatusView::Descend(folder) => StepView::List(folder),
        StatusView::Declined => StepView::Skip,
        StatusView::Failed(e) => StepView::Abort(e),
    }
}

impl View for Walk {
    type V = Seq<FrameView>;

    closed spec fn view(&self) -> Seq<FrameView> {
        self.stack@.map_values(|f: Frame| f@)
    }
}

impl Walk {
    /// A walk over the operands, first operand first.
    pub fn new(roots: Vec<String>) -> (w: Walk)
        ensures
            w@ == fresh_offers(roots@.map_values(|s: String| s@)),
    {
        let ghost paths = roots@.map_values(|s: String| s@);
        let ghost n = roots.len() as int;
        let mut rest = roots;
        let mut stack: Vec<Frame> = Vec::new();
        while rest.len() > 0
            invariant
                n == paths.len(),
                rest.len() <= n,
                forall|j: int| 0 <= j < rest.len() ==> #[trigger] rest@[j]@ == paths[j],
                stack@.map_values(|f: Frame| f@) == Seq::new(
                    (n - rest.len()) as nat,
                    |j: int| (paths[n - 1 - j], false),
                ),
            decreases rest.len(),
        {
            let ghost before = rest@;
            let path = rest.pop().unwrap();
            assert(path@ == paths[rest.len() as int]) by {
                assert(before[rest.len() as int]@ == paths[rest.len() as int]);
            }
            let ghost prev = stack@.map_values(|f: Frame| f@);
            let ghost pv = path@;
            stack.push(Frame { path, visited: false });
            assert(stack@.map_values(|f: Frame| f@) =~= prev.push((pv, false)));
            assert(stack@.map_values(|f: Frame| f@) =~= Seq::new(
                (n - rest.len()) as nat,
                |j: int| (paths[n - 1 - j], false),
            ));
        }
        let w = Walk { stack };
        assert(w@ =~= fresh_offers(paths));
        w
    }

    /// Takes the top offer off the walk; `None` once the walk is done.
    pub fn next(&mut self) -> (r: Option<Frame>)
        ensures
            old(self)@.len() == 0 ==> r is None && final(self)@ == old(self)@,
            old(self)@.len() > 0 ==> r is Some && r->0@ == old(self)@.last()
                && final(self)@ == old(self)@.drop_last(),
            pushes_or_pops(old(self)@, final(self)@),
    {
        let r = self.stack.pop();
        proof {
            if old(self)@.len() == 0 {
                assert(self@.subrange(0, 0) =~= old(self)@);
            } else {
                assert(self@ =~= old(self)@.drop_last());
            }
        }
        r
    }

    /// Acts on the outcome for `frame`, just taken off by `next`.
    /// `unwalked` says that the frame is a directory whose children are
    /// still to be walked (see `dir::must_descend`). A descent puts the
    /// directory back, marked visited, below the children that `descend`
    /// will add; a failure drops everything still pending.
    pub fn settle(&mut self, frame: Frame, status: RmStatus, unwalked: bool) -> (r: Step)
        ensures
            r@ == settled_step(frame.path@, status@, unwalked),
            status@ matches StatusView::Descend(folder) ==> final(self)@ == old(self)@.push(
                (folder, true),
            ),
            status@ is Accept && unwalked ==> final(self)@ == old(self)@.push((frame.path@, true)),
            status@ is Accept && !unwalked ==> final(self)@ == old(self)@,
            status@ is Declined ==> final(self)@ == old(self)@,
            status@ is Failed ==> final(self)@ == Seq::<FrameView>::empty(),
            !(status@ is Failed) ==> pushes_or_pops(old(self)@, final(self)@),
    {
        proof {
            assert(old(self)@.subrange(0, old(self)@.len() as int) =~= old(self)@);
        }
        let folder = match status {
            RmStatus::Accept => {
                if !unwalked {
                    return Step::Delete(frame.path);
                }
                frame.path
            },
            RmStatus::Declined => return Step::Skip,
            RmStatus::Descend(folder) => folder,
            RmStatus::Failed(e) => {
                self.stack.clear();
                proof {
                    assert(self@ =~= Seq::<FrameView>::empty());
                }
                return Step::Abort(e);
            },
        };
        let again = Frame { path: folder.clone(), visited: true };
        self.stack.push(again);
        proof {
            assert(self@ =~= old(self)@.push((folder@, true)));
            assert(self@.subrange(0, old(self)@.len() as int) =~= old(self)@);
        }
        Step::List(folder)
    }

    /// Puts the children of the directory being descended into on top, the
    /// first child on top; a failed listing drops everything still pending.
    pub fn descend(&mut self, listing: Result<Vec<String>, Error>) -> (r: Option<Error>)
        ensures
            listing matches Ok(kids) ==> r is None && final(self)@ == old(self)@ + fresh_offers(
                kids@.map_values(|s: String| s@),
            ),
            listing matches Err(e) ==> r matches Some(f) && f@ == e@ && final(self)@
                == Seq::<FrameView>::empty(),
            listing is Ok ==> pushes_or_pops(old(self)@, final(self)@),
    {
        match listing {
            Ok(kids) => {
                let ghost paths = kids@.map_values(|s: String| s@);
                let ghost n = kids.len() as int;
                let ghost base = self@;
                let mut rest = kids;
                while rest.len() > 0
                    invariant
                        n == paths.len(),
                        rest.len() <= n,
                        forall|j: int| 0 <= j < rest.len() ==> #[trigger] rest@[j]@ == paths[j],
                        self@ == base + Seq::new(
                            (n - rest.len()) as nat,
                            |j: int| (paths[n - 1 - j], false),
                        ),
                    decreases rest.len(),
                {
                    let ghost before = rest@;
                    let path = rest.pop().unwrap();
                    assert(path@ == paths[rest.len() as int]) by {
                        assert(before[rest.len() as int]@ == paths[rest.len() as int]);
                    }
                    let ghost prev = self@;
                    let ghost pv = path@;
                    self.stack.push(Frame { path, visited: false });
                    assert(self@ =~= prev.push((pv, false)));
                    assert(self@ =~= base + Seq::new(
                        (n - rest.len()) as nat,
                        |j: int| (paths[n - 1 - j], false),
                    ));
                }
                assert(self@ =~= base + fresh_offers(paths));
                assert(self@.subrange(0, base.len() as int) =~= base);
                None
            },
            Err(e) => {
                self.stack.clear();
                proof {
                    assert(self@ =~= Seq::<FrameView>::empty());
                }
                Some(e)
            },
        }
    }

    /// Nothing is pending.
    pub fn is_done(&self) -> (r: bool)
        ensures
            r == (self@.len() == 0),
    {
        self.stack.len() == 0
    }
}

/// A non-empty directory under `recursive`, offered the first time, is
/// never deleted straight away: whatever the mode and the reply, the walk
/// lists its children first, skips it, or aborts.
pub proof fn lemma_first_offer_never_deleted(
    dir: bool,
    path: Seq<char>,
    metadata: Metadata,
    name: Seq<char>,
    mode: InteractiveMode,
    reply: Result<bool, ErrorView>,
)
    ensures
        ({
            let d = dir_decision(true, dir, path, metadata, name, mode, false, Ok(false));
            let step = settled_step(path, answered(d, reply), descends(true, false, false));
            &&& !(step is Delete)
            &&& step is Skip ==> d is Ask && reply == Ok::<bool, ErrorView>(false)
        }),
{
}

/// Post-order: while anything stands above a pending offer, each step of a
/// walk that neither aborts nor finishes leaves that offer, and all below it,
/// where they are. So the re-offer of a directory, put below its children by
/// `settle` and `descend`, is handed out by `next` only after every child, and
/// all that each child pushed in turn, has been taken off and resolved.
pub proof fn lemma_offer_waits_for_those_above(trace: Seq<Seq<FrameView>>, k: int)
    requires
        trace.len() > 0,
        0 <= k < trace[0].len(),
        forall|i: int| 0 <= i < trace.len() - 1 ==> pushes_or_pops(#[trigger] trace[i], trace[i + 1]),
        forall|i: int| 0 <= i < trace.len() - 1 ==> #[trigger] trace[i].len() > k + 1,
    ensures
        forall|i: int|
            0 <= i < trace.len() ==> #[trigger] trace[i].len() > k && trace[i].subrange(0, k + 1)
                == trace[0].subrange(0, k + 1),
    decreases trace.len(),
{
    if trace.len() > 1 {
        let shorter = trace.drop_last();
        assert forall|i: int| 0 <= i < shorter.len() - 1 implies pushes_or_pops(
            #[trigger] shorter[i],
            shorter[i + 1],
        ) by {
            assert(pushes_or_pops(trace[i], trace[i + 1]));
        }
        assert forall|i: int| 0 <= i < shorter.len() - 1 implies #[trigger] shorter[i].len() > k
            + 1 by {
            assert(trace[i].len() > k + 1);
        }
        lemma_offer_waits_for_those_above(shorter, k);
        let last = trace.len() - 1;
        let before = trace[last - 1];
        let after = trace[last];
        assert(shorter[last - 1] == before);
        assert(before.len() > k + 1);
        assert(pushes_or_pops(before, after));
        assert(after.subrange(0, k + 1) =~= before.subrange(0, k + 1)) by {
            if before.len() > 0 && after == before.drop_last() {
            } else {
                assert(after.subrange(0, before.len() as int) == before);
                assert forall|j: int| 0 <= j < k + 1 implies after[j] == before[j] by {
                    assert(after.subrange(0, before.len() as int)[j] == after[j]);
                }
            }
        }
        assert forall|i: int| 0 <= i < trace.len() implies #[trigger] trace[i].len() > k
            && trace[i].subrange(0, k + 1) == trace[0].subrange(0, k + 1) by {
            if i < last {
                assert(shorter[i] == trace[i]);
            }
        }
    }
}

} // verus!
