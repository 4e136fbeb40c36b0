//! The decisions of one submission: a unit is sent to the engine, then
//! pictures are pulled until the engine needs more input or faults.
//!
//! The engine is driven by the caller, which performs each step and hands
//! its status back here; this module decides what comes next and what the
//! submission returns.
use crate::error::fault_message;
use crate::error::rejected_message;
use crate::error::DecodeErrorKind;
use crate::error::Dav1dError;
use vstd::prelude::*;

verus! {

/// What one pull from the engine reported.
#[derive(Debug, Clone, Copy, PartialEq, Eq, Structural)]
pub enum PullStatus {
    /// A picture was produced.
    Produced,
    /// No picture is ready until more input arrives.
    NeedMoreData,
    /// The engine failed while producing output.
    Fault,
}

/// Where a submission stands.
#[derive(Debug, Clone, Copy, PartialEq, Eq, Structural)]
pub enum SubmitStatus {
    /// The unit was accepted and pictures are being pulled.
    Draining,
    /// The engine needs more input: the pulled pictures are the result.
    Complete,
    /// The engine refused the unit.
    Rejected,
    /// The engine faulted while pictures were being pulled.
    Faulted,
}

/// The status of a pull whose engine return code is `ret`, where `again` is
/// the engine's code for "no picture ready".
pub open spec fn pull_status_of(ret: i32, again: i32) -> PullStatus {
    if ret == again {
        PullStatus::NeedMoreData
    } else if ret != 0 {
        PullStatus::Fault
    } else {
        PullStatus::Produced
    }
}

/// Classifies the return code of a pull.
pub fn classify_pull(ret: i32, again: i32) -> (r: PullStatus)
    ensures
        r == pull_status_of(ret, again),
{
    if ret == again {
        PullStatus::NeedMoreData
    } else if ret != 0 {
        PullStatus::Fault
    } else {
        PullStatus::Produced
    }
}

/// A submission as a value: the pictures pulled so far, in the order the
/// engine emitted them, and where it stands.
pub ghost struct SubmitView<T> {
    pub pictures: Seq<T>,
    pub status: SubmitStatus,
}

/// The submission right after the unit was sent, given the send's return
/// code (zero when the engine accepted the unit).
pub open spec fn start_spec<T>(send_ret: i32) -> SubmitView<T> {
    SubmitView {
        pictures: Seq::empty(),
        status: if send_ret == 0 {
            SubmitStatus::Draining
        } else {
            SubmitStatus::Rejected
        },
    }
}

/// One pull: its return code and the frame handed back with it. A finished
/// submission ignores further pulls.
pub open spec fn step_spec<T>(s: SubmitView<T>, ret: i32, again: i32, pic: T) -> SubmitView<T> {
    if s.status != SubmitStatus::Draining {
        s
    } else {
        match pull_status_of(ret, again) {
            PullStatus::Produced => SubmitView { pictures: s.pictures.push(pic), status: s.status },
            PullStatus::NeedMoreData => SubmitView { pictures: s.pictures, status: SubmitStatus::Complete },
            PullStatus::Fault => SubmitView { pictures: s.pictures, status: SubmitStatus::Faulted },
        }
    }
}

/// The submission after a sequence of pulls.
pub open spec fn drain_spec<T>(s: SubmitView<T>, again: i32, pulls: Seq<(i32, T)>) -> SubmitView<T>
    decreases pulls.len(),
{
    if pulls.len() == 0 {
        s
    } else {
        drain_spec(step_spec(s, pulls[0].0, again, pulls[0].1), again, pulls.drop_first())
    }
}

/// The pictures that a sequence of pulls emits: those of its leading
/// successful pulls.
pub open spec fn emitted<T>(again: i32, pulls: Seq<(i32, T)>) -> Seq<T>
    decreases pulls.len(),
{
    if pulls.len() == 0 {
        Seq::empty()
    } else if pull_status_of(pulls[0].0, again) == PullStatus::Produced {
        seq![pulls[0].1] + emitted(again, pulls.drop_first())
    } else {
        Seq::empty()
    }
}

/// What a finished submission returns: its pictures when the engine asked
/// for more input, an error of the matching kind and message otherwise.
pub open spec fn outcome_matches<T>(s: SubmitView<T>, r: Result<Seq<T>, Dav1dError>) -> bool {
    match r {
        Ok(pictures) => s.status == SubmitStatus::Complete && pictures == s.pictures,
        Err(e) => (s.status == SubmitStatus::Rejected && e.spec_kind()
            == DecodeErrorKind::IngestionRejected && e.spec_name() == rejected_message()) || (
        s.status == SubmitStatus::Faulted && e.spec_kind() == DecodeErrorKind::DecodeFault
            && e.spec_name() == fault_message()),
    }
}

/// Draining an ongoing submission appends exactly the pictures that the
/// pulls emit, and the pulls emit no more pictures than there are pulls.
pub proof fn lemma_drain_appends_emitted<T>(s: SubmitView<T>, again: i32, pulls: Seq<(i32, T)>)
    requires
        s.status == SubmitStatus::Draining,
    ensures
        drain_spec(s, again, pulls).pictures == s.pictures + emitted(again, pulls),
        emitted(again, pulls).len() <= pulls.len(),
    decreases pulls.len(),
{
    if pulls.len() == 0 {
        assert(s.pictures + Seq::<T>::empty() =~= s.pictures);
    } else {
        let next = step_spec(s, pulls[0].0, again, pulls[0].1);
        let rest = pulls.drop_first();
        if pull_status_of(pulls[0].0, again) == PullStatus::Produced {
            lemma_drain_appends_emitted(next, again, rest);
            assert(next.pictures + emitted(again, rest) =~= s.pictures + (seq![pulls[0].1] + emitted(again, rest)));
        } else {
            lemma_finished_is_fixed(next, again, rest);
            assert(s.pictures + Seq::<T>::empty() =~= s.pictures);
        }
    }
}

/// Pulls do not change a finished submission.
pub proof fn lemma_finished_is_fixed<T>(s: SubmitView<T>, again: i32, pulls: Seq<(i32, T)>)
    requires
        s.status != SubmitStatus::Draining,
    ensures
        drain_spec(s, again, pulls) == s,
    decreases pulls.len(),
{
    if pulls.len() > 0 {
        lemma_finished_is_fixed(step_spec(s, pulls[0].0, again, pulls[0].1), again, pulls.drop_first());
    }
}

/// A submission returns no more pictures than the engine produced during
/// it: whatever the pulls report, the pictures held are those that the
/// leading successful pulls emitted, in their order, and none when the unit
/// was refused.
pub proof fn lemma_pictures_bounded<T>(send_ret: i32, again: i32, pulls: Seq<(i32, T)>)
    ensures
        drain_spec(start_spec::<T>(send_ret), again, pulls).pictures == (if send_ret == 0 {
            emitted(again, pulls)
        } else {
            Seq::empty()
        }),
        drain_spec(start_spec::<T>(send_ret), again, pulls).pictures.len() <= pulls.len(),
{
    let s = start_spec::<T>(send_ret);
    if send_ret == 0 {
        lemma_drain_appends_emitted(s, again, pulls);
        assert(s.pictures + emitted(again, pulls) =~= emitted(again, pulls));
    } else {
        lemma_finished_is_fixed(s, again, pulls);
    }
}

/// Submitting when the engine has nothing ready, so that the first pull
/// asks for more input, returns no pictures and no error.
pub proof fn lemma_idle_submit_yields_nothing<T>(again: i32, pulls: Seq<(i32, T)>)
    requires
        pulls.len() > 0,
        pull_status_of(pulls[0].0, again) == PullStatus::NeedMoreData,
    ensures
        drain_spec(start_spec::<T>(0), again, pulls) == (SubmitView::<T> {
            pictures: Seq::empty(),
            status: SubmitStatus::Complete,
        }),
        forall|r: Result<Seq<T>, Dav1dError>|
            outcome_matches(drain_spec(start_spec::<T>(0), again, pulls), r) ==> r == Ok::<
                Seq<T>,
                Dav1dError,
            >(Seq::empty()),
{
    let s = start_spec::<T>(0);
    let next = step_spec(s, pulls[0].0, again, pulls[0].1);
    lemma_finished_is_fixed(next, again, pulls.drop_first());
}

/// The state of one submission while the caller drives the engine.
pub struct Submission<T> {
    pictures: Vec<T>,
    status: SubmitStatus,
}

impl<T> View for Submission<T> {
    type V = SubmitView<T>;

    closed spec fn view(&self) -> SubmitView<T> {
        SubmitView { pictures: self.pictures@, status: self.status }
    }
}

impl<T> Submission<T> {
    /// Starts a submission from the return code of sending the unit.
    pub fn start(send_ret: i32) -> (s: Submission<T>)
        ensures
            s@ == start_spec::<T>(send_ret),
    {
        let status = if send_ret == 0 {
            SubmitStatus::Draining
        } else {
            SubmitStatus::Rejected
        };
        Submission { pictures: Vec::new(), status }
    }

    /// Whether the engine is to be asked for another picture.
    pub fn wants_picture(&self) -> (b: bool)
        ensures
            b == (self@.status == SubmitStatus::Draining),
    {
        match self.status {
            SubmitStatus::Draining => true,
            _ => false,
        }
    }

    /// Where the submission stands.
    pub fn status(&self) -> (r: SubmitStatus)
        ensures
            r == self@.status,
    {
        self.status
    }

    /// Takes in one pull: its return code and the frame handed back with
    /// it, which is kept only when a picture was produced. Returns whether
    /// the engine is to be asked again.
    pub fn on_picture(&mut self, ret: i32, again: i32, pic: T) -> (more: bool)
        requires
            old(self)@.status == SubmitStatus::Draining,
        ensures
            final(self)@ == step_spec(old(self)@, ret, again, pic),
            more == (final(self)@.status == SubmitStatus::Draining),
    {
        match classify_pull(ret, again) {
            PullStatus::Produced => {
                self.pictures.push(pic);
                true
            },
            PullStatus::NeedMoreData => {
                self.status = SubmitStatus::Complete;
                false
            },
            PullStatus::Fault => {
                self.status = SubmitStatus::Faulted;
                false
            },
        }
    }

    /// The result of a finished submission. On a fault the pictures already
    /// pulled are dropped.
    pub fn finish(self) -> (r: Result<Vec<T>, Dav1dError>)
        requires
            self@.status != SubmitStatus::Draining,
        ensures
            outcome_matches(
                self@,
                match r {
                    Ok(v) => Ok(v@),
                    Err(e) => Err(e),
                },
            ),
    {
        match self.status {
            SubmitStatus::Rejected => Err(Dav1dError::ingestion_rejected()),
            SubmitStatus::Faulted => Err(Dav1dError::decode_fault()),
            _ => Ok(self.pictures),
        }
    }
}

} // verus!
