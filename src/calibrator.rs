use vstd::prelude::*;

verus! {

/// Why a calibration stage refused to move on.
#[derive(Debug, Clone, Copy, PartialEq, Eq, Structural)]
pub enum CalibrationError {
    /// The noise estimate has not converged yet.
    NotReady,
}

/// The entry point of a calibration session: noise first, then amplitude, then tuning.
#[derive(Debug, Clone, Copy, PartialEq, Eq, Structural, Default)]
pub struct StartCalibration;

/// Progress of the noise stage: whether the noise estimate has reported convergence.
#[derive(Debug, Clone, Copy, PartialEq, Eq, Structural)]
pub struct NoiseStage {
    converged: bool,
}

/// The amplitude stage, reached only through a converged noise stage.
#[derive(Debug, Clone, Copy, PartialEq, Eq, Structural)]
pub struct AmplitudeStage;

/// Whether any of a run of convergence reports was positive.
pub open spec fn any_converged(reports: Seq<bool>) -> bool {
    exists|i: int| 0 <= i < reports.len() && reports[i]
}

impl StartCalibration {
    pub fn new() -> (r: Self)
        ensures
            r == StartCalibration,
    {
        StartCalibration
    }

    /// The first stage of calibration, noise calibration, with nothing reported yet.
    pub fn first_stage(self) -> (r: NoiseStage)
        ensures
            !r.is_converged_spec(),
    {
        NoiseStage { converged: false }
    }
}

impl NoiseStage {
    pub closed spec fn is_converged_spec(&self) -> bool {
        self.converged
    }

    /// Records what one noise update reported and hands the report back.
    pub fn record(&mut self, converged: bool) -> (r: bool)
        ensures
            r == converged,
            final(self).is_converged_spec() == (old(self).is_converged_spec() || converged),
    {
        self.converged = self.converged || converged;
        converged
    }

    pub fn is_converged(&self) -> (r: bool)
        ensures
            r == self.is_converged_spec(),
    {
        self.converged
    }

    /// Moves on to amplitude calibration; refused until convergence has been reported.
    pub fn next(self) -> (r: Result<AmplitudeStage, CalibrationError>)
        ensures
            self.is_converged_spec() ==> r == Ok::<AmplitudeStage, CalibrationError>(
                AmplitudeStage,
            ),
            !self.is_converged_spec() ==> r == Err::<AmplitudeStage, CalibrationError>(
                CalibrationError::NotReady,
            ),
    {
        if self.converged {
            Ok(AmplitudeStage)
        } else {
            Err(CalibrationError::NotReady)
        }
    }
}

/// The noise stage after a run of reports, starting from a fresh session.
pub open spec fn stage_after(reports: Seq<bool>) -> bool
    decreases reports.len(),
{
    if reports.len() == 0 {
        false
    } else {
        stage_after(reports.drop_last()) || reports.last()
    }
}

/// A fresh noise stage fed a run of reports through `record` ends converged exactly when
/// one of the reports was positive; so the move to the amplitude stage fails with
/// `NotReady` for as long as every report has been negative.
pub proof fn lemma_next_needs_convergence(reports: Seq<bool>)
    ensures
        stage_after(reports) == any_converged(reports),
    decreases reports.len(),
{
    if reports.len() > 0 {
        let t = reports.drop_last();
        lemma_next_needs_convergence(t);
        if any_converged(t) {
            let i = choose|i: int| 0 <= i < t.len() && t[i];
            assert(reports[i]);
        }
        if any_converged(reports) && !reports.last() {
            let i = choose|i: int| 0 <= i < reports.len() && reports[i];
            assert(t[i]);
        }
    }
}

} // verus!
