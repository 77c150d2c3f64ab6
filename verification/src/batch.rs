//! A batch: many files, one after the other, each one's outcome recorded,
//! none of them able to stop the rest.

use vstd::prelude::*;
use vstd::string::*;
use crate::error::EncryptionError;
use crate::types::BatchResult;
use crate::types::EncryptionResult;

verus! {

/// What a batch does to its files.
#[derive(Clone, Copy, Debug, PartialEq, Eq, Structural)]
pub enum BatchKind {
    Encrypt,
    Decrypt,
}

/// How one file of a batch ended.
#[derive(Clone, Debug)]
pub enum FileOutcome {
    /// The file was processed.
    Succeeded(EncryptionResult),
    /// The file was decrypted, but the output could not be moved to the
    /// target directory. This is a success with a warning.
    SucceededUnmoved(EncryptionResult, EncryptionError),
    /// The file failed.
    Failed(EncryptionError),
}

/// A progress signal: `completed` of `total` files are behind us. The one
/// signal with `is_complete` set ends the batch.
#[derive(Clone, Copy, Debug, PartialEq, Eq, Structural)]
pub struct BatchProgress {
    pub completed: usize,
    pub total: usize,
    pub is_complete: bool,
}

/// What the caller does next.
#[derive(Clone, Copy, Debug, PartialEq, Eq, Structural)]
pub enum BatchStep {
    /// Send the signal, process the file at `index`, record its outcome.
    Process { index: usize, progress: BatchProgress },
    /// Send the closing signal.
    Complete { progress: BatchProgress },
    /// Nothing is left to do.
    Finished,
}

/// The message recorded for a failed file.
pub open spec fn failure_message(kind: BatchKind, path: Seq<char>, error: EncryptionError) -> Seq<
    char,
> {
    (match kind {
        BatchKind::Encrypt => "Failed to encrypt "@,
        BatchKind::Decrypt => "Failed to decrypt "@,
    }) + path + ": "@ + error.spec_message()
}

/// The warning given for a decrypted file that stayed where it was.
pub open spec fn unmoved_warning(error: EncryptionError) -> Seq<char> {
    "Failed to move decrypted file to output directory: "@ + error.spec_message()
}

/// The number of failures among the first `n` outcomes.
pub open spec fn failures(outcomes: Seq<FileOutcome>, n: int) -> int
    decreases n,
{
    if n <= 0 {
        0
    } else {
        failures(outcomes, n - 1) + (if outcomes[n - 1] is Failed {
            1int
        } else {
            0int
        })
    }
}

/// The results of the successes among the first `n` outcomes, in their
/// order.
pub open spec fn kept_results(outcomes: Seq<FileOutcome>, n: int) -> Seq<EncryptionResult>
    decreases n,
{
    if n <= 0 {
        Seq::empty()
    } else {
        match outcomes[n - 1] {
            FileOutcome::Succeeded(r) => kept_results(outcomes, n - 1).push(r),
            FileOutcome::SucceededUnmoved(r, _) => kept_results(outcomes, n - 1).push(r),
            FileOutcome::Failed(_) => kept_results(outcomes, n - 1),
        }
    }
}

/// The messages of the failures among the first `n` outcomes, in their
/// order.
pub open spec fn kept_errors(
    kind: BatchKind,
    paths: Seq<String>,
    outcomes: Seq<FileOutcome>,
    n: int,
) -> Seq<Seq<char>>
    decreases n,
{
    if n <= 0 {
        Seq::empty()
    } else {
        match outcomes[n - 1] {
            FileOutcome::Failed(e) => kept_errors(kind, paths, outcomes, n - 1).push(
                failure_message(kind, paths[n - 1]@, e),
            ),
            _ => kept_errors(kind, paths, outcomes, n - 1),
        }
    }
}

/// The texts of a list of messages.
pub open spec fn texts_of(messages: Seq<String>) -> Seq<Seq<char>> {
    Seq::new(messages.len(), |i: int| messages[i]@)
}

/// The state of a batch.
pub struct BatchCoordinator {
    pub kind: BatchKind,
    pub total_files: usize,
    pub successful: usize,
    pub failed: usize,
    pub errors: Vec<String>,
    pub results: Vec<EncryptionResult>,
    pub completion_signalled: bool,
}

impl BatchCoordinator {
    /// The number of files whose outcome is recorded.
    pub open spec fn processed(&self) -> int {
        self.successful + self.failed
    }

    /// Every recorded file counts once, as a success with its result or as
    /// a failure with its message, and the closing signal is not sent
    /// before the last file.
    pub open spec fn well_formed(&self) -> bool {
        &&& self.processed() <= self.total_files
        &&& self.errors@.len() == self.failed
        &&& self.results@.len() == self.successful
        &&& self.completion_signalled ==> self.processed() == self.total_files
    }

    /// A batch of `total_files` files, none of them processed yet.
    pub fn new(kind: BatchKind, total_files: usize) -> (batch: Self)
        ensures
            batch.well_formed(),
            batch.kind == kind,
            batch.total_files == total_files,
            batch.successful == 0,
            batch.failed == 0,
            !batch.completion_signalled,
    {
        BatchCoordinator {
            kind,
            total_files,
            successful: 0,
            failed: 0,
            errors: Vec::new(),
            results: Vec::new(),
            completion_signalled: false,
        }
    }

    /// What comes next: the next file in order with its signal while files
    /// are left; then, once, the closing signal; then nothing.
    pub fn next_step(&mut self) -> (step: BatchStep)
        requires
            old(self).well_formed(),
        ensures
            final(self).well_formed(),
            final(self).kind == old(self).kind,
            final(self).total_files == old(self).total_files,
            final(self).successful == old(self).successful,
            final(self).failed == old(self).failed,
            final(self).errors@ == old(self).errors@,
            final(self).results@ == old(self).results@,
            step == (if old(self).processed() < old(self).total_files {
                BatchStep::Process {
                    index: old(self).processed() as usize,
                    progress: BatchProgress {
                        completed: old(self).processed() as usize,
                        total: old(self).total_files,
                        is_complete: false,
                    },
                }
            } else if !old(self).completion_signalled {
                BatchStep::Complete {
                    progress: BatchProgress {
                        completed: old(self).total_files,
                        total: old(self).total_files,
                        is_complete: true,
                    },
                }
            } else {
                BatchStep::Finished
            }),
            final(self).completion_signalled == (old(self).processed() == old(self).total_files),
    {
        let processed: usize = self.successful + self.failed;
        if processed < self.total_files {
            BatchStep::Process {
                index: processed,
                progress: BatchProgress {
                    completed: processed,
                    total: self.total_files,
                    is_complete: false,
                },
            }
        } else if !self.completion_signalled {
            self.completion_signalled = true;
            BatchStep::Complete {
                progress: BatchProgress {
                    completed: self.total_files,
                    total: self.total_files,
                    is_complete: true,
                },
            }
        } else {
            BatchStep::Finished
        }
    }

    /// Records how the next file ended. A failure is counted and its
    /// message kept; it stops nothing. A decrypted file that could not be
    /// moved counts as a success, and the warning for it is handed back.
    pub fn record(&mut self, path: &str, outcome: FileOutcome) -> (warning: Option<String>)
        requires
            old(self).well_formed(),
            old(self).processed() < old(self).total_files,
        ensures
            final(self).well_formed(),
            final(self).kind == old(self).kind,
            final(self).total_files == old(self).total_files,
            final(self).completion_signalled == old(self).completion_signalled,
            final(self).processed() == old(self).processed() + 1,
            match outcome {
                FileOutcome::Succeeded(r) => {
                    &&& final(self).failed == old(self).failed
                    &&& final(self).errors@ == old(self).errors@
                    &&& final(self).results@ == old(self).results@.push(r)
                    &&& warning is None
                },
                FileOutcome::SucceededUnmoved(r, e) => {
                    &&& final(self).failed == old(self).failed
                    &&& final(self).errors@ == old(self).errors@
                    &&& final(self).results@ == old(self).results@.push(r)
                    &&& (warning matches Some(w) && w@ == unmoved_warning(e))
                },
                FileOutcome::Failed(e) => {
                    &&& final(self).failed == old(self).failed + 1
                    &&& final(self).results@ == old(self).results@
                    &&& final(self).errors@.len() == old(self).errors@.len() + 1
                    &&& final(self).errors@.subrange(0, old(self).errors@.len() as int) == old(
                        self,
                    ).errors@
                    &&& final(self).errors@[old(self).errors@.len() as int]@ == failure_message(
                        old(self).kind,
                        path@,
                        e,
                    )
                    &&& warning is None
                },
            },
    {
        match outcome {
            FileOutcome::Succeeded(result) => {
                self.results.push(result);
                self.successful = self.successful + 1;
                None
            },
            FileOutcome::SucceededUnmoved(result, error) => {
                self.results.push(result);
                self.successful = self.successful + 1;
                let detail = error.message();
                Some(
                    String::from_str("Failed to move decrypted file to output directory: ").concat(
                        detail.as_str(),
                    ),
                )
            },
            FileOutcome::Failed(error) => {
                let head = match self.kind {
                    BatchKind::Encrypt => "Failed to encrypt ",
                    BatchKind::Decrypt => "Failed to decrypt ",
                };
                let detail = error.message();
                let message = String::from_str(head).concat(path).concat(": ").concat(
                    detail.as_str(),
                );
                let ghost before = self.errors@;
                self.errors.push(message);
                self.failed = self.failed + 1;
                assert(self.errors@.subrange(0, before.len() as int) =~= before);
                None
            },
        }
    }

    /// The batch's result as it stands.
    pub fn finish(self) -> (result: BatchResult)
        requires
            self.well_formed(),
        ensures
            result.total_files == self.total_files,
            result.successful == self.successful,
            result.failed == self.failed,
            result.errors@ == self.errors@,
            result.results@ == self.results@,
            result.errors@.len() == result.failed,
            result.results@.len() == result.successful,
            result.successful + result.failed <= result.total_files,
    {
        BatchResult {
            total_files: self.total_files,
            successful: self.successful,
            failed: self.failed,
            errors: self.errors,
            results: self.results,
        }
    }
}

/// Whether a result and a list of signals are those of a batch over the
/// given outcomes. Every file is counted once: the successes and the
/// failures add up to the number of files, the failures are exactly the
/// files that failed, and there is one message for each of them. The signals
/// count up from zero in steps of one, so they never fall, and after them
/// comes the closing signal, once.
pub open spec fn is_run_of(
    kind: BatchKind,
    paths: Seq<String>,
    outcomes: Seq<FileOutcome>,
    result: BatchResult,
    signals: Seq<BatchProgress>,
) -> bool {
    &&& result.total_files == outcomes.len()
    &&& result.successful + result.failed == outcomes.len()
    &&& result.failed == failures(outcomes, outcomes.len() as int)
    &&& result.errors@.len() == result.failed
    &&& result.results@.len() == result.successful
    &&& result.results@ == kept_results(outcomes, outcomes.len() as int)
    &&& texts_of(result.errors@) == kept_errors(kind, paths, outcomes, outcomes.len() as int)
    &&& signals.len() == outcomes.len() + 1
    &&& forall|i: int|
        0 <= i < outcomes.len() ==> #[trigger] signals[i] == (BatchProgress {
            completed: i as usize,
            total: outcomes.len() as usize,
            is_complete: false,
        })
    &&& signals[outcomes.len() as int] == (BatchProgress {
        completed: outcomes.len() as usize,
        total: outcomes.len() as usize,
        is_complete: true,
    })
}

/// Runs a whole batch over outcomes that are already known, one for each
/// path, and collects the signals that the batch sends.
pub fn run_batch(kind: BatchKind, paths: &Vec<String>, outcomes: Vec<FileOutcome>) -> (run: (
    BatchResult,
    Vec<BatchProgress>,
))
    requires
        paths@.len() == outcomes@.len(),
    ensures
        is_run_of(kind, paths@, outcomes@, run.0, run.1@),
{
    let ghost all = outcomes@;
    let total: usize = outcomes.len();
    let mut remaining = outcomes;
    let mut batch = BatchCoordinator::new(kind, total);
    let mut signals: Vec<BatchProgress> = Vec::new();
    let mut i: usize = 0;
    while i < total
        invariant
            i <= total,
            total == all.len(),
            paths@.len() == total,
            remaining@ == all.subrange(i as int, total as int),
            batch.well_formed(),
            batch.kind == kind,
            batch.total_files == total,
            batch.processed() == i,
            !batch.completion_signalled,
            batch.failed == failures(all, i as int),
            batch.results@ == kept_results(all, i as int),
            texts_of(batch.errors@) == kept_errors(kind, paths@, all, i as int),
            signals@.len() == i,
            forall|j: int|
                0 <= j < i ==> #[trigger] signals@[j] == (BatchProgress {
                    completed: j as usize,
                    total: total,
                    is_complete: false,
                }),
        decreases total - i,
    {
        let step = batch.next_step();
        match step {
            BatchStep::Process { index, progress } => {
                signals.push(progress);
            },
            _ => {},
        }
        let outcome = remaining.remove(0);
        assert(outcome == all[i as int]);
        assert(remaining@ =~= all.subrange(i as int + 1, total as int));
        let ghost errors_before = batch.errors@;
        let _ = batch.record(paths[i].as_str(), outcome);
        proof {
            let errors_after = batch.errors@;
            if all[i as int] is Failed {
                assert forall|k: int| 0 <= k < errors_before.len() implies errors_after[k]
                    == errors_before[k] by {
                    assert(errors_after.subrange(0, errors_before.len() as int)[k]
                        == errors_after[k]);
                }
                assert(texts_of(errors_after) =~= texts_of(errors_before).push(
                    failure_message(kind, paths@[i as int]@, all[i as int]->Failed_0),
                ));
            }
        }
        i = i + 1;
    }
    let closing = batch.next_step();
    match closing {
        BatchStep::Complete { progress } => {
            signals.push(progress);
        },
        _ => {},
    }
    (batch.finish(), signals)
}

/// The result and the signals of a batch of encryptions whose outcomes are
/// known.
pub fn batch_encrypt_files(paths: &Vec<String>, outcomes: Vec<FileOutcome>) -> (run: (
    BatchResult,
    Vec<BatchProgress>,
))
    requires
        paths@.len() == outcomes@.len(),
    ensures
        is_run_of(BatchKind::Encrypt, paths@, outcomes@, run.0, run.1@),
{
    run_batch(BatchKind::Encrypt, paths, outcomes)
}

/// The result and the signals of a batch of decryptions whose outcomes are
/// known.
pub fn batch_decrypt_files(paths: &Vec<String>, outcomes: Vec<FileOutcome>) -> (run: (
    BatchResult,
    Vec<BatchProgress>,
))
    requires
        paths@.len() == outcomes@.len(),
    ensures
        is_run_of(BatchKind::Decrypt, paths@, outcomes@, run.0, run.1@),
{
    run_batch(BatchKind::Decrypt, paths, outcomes)
}

} // verus!
