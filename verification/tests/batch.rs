use file_encryptor::batch::batch_decrypt_files;
use file_encryptor::batch::batch_encrypt_files;
use file_encryptor::batch::run_batch;
use file_encryptor::batch::BatchCoordinator;
use file_encryptor::batch::BatchKind;
use file_encryptor::batch::BatchProgress;
use file_encryptor::batch::BatchStep;
use file_encryptor::batch::FileOutcome;
use file_encryptor::error::EncryptionError;
use file_encryptor::policy::decryption_report;
use file_encryptor::policy::encryption_report;

fn ok(name: &str) -> FileOutcome {
    FileOutcome::Succeeded(encryption_report(name, 10, 1060, 28, true, 1))
}

fn missing(name: &str) -> FileOutcome {
    FileOutcome::Failed(EncryptionError::FileNotFound(name.to_string()))
}

#[test]
fn batch_counts_every_file_once() {
    let paths: Vec<String> = ["a", "b", "c", "d", "e"].iter().map(|s| s.to_string()).collect();
    let outcomes = vec![
        ok("a.enc"),
        missing("b"),
        ok("c.enc"),
        FileOutcome::Failed(EncryptionError::InvalidFileFormat("File is empty".to_string())),
        ok("e.enc"),
    ];
    let (result, signals) = run_batch(BatchKind::Encrypt, &paths, outcomes);
    assert_eq!(result.total_files, 5);
    assert_eq!(result.successful, 3);
    assert_eq!(result.failed, 2);
    assert_eq!(result.successful + result.failed, 5);
    assert_eq!(result.errors.len(), 2);
    assert_eq!(result.errors[0], "Failed to encrypt b: File not found: b");
    assert_eq!(result.errors[1], "Failed to encrypt d: Invalid file format: File is empty");
    assert_eq!(result.results.len(), 3);
    assert_eq!(result.results[0].output_path, "a.enc");
    assert_eq!(result.results[1].output_path, "c.enc");
    assert_eq!(result.results[2].output_path, "e.enc");
    assert_eq!(signals.len(), 6);
    for i in 0..5 {
        assert_eq!(signals[i], BatchProgress { completed: i, total: 5, is_complete: false });
    }
    assert_eq!(signals[5], BatchProgress { completed: 5, total: 5, is_complete: true });
    assert_eq!(signals.iter().filter(|s| s.is_complete).count(), 1);
    assert!(signals.windows(2).all(|w| w[0].completed <= w[1].completed));
}

#[test]
fn batch_of_nothing_still_completes() {
    let (result, signals) = run_batch(BatchKind::Decrypt, &Vec::new(), Vec::new());
    assert_eq!(result.total_files, 0);
    assert_eq!(result.successful, 0);
    assert_eq!(result.failed, 0);
    assert!(result.errors.is_empty());
    assert_eq!(signals, vec![BatchProgress { completed: 0, total: 0, is_complete: true }]);
}

#[test]
fn batch_where_all_fail() {
    let paths: Vec<String> = vec!["x.enc".to_string(), "y.enc".to_string()];
    let outcomes = vec![FileOutcome::Failed(EncryptionError::InvalidPassword), missing("y.enc")];
    let (result, signals) = run_batch(BatchKind::Decrypt, &paths, outcomes);
    assert_eq!(result.successful, 0);
    assert_eq!(result.failed, 2);
    assert_eq!(result.errors[0], "Failed to decrypt x.enc: Invalid password");
    assert_eq!(result.errors[1], "Failed to decrypt y.enc: File not found: y.enc");
    assert_eq!(signals.len(), 3);
    assert!(signals[2].is_complete);
}

#[test]
fn coordinator_steps_in_order_and_closes_once() {
    let mut batch = BatchCoordinator::new(BatchKind::Decrypt, 2);
    assert_eq!(
        batch.next_step(),
        BatchStep::Process { index: 0, progress: BatchProgress { completed: 0, total: 2, is_complete: false } }
    );
    assert_eq!(
        batch.next_step(),
        BatchStep::Process { index: 0, progress: BatchProgress { completed: 0, total: 2, is_complete: false } }
    );
    assert!(batch.record("a.enc", FileOutcome::Failed(EncryptionError::InvalidPassword)).is_none());
    assert_eq!(
        batch.next_step(),
        BatchStep::Process { index: 1, progress: BatchProgress { completed: 1, total: 2, is_complete: false } }
    );
    let warning = batch.record(
        "b.enc",
        FileOutcome::SucceededUnmoved(
            decryption_report("b.txt", 1060, 10, 1),
            EncryptionError::FileExists("out/b.txt".to_string()),
        ),
    );
    assert_eq!(
        warning.unwrap(),
        "Failed to move decrypted file to output directory: File already exists: out/b.txt"
    );
    assert_eq!(
        batch.next_step(),
        BatchStep::Complete { progress: BatchProgress { completed: 2, total: 2, is_complete: true } }
    );
    assert_eq!(batch.next_step(), BatchStep::Finished);
    assert_eq!(batch.next_step(), BatchStep::Finished);
    let result = batch.finish();
    assert_eq!(result.total_files, 2);
    assert_eq!(result.successful, 1);
    assert_eq!(result.failed, 1);
    assert_eq!(result.errors, vec!["Failed to decrypt a.enc: Invalid password".to_string()]);
    assert_eq!(result.results.len(), 1);
    assert_eq!(result.results[0].output_path, "b.txt");
}

#[test]
fn batch_encrypt_and_decrypt_name_their_failures() {
    let paths = vec!["a".to_string(), "b".to_string()];
    let (result, signals) = batch_encrypt_files(&paths, vec![ok("a.enc"), missing("b")]);
    assert_eq!((result.total_files, result.successful, result.failed), (2, 1, 1));
    assert_eq!(result.errors, vec!["Failed to encrypt b: File not found: b".to_string()]);
    assert_eq!(signals.len(), 3);
    let (result, signals) = batch_decrypt_files(&paths, vec![missing("a"), ok("b.txt")]);
    assert_eq!((result.total_files, result.successful, result.failed), (2, 1, 1));
    assert_eq!(result.errors, vec!["Failed to decrypt a: File not found: a".to_string()]);
    assert_eq!(signals.iter().filter(|s| s.is_complete).count(), 1);
}
