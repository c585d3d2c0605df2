use freya::engine::{run_transform, terminal_message};
use freya::{CompressMessage, CompressionLevel, ControllerState, Direction, KeyAction, PickRequest};

fn compressible_data(len: usize) -> Vec<u8> {
    (0..len).map(|i| (i / 64 % 7) as u8).collect()
}

#[test]
fn starts_idle_with_the_initial_status() {
    let c = ControllerState::new();
    assert!(!c.exit_requested);
    assert!(!c.running);
    assert!(!c.decompressing);
    assert_eq!((c.progress_bytes, c.progress_total), (0, 0));
    assert_eq!(c.status_message, " Press 'o' to compress or 'd' to decompress a file");
    assert!(c.last_result.is_none());
    assert!(c.finished_at.is_none());
    assert_eq!(c.level, CompressionLevel::Normal);
}

#[test]
fn quit_requests_exit() {
    let mut c = ControllerState::new();
    assert_eq!(c.on_key(KeyAction::Quit), None);
    assert!(c.exit_requested);
}

#[test]
fn level_keys_step_the_level_when_idle() {
    let mut c = ControllerState::new();
    c.on_key(KeyAction::RaiseLevel);
    assert_eq!(c.level, CompressionLevel::Best);
    c.on_key(KeyAction::LowerLevel);
    c.on_key(KeyAction::LowerLevel);
    assert_eq!(c.level, CompressionLevel::Fast);
}

#[test]
fn level_is_locked_while_running() {
    let mut c = ControllerState::new();
    c.begin_compress(String::from("a.txt"));
    c.on_key(KeyAction::RaiseLevel);
    assert_eq!(c.level, CompressionLevel::Normal);
    c.on_key(KeyAction::LowerLevel);
    assert_eq!(c.level, CompressionLevel::Normal);
}

#[test]
fn start_keys_only_request_a_picker() {
    let mut c = ControllerState::new();
    assert_eq!(c.on_key(KeyAction::StartCompress), Some(PickRequest::CompressInput));
    assert_eq!(c.on_key(KeyAction::StartCompressTo), Some(PickRequest::CompressInputAndSave));
    assert_eq!(c.on_key(KeyAction::StartDecompress), Some(PickRequest::DecompressInput));
    assert!(!c.running);
}

#[test]
fn cancelled_pick_only_updates_the_status() {
    let mut c = ControllerState::new();
    let level_before = c.level;
    c.pick_cancelled();
    assert!(!c.running);
    assert!(!c.exit_requested);
    assert!(c.last_result.is_none());
    assert!(c.finished_at.is_none());
    assert_eq!((c.progress_bytes, c.progress_total), (0, 0));
    assert_eq!(c.level, level_before);
    assert_eq!(c.status_message, "Not Compressing ");
}

#[test]
fn begin_compress_derives_the_output_path_and_locks_in() {
    let mut c = ControllerState::new();
    let job = c.begin_compress(String::from("/home/me/notes.txt"));
    assert!(c.running);
    assert!(!c.decompressing);
    assert_eq!((c.progress_bytes, c.progress_total), (0, 0));
    assert_eq!(c.status_message, " Compressing notes.txt [Normal]");
    assert_eq!(job.input_path, "/home/me/notes.txt");
    assert_eq!(job.output_path, "/home/me/notes.txt.zst");
    assert_eq!(job.direction, Direction::Compress);
    assert_eq!(job.level, CompressionLevel::Normal);
}

#[test]
fn begin_compress_to_prefers_the_chosen_output() {
    let mut c = ControllerState::new();
    let job = c.begin_compress_to(String::from("a/b.txt"), Some(String::from("elsewhere/c.zst")));
    assert_eq!(job.output_path, "elsewhere/c.zst");
    assert_eq!(c.status_message, " Compressing b.txt");

    let mut c = ControllerState::new();
    let job = c.begin_compress_to(String::from("a/b.txt"), None);
    assert_eq!(job.output_path, "a/b.txt.zst");
}

#[test]
fn begin_decompress_strips_the_extension() {
    let mut c = ControllerState::new();
    let job = c.begin_decompress(String::from("/data/backup.zst"));
    assert!(c.running);
    assert!(c.decompressing);
    assert_eq!(c.status_message, " Decompressing backup.zst");
    assert_eq!(job.output_path, "/data/backup");
    assert_eq!(job.direction, Direction::Decompress);
}

#[test]
fn starting_again_while_running_supersedes_the_job() {
    let mut c = ControllerState::new();
    c.begin_compress(String::from("first.txt"));
    c.apply_message(CompressMessage::Progress { bytes_processed: 10, total_bytes: 20 }, 0);
    let job = c.begin_compress(String::from("second.txt"));
    assert!(c.running);
    assert_eq!((c.progress_bytes, c.progress_total), (0, 0));
    assert_eq!(job.input_path, "second.txt");
}

#[test]
fn progress_with_known_total_updates_the_fraction() {
    let mut c = ControllerState::new();
    c.begin_compress(String::from("a"));
    let terminal = c.apply_message(
        CompressMessage::Progress { bytes_processed: 50, total_bytes: 200 },
        0,
    );
    assert!(!terminal);
    assert_eq!((c.progress_bytes, c.progress_total), (50, 200));
    assert!(c.running);
}

#[test]
fn progress_with_zero_total_changes_nothing() {
    let mut c = ControllerState::new();
    c.begin_compress(String::from("a"));
    c.apply_message(CompressMessage::Progress { bytes_processed: 30, total_bytes: 100 }, 0);
    let terminal = c.apply_message(
        CompressMessage::Progress { bytes_processed: 99, total_bytes: 0 },
        0,
    );
    assert!(!terminal);
    assert_eq!((c.progress_bytes, c.progress_total), (30, 100));
    assert!(c.running);
}

#[test]
fn error_resets_progress_and_shows_the_text() {
    let mut c = ControllerState::new();
    c.begin_decompress(String::from("a.zst"));
    let terminal = c.apply_message(CompressMessage::Error(String::from("file not found")), 0);
    assert!(terminal);
    assert!(!c.running);
    assert!(!c.decompressing);
    assert_eq!((c.progress_bytes, c.progress_total), (0, 0));
    assert_eq!(c.status_message, " Error: file not found");
    assert!(c.finished_at.is_none());
    assert!(c.last_result.is_none());
}

#[test]
fn dismiss_fires_only_after_the_delay() {
    let mut c = ControllerState::new();
    c.begin_compress(String::from("a"));
    c.apply_message(
        CompressMessage::Finished {
            original_size: 1,
            compressed_size: 1,
            output_path: String::from("a.zst"),
        },
        1000,
    );
    assert_eq!(c.finished_at, Some(1000));
    assert!(!c.tick_dismiss(2999));
    assert_eq!(c.finished_at, Some(1000));
    assert_eq!((c.progress_bytes, c.progress_total), (1, 1));
    assert!(c.tick_dismiss(3000));
    assert!(c.finished_at.is_none());
    // Dropping back to idle also clears the progress display.
    assert_eq!((c.progress_bytes, c.progress_total), (0, 0));
    assert!(!c.tick_dismiss(5000));
}

#[test]
fn cancelled_pick_after_a_shown_result_changes_only_the_status() {
    let mut c = ControllerState::new();
    c.begin_compress(String::from("a.txt"));
    c.apply_message(
        CompressMessage::Finished {
            original_size: 5,
            compressed_size: 14,
            output_path: String::from("a.txt.zst"),
        },
        1000,
    );
    let result_before = c.last_result.clone();
    assert_eq!(c.on_key(KeyAction::StartCompress), Some(PickRequest::CompressInput));
    // The start key itself changes nothing while the result is showing.
    assert_eq!((c.progress_bytes, c.progress_total), (1, 1));
    assert_eq!(c.finished_at, Some(1000));
    c.pick_cancelled();
    assert_eq!(c.status_message, "Not Compressing ");
    assert_eq!((c.progress_bytes, c.progress_total), (1, 1));
    assert_eq!(c.last_result, result_before);
    assert_eq!(c.finished_at, Some(1000));
    assert!(!c.running);
}

#[test]
fn compress_two_hundred_thousand_bytes_at_best() {
    let data = compressible_data(200_000);
    let mut c = ControllerState::new();
    c.on_key(KeyAction::RaiseLevel); // Normal -> Best
    assert_eq!(c.level, CompressionLevel::Best);
    let job = c.begin_compress(String::from("/tmp/report.txt"));

    let (msgs, result) = run_transform(job.direction, job.level, &data);
    for m in msgs {
        assert!(!c.apply_message(m, 0));
    }
    let terminal = terminal_message(data.len() as u64, &result, &None, &job.output_path);
    let compressed_len = result.as_ref().unwrap().len() as u64;
    match &terminal {
        CompressMessage::Finished { original_size, compressed_size, output_path } => {
            assert_eq!(*original_size, 200_000);
            assert_eq!(*compressed_size, compressed_len);
            assert!(*compressed_size < *original_size);
            assert_eq!(output_path, "/tmp/report.txt.zst");
        }
        _ => panic!("expected Finished"),
    }

    assert!(c.apply_message(terminal, 42));
    assert!(!c.running);
    assert_eq!((c.progress_bytes, c.progress_total), (1, 1));
    assert_eq!(c.status_message, " Compression complete!");
    assert_eq!(c.finished_at, Some(42));

    let permyriad = compressed_len as u128 * 10_000 / 200_000;
    let expected_ratio = format!("{}.{:02}", permyriad / 100, permyriad % 100);
    let expected_summary = format!(
        "\nCompression successful!\nSaved to: /tmp/report.txt.zst\nOriginal: 200000 bytes\nCompressed: {} bytes ({}% of original)\n",
        compressed_len, expected_ratio
    );
    assert_eq!(c.last_result.as_deref(), Some(expected_summary.as_str()));
}

#[test]
fn decompress_restores_the_two_hundred_thousand_bytes() {
    let data = compressible_data(200_000);
    let (_, compressed) = run_transform(Direction::Compress, CompressionLevel::Best, &data);
    let compressed = compressed.unwrap();

    let mut c = ControllerState::new();
    let job = c.begin_decompress(String::from("/tmp/report.txt.zst"));
    assert_eq!(job.output_path, "/tmp/report.txt");

    let (msgs, result) = run_transform(job.direction, job.level, &compressed);
    for m in msgs {
        c.apply_message(m, 0);
    }
    let terminal = terminal_message(compressed.len() as u64, &result, &None, &job.output_path);
    match &terminal {
        CompressMessage::Finished { original_size, compressed_size, .. } => {
            assert_eq!(*original_size, compressed.len() as u64);
            assert_eq!(*compressed_size, 200_000);
        }
        _ => panic!("expected Finished"),
    }
    assert_eq!(result.unwrap(), data);

    assert!(c.apply_message(terminal, 0));
    assert_eq!(c.status_message, " Decompression complete!");
    let summary = c.last_result.unwrap();
    let expected_summary = format!(
        "\nDecompression successful!\nSaved to: /tmp/report.txt\nCompressed: {} bytes\nDecompressed: 200000 bytes\n",
        compressed.len()
    );
    assert_eq!(summary, expected_summary);
}
