use yambar_disk::config::AppArgs;
use yambar_disk::poll::{conclude_cycle, diagnostic, poll_cycle, Cycle, Emission};
use yambar_disk::sample::{OsError, SampleError};
use yambar_disk::space::{DiskSpace, FsStats};

fn args(path: &str, poll_interval: u32) -> AppArgs {
    AppArgs::new(Some(String::from(path)), Some(poll_interval)).unwrap()
}

fn reading(total_blocks: u64, free_blocks: u64, block_size: u64) -> DiskSpace {
    DiskSpace::from_statvfs(FsStats { total_blocks, free_blocks, block_size })
}

fn missing() -> SampleError {
    SampleError::Os(OsError { code: 2, message: String::from("ENOENT: No such file or directory") })
}

#[test]
fn a_reading_is_written_as_a_record() {
    let cycle = conclude_cycle(&args("/", 1000), Ok(reading(1000, 250, 4096)));
    assert_eq!(
        cycle,
        Cycle {
            emission: Emission::Record(String::from(
                "free|int|1024000\nused|int|3072000\ntotal|int|4096000\n\
                 percent_free|range:0-100|25\npercent_used|range:0-100|75\n\n"
            )),
            sleep_ms: 1000,
        }
    );
}

#[test]
fn a_failure_is_written_as_a_diagnostic() {
    let cycle = conclude_cycle(&args("/mnt/backup", 250), Err(missing()));
    assert_eq!(
        cycle,
        Cycle {
            emission: Emission::Diagnostic(String::from(
                "Failed to get disk space for /mnt/backup: ENOENT: No such file or directory"
            )),
            sleep_ms: 250,
        }
    );
}

#[test]
fn a_failure_does_not_end_the_loop() {
    let config = args("/mnt/backup", 500);
    let failed = conclude_cycle(&config, Err(missing()));
    assert!(matches!(failed.emission, Emission::Diagnostic(_)));
    assert_eq!(failed.sleep_ms, 500);
    let recovered = conclude_cycle(&config, Ok(reading(1000, 250, 4096)));
    assert!(matches!(recovered.emission, Emission::Record(_)));
    assert_eq!(recovered.sleep_ms, 500);
    let failed_again = conclude_cycle(&config, Err(SampleError::Inconsistent(FsStats {
        total_blocks: 1,
        free_blocks: 2,
        block_size: 512,
    })));
    assert!(matches!(failed_again.emission, Emission::Diagnostic(_)));
    assert_eq!(failed_again.sleep_ms, 500);
}

#[test]
fn the_sleep_is_the_configured_interval() {
    for interval in [0u32, 1, 1000, 60_000, u32::MAX] {
        let cycle = conclude_cycle(&args("/", interval), Ok(reading(8, 4, 512)));
        assert_eq!(cycle.sleep_ms, u64::from(interval));
        let cycle = conclude_cycle(&args("/", interval), Err(missing()));
        assert_eq!(cycle.sleep_ms, u64::from(interval));
    }
}

#[test]
fn diagnostic_names_the_path_and_the_reason() {
    assert_eq!(
        diagnostic("/home", &missing()),
        "Failed to get disk space for /home: ENOENT: No such file or directory"
    );
    let odd =
        SampleError::Inconsistent(FsStats { total_blocks: 1, free_blocks: 2, block_size: 512 });
    assert_eq!(
        diagnostic("/", &odd),
        "Failed to get disk space for /: filesystem reports more free blocks than blocks"
    );
    let huge =
        SampleError::TooLarge(FsStats { total_blocks: u64::MAX, free_blocks: 0, block_size: 2 });
    assert_eq!(
        diagnostic("/srv/data", &huge),
        "Failed to get disk space for /srv/data: filesystem size in bytes does not fit in 64 bits"
    );
}

#[test]
fn diagnostic_is_a_single_line() {
    let text = diagnostic("/home", &missing());
    assert!(!text.contains('\n'));
}

#[test]
fn a_cycle_on_the_root_filesystem_writes_a_record() {
    let cycle = poll_cycle(&args("/", 1000));
    assert_eq!(cycle.sleep_ms, 1000);
    match cycle.emission {
        Emission::Record(record) => {
            assert_eq!(record.matches('\n').count(), 6);
            assert!(record.starts_with("free|int|"));
            assert!(record.ends_with("\n\n"));
        }
        Emission::Diagnostic(text) => panic!("expected a record, got: {}", text),
    }
}

#[test]
fn a_cycle_on_a_missing_path_writes_a_diagnostic_and_goes_on() {
    let config = args("/no/such/directory/for/yambar-disk", 200);
    for _ in 0..3 {
        let cycle = poll_cycle(&config);
        assert_eq!(cycle.sleep_ms, 200);
        assert_eq!(
            cycle.emission,
            Emission::Diagnostic(String::from(
                "Failed to get disk space for /no/such/directory/for/yambar-disk: \
                 ENOENT: No such file or directory"
            ))
        );
    }
}
