use ggsnap_utils::CommandOutcome;
use ggsnap_utils::remove_old_snapshots_from;

#[test]
fn gateway_returns_listing() {
    let listing = "snap_vol_2018.11.01\nsnap_vol_2018.11.02\n";
    let r = remove_old_snapshots_from(CommandOutcome::Exited {
        success: true,
        stdout: listing.as_bytes().to_vec(),
        stderr: Vec::new(),
    });
    assert_eq!(r.unwrap(), listing);
}

#[test]
fn gateway_failure_contains_both_streams() {
    let r = remove_old_snapshots_from(CommandOutcome::Exited {
        success: false,
        stdout: b"partial output".to_vec(),
        stderr: b"volume does not exist".to_vec(),
    });
    let msg = r.unwrap_err();
    assert_eq!(msg, "Error getting snapshots: partial outputvolume does not exist");
    assert!(msg.contains("partial output"));
    assert!(msg.contains("volume does not exist"));
}

#[test]
fn gateway_launch_failure() {
    let r = remove_old_snapshots_from(CommandOutcome::LaunchFailed(String::from(
        "No such file or directory (os error 2)",
    )));
    assert_eq!(
        r.unwrap_err(),
        "Error executing command: gluster snapshot list\nNo such file or directory (os error 2)"
    );
}

#[test]
fn gateway_replaces_invalid_bytes() {
    let r = remove_old_snapshots_from(CommandOutcome::Exited {
        success: true,
        stdout: vec![0xff, b'a'],
        stderr: Vec::new(),
    });
    assert_eq!(r.unwrap(), "\u{FFFD}a");
}
