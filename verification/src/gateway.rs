//! Classifying the outcome of the cluster's `snapshot list` command.
//!
//! The caller runs `<gluster_bin> snapshot list` and reports what happened
//! as a [`CommandOutcome`]; what comes back to the rest of the tool — the
//! listing on success, which message on which failure — is decided and
//! verified here.  Output bytes are decoded leniently: invalid sequences are
//! replaced, never rejected, so the tool does not fail on stray bytes in
//! snapshot names or diagnostics.

use vstd::prelude::*;

verus! {

/// The outcome of running the snapshot-listing command.
///
/// `LaunchFailed` carries the OS diagnostic when the process could not be
/// started at all; `Exited` carries the exit status and both captured
/// output streams as complete buffers.
pub enum CommandOutcome {
    LaunchFailed(String),
    Exited { success: bool, stdout: Vec<u8>, stderr: Vec<u8> },
}

/// What lenient UTF-8 decoding makes of a byte sequence.  The result
/// depends on the bytes alone: every invalid sequence is replaced by the
/// same replacement character.
pub uninterp spec fn lossy_of(b: Seq<u8>) -> Seq<char>;

/// Relies on `String::from_utf8_lossy`: decodes the bytes, replacing
/// invalid sequences rather than failing.
#[verifier::external_body]
fn utf8_lossy(b: &Vec<u8>) -> (r: String)
    ensures
        r@ == lossy_of(b@),
{
    String::from_utf8_lossy(b).into_owned()
}

pub open spec fn launch_err_msg(io: Seq<char>) -> Seq<char> {
    "Error executing command: gluster snapshot list\n"@ + io
}

pub open spec fn exit_err_msg(stdout: Seq<u8>, stderr: Seq<u8>) -> Seq<char> {
    "Error getting snapshots: "@ + lossy_of(stdout) + lossy_of(stderr)
}

/// Turns the outcome of the `snapshot list` command into the snapshot
/// listing, or into the error message the tool reports.
///
/// On a zero exit status the result is exactly the decoded standard output.
/// On a non-zero exit status the result is an error holding both decoded
/// streams, stdout first.  When the process could not be launched, the
/// result is an error naming the attempted command and the OS diagnostic.
pub fn remove_old_snapshots_from(outcome: CommandOutcome) -> (r: Result<String, String>)
    ensures
        (outcome matches CommandOutcome::LaunchFailed(io) ==> r matches Err(m) && m@
            == launch_err_msg(io@)),
        (outcome matches CommandOutcome::Exited { success: true, stdout, stderr } ==> r matches Ok(
            s,
        ) && s@ == lossy_of(stdout@)),
        (outcome matches CommandOutcome::Exited { success: false, stdout, stderr } ==> r matches Err(
            m,
        ) && m@ == exit_err_msg(stdout@, stderr@)),
{
    match outcome {
        CommandOutcome::LaunchFailed(io) => {
            let mut m = String::from_str("Error executing command: gluster snapshot list\n");
            m.append(io.as_str());
            Err(m)
        },
        CommandOutcome::Exited { success, stdout, stderr } => {
            if success {
                Ok(utf8_lossy(&stdout))
            } else {
                let mut m = String::from_str("Error getting snapshots: ");
                let out_text = utf8_lossy(&stdout);
                let err_text = utf8_lossy(&stderr);
                m.append(out_text.as_str());
                m.append(err_text.as_str());
                Err(m)
            }
        },
    }
}

} // verus!
