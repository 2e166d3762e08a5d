//! Delegated command execution: building the argument vector for the
//! external `aws` tool's bucket-listing operation, and classifying the
//! captured output of the spawned process.
//!
//! The blocking spawn itself is outside this crate; callers hand the
//! reported [`ProcessOutcome`] back in and the classification here
//! decides, for every possible outcome, what the operation returns.

use crate::discovery::default_name;
use vstd::prelude::*;
use vstd::string::StrSliceExecFns;
use vstd::string::StringExecFns;

verus! {

/// The name of the external command-line tool that performs the actual
/// cloud operation.
pub fn aws_command_name() -> (r: String)
    ensures
        r@ == "aws"@,
{
    String::from_str("aws")
}

/// Runtime test for whether a profile name is the literal `default`.
pub fn is_default_profile(profile: &str) -> (r: bool)
    ensures
        r == (profile@ == default_name()),
{
    let len = profile.unicode_len();
    if len != 7 {
        proof {
            if profile@ == default_name() {
                assert(profile@.len() == 7);
            }
        }
        return false;
    }
    let c0 = profile.get_char(0);
    let c1 = profile.get_char(1);
    let c2 = profile.get_char(2);
    let c3 = profile.get_char(3);
    let c4 = profile.get_char(4);
    let c5 = profile.get_char(5);
    let c6 = profile.get_char(6);
    let r = c0 == 'd' && c1 == 'e' && c2 == 'f' && c3 == 'a' && c4 == 'u' && c5 == 'l' && c6
        == 't';
    proof {
        if r {
            assert(profile@ =~= default_name());
        } else {
            if profile@ == default_name() {
                assert(c0 == profile@[0] && c1 == profile@[1] && c2 == profile@[2] && c3
                    == profile@[3] && c4 == profile@[4] && c5 == profile@[5] && c6 == profile@[6]);
                assert(false);
            }
        }
    }
    r
}

/// The argument vector for the bucket-listing operation under the given
/// profile, in the order handed to the external tool after its command
/// name: the fixed operation arguments `s3 ls`, preceded for any profile
/// other than the literal `default` by the selection pair
/// `--profile <name>`.
pub open spec fn s3_ls_args(profile: Seq<char>) -> Seq<Seq<char>> {
    if profile == default_name() {
        seq!["s3"@, "ls"@]
    } else {
        seq!["--profile"@, profile, "s3"@, "ls"@]
    }
}

/// Build the argument vector of [`s3_ls_args`] for the given profile.
pub fn build_s3_ls_args(profile: &str) -> (args: Vec<String>)
    ensures
        args@.map_values(|a: String| a@) == s3_ls_args(profile@),
{
    let mut args: Vec<String> = Vec::new();
    if !is_default_profile(profile) {
        args.push(String::from_str("--profile"));
        args.push(profile.to_owned());
    }
    args.push(String::from_str("s3"));
    args.push(String::from_str("ls"));
    proof {
        assert(args@.map_values(|a: String| a@) =~= s3_ls_args(profile@));
    }
    args
}

/// One delegated execution's outcome as the operating system reports it:
/// either the process ran to termination with its output captured, or it
/// could not be started at all.
pub enum ProcessOutcome {
    /// The process terminated: whether it reported a successful exit
    /// status, and its captured standard output and standard error, as
    /// raw bytes.
    Completed { success: bool, stdout: Vec<u8>, stderr: Vec<u8> },
    /// The process could not be started; the message describes the
    /// failure as the operating system reported it.
    SpawnFailed { message: String },
}

/// The text that lenient UTF-8 decoding yields for the given bytes.
pub uninterp spec fn lossy_decode(bytes: Seq<u8>) -> Seq<char>;

/// Relies on String::from_utf8_lossy: the decoded text is a function of
/// the bytes alone; valid UTF-8 passes through unchanged and each
/// invalid sequence is replaced rather than rejected.
#[verifier::external_body]
fn decode_output(bytes: &Vec<u8>) -> (r: String)
    ensures
        r@ == lossy_decode(bytes@),
{
    String::from_utf8_lossy(bytes.as_slice()).into_owned()
}

/// What the bucket-listing operation returns for each possible outcome
/// of the delegated execution: a successful exit returns the leniently
/// decoded standard output verbatim; an unsuccessful exit returns the
/// leniently decoded standard error; a process that could not be
/// started returns the spawn failure's description.
pub open spec fn classified_result(outcome: ProcessOutcome) -> Result<Seq<char>, Seq<char>> {
    match outcome {
        ProcessOutcome::Completed { success, stdout, stderr } => if success {
            Ok(lossy_decode(stdout@))
        } else {
            Err(lossy_decode(stderr@))
        },
        ProcessOutcome::SpawnFailed { message } => Err(message@),
    }
}

/// Classify one delegated execution's outcome, exactly as
/// [`classified_result`] states.
pub fn list_s3_buckets_result(outcome: ProcessOutcome) -> (r: Result<String, String>)
    ensures
        match r {
            Ok(t) => classified_result(outcome) == Ok::<Seq<char>, Seq<char>>(t@),
            Err(m) => classified_result(outcome) == Err::<Seq<char>, Seq<char>>(m@),
        },
{
    match outcome {
        ProcessOutcome::Completed { success, stdout, stderr } => {
            if success {
                Ok(decode_output(&stdout))
            } else {
                Err(decode_output(&stderr))
            }
        },
        ProcessOutcome::SpawnFailed { message } => Err(message),
    }
}

} // verus!
