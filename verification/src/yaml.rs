//! The raw YAML accessors' decisions.
//!
//! The YAML blob is owned by the filesystem alone: no in-memory mirror, no
//! parsing, no validation. The callers perform the filesystem steps and hand
//! their outcomes here as plain values; these functions decide, exactly,
//! what each handler answers.

use vstd::prelude::*;

verus! {

/// What one attempt to read the proxy configuration file found.
pub enum ReadOutcome {
    /// The file does not exist: a normal state, not an error.
    Absent,
    /// The file was read whole, with this content.
    Content(String),
    /// The file exists but reading it failed, with the I/O error's text.
    Failed(String),
}

/// What one filesystem write step (directory creation, file write) did.
pub enum StepOutcome {
    Done,
    /// The step failed, with the I/O error's text.
    Failed(String),
}

/// The message reported when the YAML file exists but cannot be read.
pub open spec fn read_error_message(e: Seq<char>) -> Seq<char> {
    "Failed to read config YAML: "@ + e
}

/// The message reported when the configuration directory cannot be created.
pub open spec fn create_dir_error_message(e: Seq<char>) -> Seq<char> {
    "Failed to create config dir: "@ + e
}

/// The message reported when writing the YAML file failed.
pub open spec fn write_error_message(e: Seq<char>) -> Seq<char> {
    "Failed to save config YAML: "@ + e
}

/// Answer of the YAML read handler, given what the read attempt found.
///
/// An absent file reads as the empty string, indistinguishable from an empty
/// configuration; content comes back exactly as it stands on disk; only an
/// I/O failure on an existing file is an error.
pub fn get_config_yaml(read: ReadOutcome) -> (r: Result<String, String>)
    ensures
        r is Ok <==> !(read is Failed),
        read is Absent ==> (r matches Ok(text) && text@ == Seq::<char>::empty()),
        read matches ReadOutcome::Content(content) ==> (r matches Ok(text) && text@ == content@),
        read matches ReadOutcome::Failed(e) ==> (r matches Err(m) && m@ == read_error_message(
            e@,
        )),
{
    match read {
        ReadOutcome::Absent => Ok(String::new()),
        ReadOutcome::Content(content) => Ok(content),
        ReadOutcome::Failed(e) => Err(
            String::from_str("Failed to read config YAML: ").concat(e.as_str()),
        ),
    }
}

/// Answer of the YAML save handler, given the outcome of creating the
/// configuration directory and — only when that succeeded — of writing the
/// file, truncating whatever it held.
///
/// The save succeeds exactly when both steps did; each failure is reported
/// with the step's own message around the I/O error's text.
pub fn save_config_yaml(create_dir: StepOutcome, write: Option<StepOutcome>) -> (r: Result<
    (),
    String,
>)
    requires
        write is Some <==> create_dir is Done,
    ensures
        r is Ok <==> (create_dir is Done && write matches Some(StepOutcome::Done)),
        create_dir matches StepOutcome::Failed(e) ==> (r matches Err(m) && m@
            == create_dir_error_message(e@)),
        write matches Some(StepOutcome::Failed(e)) ==> (r matches Err(m) && m@
            == write_error_message(e@)),
{
    match create_dir {
        StepOutcome::Failed(e) => Err(
            String::from_str("Failed to create config dir: ").concat(e.as_str()),
        ),
        StepOutcome::Done => match write {
            Some(StepOutcome::Done) => Ok(()),
            Some(StepOutcome::Failed(e)) => Err(
                String::from_str("Failed to save config YAML: ").concat(e.as_str()),
            ),
            None => unreached(),
        },
    }
}

} // verus!
