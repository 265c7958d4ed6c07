//! Choosing which candidate config file wins, and classifying failures.
//!
//! The config file `ggsnap.conf` is looked for in three places, in this
//! order: next to the running executable, in `/etc/`, and in `/etc/ggsnap/`.
//! The caller attempts to open and read each candidate and reports what
//! happened as a [`FileAttempt`]; the decision — which content is parsed, or
//! which error with which message comes back — is made and verified here.

use vstd::prelude::*;

use crate::config::Config;
use crate::config::ConfigModel;
use crate::config::ConfigReadErr;
use crate::config::config_model;
use crate::parse::parse_config;
use crate::parse::parse_config_model;

verus! {

/// The outcome of trying to open and read one candidate config file.
///
/// A file that cannot be opened at all — it is absent, or the path cannot
/// even be formed, as when the runtime does not know the executable's own
/// location — is `NotOpenable`.  A file that opens and reads completely is
/// `Content`, with everything it holds.  A file that opens but whose read
/// then fails is `ReadFailure`, with the I/O diagnostic.
pub enum FileAttempt {
    NotOpenable,
    Content(String),
    ReadFailure(String),
}

pub open spec fn read_err_current_msg(io: Seq<char>) -> Seq<char> {
    "Error: Can not read ggsnap.conf in current directory\n"@ + io
}

pub open spec fn read_err_at_msg(path: Seq<char>, io: Seq<char>) -> Seq<char> {
    "Error: Can not read config file: "@ + path + "\n"@ + io
}

pub open spec fn not_found_msg() -> Seq<char> {
    "Config file: ggsnap.conf is not found in current dir, /etc/ or /etc/ggsnap/"@
}

/// Which result the resolver returns for the three candidates' outcomes.
///
/// The first candidate that opened wins: its content is parsed, and nothing
/// of the later candidates matters.  A read failure at the winning candidate
/// is `ReadFileErr` and ends the search at once.  If no candidate opened,
/// the result is `ConfigNotFound`, naming all three locations.
pub open spec fn resolve_model(
    first: FileAttempt,
    second: FileAttempt,
    third: FileAttempt,
) -> Result<ConfigModel, (ConfigReadErr, Seq<char>)> {
    match first {
        FileAttempt::Content(c) => parse_config_model(c@),
        FileAttempt::ReadFailure(io) => Err(
            (ConfigReadErr::ReadFileErr, read_err_current_msg(io@)),
        ),
        FileAttempt::NotOpenable => match second {
            FileAttempt::Content(c) => parse_config_model(c@),
            FileAttempt::ReadFailure(io) => Err(
                (ConfigReadErr::ReadFileErr, read_err_at_msg("/etc/ggsnap.conf"@, io@)),
            ),
            FileAttempt::NotOpenable => match third {
                FileAttempt::Content(c) => parse_config_model(c@),
                FileAttempt::ReadFailure(io) => Err(
                    (
                        ConfigReadErr::ReadFileErr,
                        read_err_at_msg("/etc/ggsnap/ggsnap.conf"@, io@),
                    ),
                ),
                FileAttempt::NotOpenable => Err((ConfigReadErr::ConfigNotFound, not_found_msg())),
            },
        },
    }
}

fn read_err_current(io: &String) -> (r: String)
    ensures
        r@ == read_err_current_msg(io@),
{
    let mut m = String::from_str("Error: Can not read ggsnap.conf in current directory\n");
    m.append(io.as_str());
    m
}

fn read_err_at(path: &str, io: &String) -> (r: String)
    ensures
        r@ == read_err_at_msg(path@, io@),
{
    let mut m = String::from_str("Error: Can not read config file: ");
    m.append(path);
    m.append("\n");
    m.append(io.as_str());
    m
}

/// Resolves the configuration from the outcomes of the three candidate
/// files, in priority order: next to the executable, `/etc/ggsnap.conf`,
/// `/etc/ggsnap/ggsnap.conf`.  The first openable candidate's content — and
/// only its content — is parsed.
pub fn get_config_from(first: FileAttempt, second: FileAttempt, third: FileAttempt) -> (r: Result<
    Config,
    (ConfigReadErr, String),
>)
    ensures
        (r matches Ok(c) ==> resolve_model(first, second, third) == Ok::<
            ConfigModel,
            (ConfigReadErr, Seq<char>),
        >(config_model(c))),
        (r matches Err(e) ==> resolve_model(first, second, third) == Err::<
            ConfigModel,
            (ConfigReadErr, Seq<char>),
        >((e.0, e.1@))),
{
    match first {
        FileAttempt::Content(c) => parse_config(&c),
        FileAttempt::ReadFailure(io) => Err((ConfigReadErr::ReadFileErr, read_err_current(&io))),
        FileAttempt::NotOpenable => match second {
            FileAttempt::Content(c) => parse_config(&c),
            FileAttempt::ReadFailure(io) => Err(
                (ConfigReadErr::ReadFileErr, read_err_at("/etc/ggsnap.conf", &io)),
            ),
            FileAttempt::NotOpenable => match third {
                FileAttempt::Content(c) => parse_config(&c),
                FileAttempt::ReadFailure(io) => Err(
                    (ConfigReadErr::ReadFileErr, read_err_at("/etc/ggsnap/ggsnap.conf", &io)),
                ),
                FileAttempt::NotOpenable => {
                    let m = String::from_str(
                        "Config file: ggsnap.conf is not found in current dir, /etc/ or /etc/ggsnap/",
                    );
                    Err((ConfigReadErr::ConfigNotFound, m))
                },
            },
        },
    }
}

} // verus!
