//! The decisions of the command line: which networks to generate, which option combinations
//! are refused, and how the password is cut from what was read.
use vstd::prelude::*;
use vstd::slice::{slice_subrange, slice_to_vec};
use crate::daemon::MIN_VALIDITY;

verus! {

/// Why the command line was refused.
#[derive(Clone, Copy, Debug, PartialEq, Eq, Structural)]
pub enum ArgError {
    /// `--validity` is below 60 seconds.
    ValidityTooSmall,
    /// `--daemon` was given without `--output-dir`.
    DaemonNeedsOutputDir,
}

/// The message printed for a refused command line.
pub open spec fn spec_arg_error_message(e: ArgError) -> Seq<char> {
    match e {
        ArgError::ValidityTooSmall => "error: --validity must be >= 60 seconds"@,
        ArgError::DaemonNeedsOutputDir => "error: --daemon requires --output-dir"@,
    }
}

impl ArgError {
    /// The message printed for this refusal.
    pub fn message(&self) -> (r: String)
        ensures
            r@ == spec_arg_error_message(*self),
    {
        match self {
            ArgError::ValidityTooSmall => "error: --validity must be >= 60 seconds".to_owned(),
            ArgError::DaemonNeedsOutputDir => "error: --daemon requires --output-dir".to_owned(),
        }
    }
}

/// The networks to generate and the refusals of the command line, checked in this order:
/// an epoch shorter than 60 seconds, then a daemon without an output directory. When neither
/// `--tor` nor `--i2p` is given, both networks are generated.
pub fn check_args(tor: bool, i2p: bool, validity: u64, daemon: bool, has_output_dir: bool) -> (r:
    Result<(bool, bool), ArgError>)
    ensures
        validity < MIN_VALIDITY ==> r == Err::<(bool, bool), ArgError>(ArgError::ValidityTooSmall),
        validity >= MIN_VALIDITY && daemon && !has_output_dir ==> r == Err::<(bool, bool), ArgError>(
            ArgError::DaemonNeedsOutputDir,
        ),
        validity >= MIN_VALIDITY && (!daemon || has_output_dir) ==> r == Ok::<(bool, bool), ArgError>(
            if !tor && !i2p {
                (true, true)
            } else {
                (tor, i2p)
            },
        ),
{
    if validity < MIN_VALIDITY {
        return Err(ArgError::ValidityTooSmall);
    }
    if daemon && !has_output_dir {
        return Err(ArgError::DaemonNeedsOutputDir);
    }
    if !tor && !i2p {
        Ok((true, true))
    } else {
        Ok((tor, i2p))
    }
}

/// One trailing line feed removed, then one trailing carriage return.
pub open spec fn spec_trim_password(s: Seq<u8>) -> Seq<u8> {
    let s1 = if s.len() > 0 && s.last() == 10u8 {
        s.drop_last()
    } else {
        s
    };
    if s1.len() > 0 && s1.last() == 13u8 {
        s1.drop_last()
    } else {
        s1
    }
}

/// Cut the line ending from a password read to the end of input: a trailing `\n`, then a
/// trailing `\r`.
pub fn trim_password(buf: &mut Vec<u8>)
    ensures
        final(buf)@ == spec_trim_password(old(buf)@),
{
    let n = buf.len();
    if n > 0 && buf[n - 1] == 10u8 {
        buf.pop();
    }
    let n = buf.len();
    if n > 0 && buf[n - 1] == 13u8 {
        buf.pop();
    }
}

/// Every trailing `\n` and `\r` removed.
pub open spec fn spec_trim_line_end(s: Seq<u8>) -> Seq<u8>
    decreases s.len(),
{
    if s.len() > 0 && (s.last() == 10u8 || s.last() == 13u8) {
        spec_trim_line_end(s.drop_last())
    } else {
        s
    }
}

/// Cut every trailing `\n` and `\r` from the line that holds the password in daemon mode.
pub fn trim_line_end(line: &[u8]) -> (r: Vec<u8>)
    ensures
        r@ == spec_trim_line_end(line@),
{
    let mut end = line.len();
    assert(line@.subrange(0, end as int) =~= line@);
    while end > 0 && (line[end - 1] == 10u8 || line[end - 1] == 13u8)
        invariant
            end <= line@.len(),
            spec_trim_line_end(line@) == spec_trim_line_end(line@.subrange(0, end as int)),
        decreases end,
    {
        assert(line@.subrange(0, end as int).drop_last() =~= line@.subrange(0, end - 1));
        end = end - 1;
    }
    slice_to_vec(slice_subrange(line, 0, end))
}

} // verus!
