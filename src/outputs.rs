//! Which output files a run creates, and under which names.
//!
//! A capture whose file name is `<stem>.dem` gives `<stem>-gsd.msgpack` for
//! state snapshots and `<stem>-raw.msgpack` for raw packets, inside the
//! output directory. A file is created only for an enabled channel; the file
//! of a disabled channel is removed before decoding starts, so that a
//! disabled channel never leaves a file behind, not even one from an earlier
//! run.
use vstd::prelude::*;
use vstd::string::*;
use crate::errors::RunError;
use crate::ingest::RunConfig;

verus! {

/// The text that ends a capture's name.
pub open spec fn capture_marker() -> Seq<char> {
    seq!['.', 'd', 'e', 'm']
}

pub open spec fn marker_at(s: Seq<char>, i: int) -> bool {
    0 <= i && i + 4 <= s.len() && s.subrange(i, i + 4) == capture_marker()
}

/// The first position at or after `i` where the marker starts.
pub open spec fn first_marker_from(s: Seq<char>, i: int) -> Option<int>
    decreases s.len() - i,
{
    if i < 0 || i + 4 > s.len() {
        None
    } else if marker_at(s, i) {
        Some(i)
    } else {
        first_marker_from(s, i + 1)
    }
}

proof fn lemma_first_marker_found(s: Seq<char>, from: int, i: int)
    requires
        first_marker_from(s, from) == Some(i),
    ensures
        from <= i,
        marker_at(s, i),
    decreases s.len() - from,
{
    if !(from < 0 || from + 4 > s.len()) && !marker_at(s, from) {
        lemma_first_marker_found(s, from + 1, i);
    }
}

/// A character that separates the directories of a path.
pub open spec fn is_separator(c: char) -> bool {
    c == '/' || c == '\\'
}

/// The position of the last separator in `s`.
pub open spec fn last_separator(s: Seq<char>) -> Option<int>
    decreases s.len(),
{
    if s.len() == 0 {
        None
    } else if is_separator(s.last()) {
        Some(s.len() - 1)
    } else {
        last_separator(s.drop_last())
    }
}

/// The file name of a path: what follows its last separator.
pub open spec fn file_name_of(s: Seq<char>) -> Seq<char> {
    match last_separator(s) {
        Some(i) => s.subrange(i + 1, s.len() as int),
        None => s,
    }
}

/// The capture's name: what precedes the first marker in its file name.
pub open spec fn stem_of(s: Seq<char>) -> Option<Seq<char>> {
    let name = file_name_of(s);
    match first_marker_from(name, 0) {
        Some(i) => Some(name.subrange(0, i)),
        None => None,
    }
}

/// `file` names `name` when `enabled` holds, and is absent otherwise.
pub open spec fn planned(file: Option<String>, enabled: bool, name: Seq<char>) -> bool {
    match file {
        Some(f) => enabled && f@ == name,
        None => !enabled,
    }
}

/// The files a run creates, and those it removes, in the output directory.
pub struct OutputPlan {
    /// The state-snapshot file to create, when that channel is enabled.
    pub state_file: Option<String>,
    /// The raw-packet file to create, when that channel is enabled.
    pub raw_file: Option<String>,
    /// The state-snapshot file to remove, when that channel is disabled.
    pub stale_state_file: Option<String>,
    /// The raw-packet file to remove, when that channel is disabled.
    pub stale_raw_file: Option<String>,
}

/// The file name of `path`.
pub fn file_name<'a>(path: &'a str) -> (r: &'a str)
    ensures
        r@ == file_name_of(path@),
{
    let n = path.unicode_len();
    let mut i: usize = n;
    assert(path@.subrange(0, n as int) =~= path@);
    while i > 0
        invariant
            n == path@.len(),
            i <= n,
            last_separator(path@) == last_separator(path@.subrange(0, i as int)),
        decreases i,
    {
        let c = path.get_char(i - 1);
        assert(path@.subrange(0, i as int).last() == c);
        if c == '/' || c == '\\' {
            return path.substring_char(i, n);
        }
        assert(path@.subrange(0, i as int).drop_last() =~= path@.subrange(0, i - 1));
        i = i - 1;
    }
    path
}

/// Finds the first marker in `s`.
pub fn find_marker(s: &str) -> (r: Option<usize>)
    ensures
        match r {
            Some(i) => first_marker_from(s@, 0) == Some(i as int),
            None => first_marker_from(s@, 0) is None,
        },
{
    let n = s.unicode_len();
    let mut i: usize = 0;
    while i < n && n - i >= 4
        invariant
            n == s@.len(),
            i <= n,
            first_marker_from(s@, 0) == first_marker_from(s@, i as int),
        decreases n - i,
    {
        if s.get_char(i) == '.' && s.get_char(i + 1) == 'd' && s.get_char(i + 2) == 'e'
            && s.get_char(i + 3) == 'm' {
            assert(s@.subrange(i as int, i + 4) =~= capture_marker());
            return Some(i);
        }
        assert(!marker_at(s@, i as int)) by {
            if marker_at(s@, i as int) {
                let sub = s@.subrange(i as int, i + 4);
                assert(sub[0] == s@[i as int] && sub[1] == s@[i + 1] && sub[2] == s@[i + 2] && sub[3]
                    == s@[i + 3]);
            }
        }
        i = i + 1;
    }
    None
}

/// The capture's name, or `None` where its file name holds no marker.
pub fn capture_stem(infile: &str) -> (r: Option<String>)
    ensures
        match r {
            Some(stem) => stem_of(infile@) == Some(stem@),
            None => stem_of(infile@) is None,
        },
{
    let name = file_name(infile);
    match find_marker(name) {
        Some(i) => {
            proof {
                lemma_first_marker_found(name@, 0, i as int);
            }
            Some(String::from_str(name.substring_char(0, i)))
        },
        None => None,
    }
}

/// The name of the state-snapshot file for a capture named `stem`.
pub fn state_file_name(stem: &String) -> (r: String)
    ensures
        r@ == stem@ + "-gsd.msgpack"@,
{
    stem.clone().concat("-gsd.msgpack")
}

/// The name of the raw-packet file for a capture named `stem`.
pub fn raw_file_name(stem: &String) -> (r: String)
    ensures
        r@ == stem@ + "-raw.msgpack"@,
{
    stem.clone().concat("-raw.msgpack")
}

/// Checks the arguments of a run and names its output files. This comes
/// before anything is read, created or removed: an output directory that is
/// not a directory, or an input file name without a marker, is an argument
/// error.
pub fn plan_outputs(infile: &str, outdir_is_dir: bool, config: RunConfig) -> (r: Result<
    OutputPlan,
    RunError,
>)
    ensures
        match r {
            Err(e) => e == RunError::Argument && (!outdir_is_dir || stem_of(infile@) is None),
            Ok(plan) => outdir_is_dir && (stem_of(infile@) matches Some(stem) && planned(
                plan.state_file,
                config.parse_state,
                stem + "-gsd.msgpack"@,
            ) && planned(plan.raw_file, config.parse_raw, stem + "-raw.msgpack"@) && planned(
                plan.stale_state_file,
                !config.parse_state,
                stem + "-gsd.msgpack"@,
            ) && planned(plan.stale_raw_file, !config.parse_raw, stem + "-raw.msgpack"@)),
        },
{
    if !outdir_is_dir {
        return Err(RunError::Argument);
    }
    let stem = match capture_stem(infile) {
        Some(stem) => stem,
        None => return Err(RunError::Argument),
    };
    let state_name = state_file_name(&stem);
    let raw_name = raw_file_name(&stem);
    let (state_file, stale_state_file) = if config.parse_state {
        (Some(state_name), None)
    } else {
        (None, Some(state_name))
    };
    let (raw_file, stale_raw_file) = if config.parse_raw {
        (Some(raw_name), None)
    } else {
        (None, Some(raw_name))
    };
    Ok(OutputPlan { state_file, raw_file, stale_state_file, stale_raw_file })
}

} // verus!
