//! Running the batches: what is run, and what the run reports.

use vstd::prelude::*;
use vstd::string::*;
use crate::system::{find_on_path, path_exists};
use crate::text::chars_of;

verus! {

/// The program is given as a path, not as a bare name: it holds a path
/// separator. An absolute path always does.
pub open spec fn names_path(program: Seq<char>) -> bool {
    program.contains('/') || program.contains('\\')
}

/// Whether `program` is given as a path and not as a bare name to be found
/// on the search path.
pub fn names_a_path(program: &str) -> (named: bool)
    ensures
        named == names_path(program@),
{
    let chars = chars_of(program);
    let mut i: usize = 0;
    while i < chars.len()
        invariant
            i <= chars.len(),
            chars@ == program@,
            forall|j: int| 0 <= j < i ==> program@[j] != '/' && program@[j] != '\\',
        decreases chars.len() - i,
    {
        if chars[i] == '/' || chars[i] == '\\' {
            assert(program@[i as int] == chars@[i as int]);
            return true;
        }
        i += 1;
    }
    false
}

/// Whether `program` can be run: a program given as a path must be there,
/// a bare name must be found on the program search path. The answer is
/// what the disk and the search path say at the moment of the call.
pub fn is_executable_available(program: &str) -> bool {
    is_executable_available_with(program, &path_exists, &find_on_path)
}

/// `available` is whether `program` can be run, going by what was said of
/// it: a program given as a path is available where `present` said that it
/// is there, a bare name where `lookup` found it on the search path. Only
/// the one of the two that applies is asked.
pub open spec fn is_available<F: Fn(&str) -> bool, G: Fn(&str) -> Option<String>>(
    present: &F,
    lookup: &G,
    program: Seq<char>,
    available: bool,
) -> bool {
    if names_path(program) {
        crate::search::says(present, program, available)
    } else {
        exists|found: Option<String>|
            #[trigger] crate::search::answers(*lookup, program, found) && available
                == found is Some
    }
}

/// Whether `program` can be run, going by the given probes: `present` is
/// asked whether a program given as a path is there, and `lookup` is asked
/// for a bare name on the program search path.
pub fn is_executable_available_with<F: Fn(&str) -> bool, G: Fn(&str) -> Option<String>>(
    program: &str,
    present: &F,
    lookup: &G,
) -> (available: bool)
    requires
        forall|p: &str| call_requires(*present, (p,)),
        forall|n: &str| call_requires(*lookup, (n,)),
    ensures
        is_available(present, lookup, program@, available),
{
    if names_a_path(program) {
        present(program)
    } else {
        let found = lookup(program);
        let available = found.is_some();
        assert(crate::search::answers(*lookup, program@, found));
        available
    }
}

/// The arguments that a batch is run with: the arguments of its command,
/// then its files, each in their order.
pub fn command_line(args: &Vec<String>, files: &Vec<String>) -> (line: Vec<String>)
    ensures
        line.deep_view() == args.deep_view() + files.deep_view(),
{
    let mut line: Vec<String> = Vec::new();
    let mut i: usize = 0;
    while i < args.len()
        invariant
            i <= args.len(),
            line.len() == i,
            forall|j: int| 0 <= j < i ==> (#[trigger] line[j])@ == args[j]@,
        decreases args.len() - i,
    {
        line.push(args[i].clone());
        i += 1;
    }
    let mut k: usize = 0;
    while k < files.len()
        invariant
            k <= files.len(),
            line.len() == args.len() + k,
            forall|j: int| 0 <= j < args.len() ==> (#[trigger] line[j])@ == args[j]@,
            forall|j: int|
                args.len() <= j < line.len() ==> (#[trigger] line[j])@ == files[j - args.len()]@,
        decreases files.len() - k,
    {
        line.push(files[k].clone());
        k += 1;
    }
    assert(line.deep_view() =~= args.deep_view() + files.deep_view());
    line
}

/// The status that a batch whose tool cannot be run, cannot be started or
/// ends without an exit code is reported with.
pub const FAILURE_STATUS: i32 = 1;

/// The status of a batch: the exit code of its tool where the tool ran and
/// gave one, the failure status otherwise.
pub fn batch_status(exit_code: Option<i32>) -> (status: i32)
    ensures
        status == match exit_code {
            Some(code) => code,
            None => FAILURE_STATUS,
        },
{
    match exit_code {
        Some(code) => code,
        None => FAILURE_STATUS,
    }
}

/// Decides whether a batch is run at all. A batch whose program is not
/// available is not started: it is reported with the failure status, and
/// the batches after it are run all the same. `None` where the program is
/// available and the batch is to be run.
pub fn run_step(available: bool) -> (status: Option<i32>)
    ensures
        status == if available {
            None::<i32>
        } else {
            Some(FAILURE_STATUS)
        },
{
    if available {
        None
    } else {
        Some(FAILURE_STATUS)
    }
}

/// The status of a run as the statuses of its batches give it: the first
/// that is not zero, and zero where all are.
pub open spec fn first_failure(statuses: Seq<i32>) -> i32
    decreases statuses.len(),
{
    if statuses.len() == 0 {
        0
    } else if statuses[0] != 0 {
        statuses[0]
    } else {
        first_failure(statuses.skip(1))
    }
}

/// The status of the whole run: zero where every batch ended with zero,
/// else the first status that is not zero, in the order of the batches.
pub fn overall_status(statuses: &Vec<i32>) -> (status: i32)
    ensures
        status == first_failure(statuses@),
        status == 0 <==> forall|i: int| 0 <= i < statuses.len() ==> statuses[i] == 0,
        status != 0 ==> exists|k: int|
            0 <= k < statuses.len() && #[trigger] statuses[k] == status && forall|j: int|
                0 <= j < k ==> statuses[j] == 0,
{
    let mut i: usize = 0;
    assert(statuses@.skip(0) =~= statuses@);
    while i < statuses.len()
        invariant
            i <= statuses.len(),
            first_failure(statuses@) == first_failure(statuses@.skip(i as int)),
            forall|j: int| 0 <= j < i ==> statuses[j] == 0,
        decreases statuses.len() - i,
    {
        if statuses[i] != 0 {
            return statuses[i];
        }
        assert(statuses@.skip(i as int).skip(1) =~= statuses@.skip(i + 1));
        i += 1;
    }
    0
}

/// The exit code of the process for a status of the run. A process can
/// report one byte. Zero stays zero; any other status is reported by its
/// low byte, and by the failure status where that byte is zero, so that a
/// failed run never reports success.
pub fn exit_byte(status: i32) -> (code: u8)
    ensures
        code == if status == 0 {
            0
        } else if status & 0xff == 0 {
            FAILURE_STATUS
        } else {
            status & 0xff
        },
        status == 0 <==> code == 0,
        0 < status < 256 ==> code == status,
{
    let low: i32 = status & 0xff;
    assert(0 <= low < 256) by (bit_vector)
        requires
            low == status & 0xff,
    ;
    assert(0 <= status < 256 ==> low == status) by (bit_vector)
        requires
            low == status & 0xff,
    ;
    if status == 0 {
        0
    } else if low == 0 {
        1
    } else {
        low as u8
    }
}

} // verus!
