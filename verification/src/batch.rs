//! Batches of files that share one command.
//!
//! A command is a program with its arguments. The list holds one batch for
//! each command that a file was added under, in the order in which the
//! commands were first seen, and each batch holds its files in the order in
//! which they were added. Commands are compared as they are: program with
//! program and argument with argument.

use vstd::prelude::*;
use vstd::string::*;

verus! {

/// A batch as contracts see it.
#[verifier::ext_equal]
pub struct BatchSpec {
    /// The program to run.
    pub program: Seq<char>,
    /// The arguments that come before the files.
    pub args: Seq<Seq<char>>,
    /// The files to hand to the program.
    pub files: Seq<Seq<char>>,
}

/// A command, and the files that it is to be run on.
pub struct FileBatch {
    /// The program to run.
    pub program: String,
    /// The arguments that come before the files.
    pub args: Vec<String>,
    /// The files to hand to the program.
    pub files: Vec<String>,
}

impl View for FileBatch {
    type V = BatchSpec;

    open spec fn view(&self) -> BatchSpec {
        BatchSpec {
            program: self.program@,
            args: self.args.deep_view(),
            files: self.files.deep_view(),
        }
    }
}

impl DeepView for FileBatch {
    type V = BatchSpec;

    open spec fn deep_view(&self) -> BatchSpec {
        self@
    }
}

/// The batch is the one of the command `program` with `args`.
pub open spec fn has_command(batch: BatchSpec, program: Seq<char>, args: Seq<Seq<char>>) -> bool {
    batch.program == program && batch.args == args
}

/// Some batch of `batches` is the one of the command.
pub open spec fn holds_command(
    batches: Seq<BatchSpec>,
    program: Seq<char>,
    args: Seq<Seq<char>>,
) -> bool {
    exists|i: int| 0 <= i < batches.len() && has_command(#[trigger] batches[i], program, args)
}

/// The position of a batch of the command in `batches`.
pub open spec fn command_position(
    batches: Seq<BatchSpec>,
    program: Seq<char>,
    args: Seq<Seq<char>>,
) -> int {
    choose|i: int| 0 <= i < batches.len() && has_command(#[trigger] batches[i], program, args)
}

/// No two batches of `batches` have the same command.
pub open spec fn distinct_commands(batches: Seq<BatchSpec>) -> bool {
    forall|i: int, j: int|
        0 <= i < j < batches.len() ==> !has_command(
            #[trigger] batches[i],
            (#[trigger] batches[j]).program,
            batches[j].args,
        )
}

/// `batches` after `file` was added under the command `program` with
/// `args`: the file comes last in the batch of that command, and where there
/// is no such batch yet, a new batch with this one file comes last.
pub open spec fn add_file(
    batches: Seq<BatchSpec>,
    file: Seq<char>,
    program: Seq<char>,
    args: Seq<Seq<char>>,
) -> Seq<BatchSpec> {
    if holds_command(batches, program, args) {
        let at = command_position(batches, program, args);
        batches.update(at, BatchSpec { program, args, files: batches[at].files.push(file) })
    } else {
        batches.push(BatchSpec { program, args, files: seq![file] })
    }
}

/// The batches of one run.
pub struct FileBatchList {
    batches: Vec<FileBatch>,
}

impl View for FileBatchList {
    type V = Seq<BatchSpec>;

    closed spec fn view(&self) -> Seq<BatchSpec> {
        self.batches.deep_view()
    }
}

impl FileBatchList {
    /// A list is well formed when no two of its batches have the same
    /// command. Every list that `new` and `add_to_list` make is.
    pub open spec fn well_formed(&self) -> bool {
        distinct_commands(self@)
    }

    /// A list without batches.
    pub fn new() -> (list: Self)
        ensures
            list@ == Seq::<BatchSpec>::empty(),
            list.well_formed(),
    {
        let list = FileBatchList { batches: Vec::new() };
        assert(list.batches.deep_view() =~= Seq::<BatchSpec>::empty());
        list
    }

    /// The number of batches.
    pub fn len(&self) -> (count: usize)
        ensures
            count == self@.len(),
    {
        self.batches.len()
    }

    /// The batches, in the order in which their commands were first seen.
    pub fn batches(&self) -> (batches: &Vec<FileBatch>)
        ensures
            batches.deep_view() == self@,
    {
        &self.batches
    }
}

fn same_args(a: &Vec<String>, b: &Vec<String>) -> (same: bool)
    ensures
        same == (a.deep_view() == b.deep_view()),
{
    if a.len() != b.len() {
        assert(a.deep_view().len() != b.deep_view().len());
        return false;
    }
    let mut i: usize = 0;
    while i < a.len()
        invariant
            i <= a.len(),
            a.len() == b.len(),
            forall|j: int| 0 <= j < i ==> a.deep_view()[j] == b.deep_view()[j],
        decreases a.len() - i,
    {
        if a[i] != b[i] {
            assert(a.deep_view()[i as int] != b.deep_view()[i as int]);
            return false;
        }
        i += 1;
    }
    assert(a.deep_view() =~= b.deep_view());
    true
}

/// Adds `file` to the batch of the command `program` with `args`. Files that
/// are added under the same command share one batch, whatever tool or
/// language they came from; a command that is new to the list gets a batch
/// of its own.
pub fn add_to_list(list: &mut FileBatchList, file: String, program: String, args: Vec<String>)
    requires
        old(list).well_formed(),
    ensures
        final(list)@ == add_file(old(list)@, file@, program@, args.deep_view()),
        final(list).well_formed(),
{
    let ghost before = list.batches.deep_view();
    let mut i: usize = 0;
    while i < list.batches.len()
        invariant
            i <= list.batches.len(),
            list.batches.deep_view() == before,
            before == old(list)@,
            distinct_commands(before),
            forall|j: int|
                0 <= j < i ==> !has_command(#[trigger] before[j], program@, args.deep_view()),
        decreases list.batches.len() - i,
    {
        if list.batches[i].program == program && same_args(&list.batches[i].args, &args) {
            assert(has_command(before[i as int], program@, args.deep_view()));
            assert(command_position(before, program@, args.deep_view()) == i);
            let ghost prior = list.batches@;
            list.batches[i].files.push(file);
            assert(list.batches@[i as int].files.deep_view() =~= prior[i as int].files.deep_view().push(
                file@,
            ));
            assert(list.batches.deep_view()[i as int] =~~= add_file(
                before,
                file@,
                program@,
                args.deep_view(),
            )[i as int]);
            assert(list.batches.deep_view() =~= add_file(
                before,
                file@,
                program@,
                args.deep_view(),
            ));
            return ;
        }
        i += 1;
    }
    assert(!holds_command(before, program@, args.deep_view()));
    let mut files: Vec<String> = Vec::new();
    files.push(file);
    let batch = FileBatch { program, args, files };
    assert(batch@ =~~= BatchSpec {
        program: program@,
        args: args.deep_view(),
        files: seq![file@],
    });
    list.batches.push(batch);
    assert(list.batches.deep_view() =~= add_file(before, file@, program@, args.deep_view()));
}

/// One addition to a list: a file, and the command it was resolved to.
pub struct Addition {
    /// The file that was added.
    pub file: Seq<char>,
    /// The program of its command.
    pub program: Seq<char>,
    /// The arguments of its command.
    pub args: Seq<Seq<char>>,
}

/// The batches that a list holds after `additions` were made to an empty
/// list, in their order.
pub open spec fn batches_after(additions: Seq<Addition>) -> Seq<BatchSpec>
    decreases additions.len(),
{
    if additions.len() == 0 {
        Seq::empty()
    } else {
        let last = additions.last();
        add_file(batches_after(additions.drop_last()), last.file, last.program, last.args)
    }
}

/// The files that `additions` added under the command `program` with
/// `args`, each as often as it was added and in the order of the additions.
pub open spec fn files_under(
    additions: Seq<Addition>,
    program: Seq<char>,
    args: Seq<Seq<char>>,
) -> Seq<Seq<char>> {
    additions.filter(|a: Addition| a.program == program && a.args == args).map_values(
        |a: Addition| a.file,
    )
}

proof fn lemma_files_under_step(additions: Seq<Addition>, program: Seq<char>, args: Seq<Seq<char>>)
    requires
        additions.len() > 0,
    ensures
        files_under(additions, program, args) == if additions.last().program == program
            && additions.last().args == args {
            files_under(additions.drop_last(), program, args).push(additions.last().file)
        } else {
            files_under(additions.drop_last(), program, args)
        },
{
    reveal(Seq::filter);
    let same = |a: Addition| a.program == program && a.args == args;
    let earlier = additions.drop_last().filter(same);
    if same(additions.last()) {
        assert(additions.filter(same) == earlier.push(additions.last()));
        assert(earlier.push(additions.last()).map_values(|a: Addition| a.file) =~= earlier.map_values(
            |a: Addition| a.file,
        ).push(additions.last().file));
    } else {
        assert(additions.filter(same) == earlier);
    }
}

proof fn lemma_no_files_under_unseen(
    additions: Seq<Addition>,
    program: Seq<char>,
    args: Seq<Seq<char>>,
)
    requires
        forall|k: int|
            0 <= k < additions.len() ==> !((#[trigger] additions[k]).program == program
                && additions[k].args == args),
    ensures
        files_under(additions, program, args).len() == 0,
    decreases additions.len(),
{
    reveal(Seq::filter);
    if additions.len() > 0 {
        lemma_no_files_under_unseen(additions.drop_last(), program, args);
        lemma_files_under_step(additions, program, args);
    }
}

/// Files that share a command share one batch. After any run of additions
/// to an empty list no two batches have the same command, the command of
/// every addition has its batch, and every batch holds the files that were
/// added under its command and no others: each as often as it was added,
/// in the order of the additions.
pub proof fn lemma_files_share_one_batch(additions: Seq<Addition>)
    ensures
        distinct_commands(batches_after(additions)),
        forall|k: int|
            0 <= k < additions.len() ==> holds_command(
                batches_after(additions),
                (#[trigger] additions[k]).program,
                additions[k].args,
            ),
        forall|b: int|
            0 <= b < batches_after(additions).len() ==> (#[trigger] batches_after(
                additions,
            )[b]).files == files_under(
                additions,
                batches_after(additions)[b].program,
                batches_after(additions)[b].args,
            ) && batches_after(additions)[b].files.len() > 0,
    decreases additions.len(),
{
    if additions.len() > 0 {
        let earlier = additions.drop_last();
        let last = additions.last();
        let before = batches_after(earlier);
        let after = batches_after(additions);
        lemma_files_share_one_batch(earlier);
        if holds_command(before, last.program, last.args) {
            let at = command_position(before, last.program, last.args);
            assert forall|k: int| 0 <= k < additions.len() implies holds_command(
                after,
                (#[trigger] additions[k]).program,
                additions[k].args,
            ) by {
                if k < earlier.len() {
                    assert(additions[k] == earlier[k]);
                    let b = command_position(before, earlier[k].program, earlier[k].args);
                    assert(has_command(after[b], earlier[k].program, earlier[k].args));
                } else {
                    assert(has_command(after[at], last.program, last.args));
                }
            }
            assert forall|b: int| 0 <= b < after.len() implies (#[trigger] after[b]).files
                == files_under(additions, after[b].program, after[b].args) && after[b].files.len()
                > 0 by {
                lemma_files_under_step(additions, after[b].program, after[b].args);
                if b != at {
                    assert(after[b] == before[b]);
                    if b < at {
                        assert(!has_command(before[b], before[at].program, before[at].args));
                    } else {
                        assert(!has_command(before[at], before[b].program, before[b].args));
                    }
                }
            }
            assert(distinct_commands(after)) by {
                assert forall|i: int, j: int| 0 <= i < j < after.len() implies !has_command(
                    #[trigger] after[i],
                    (#[trigger] after[j]).program,
                    after[j].args,
                ) by {
                    assert(has_command(before[i], after[i].program, after[i].args));
                    assert(has_command(before[j], after[j].program, after[j].args));
                }
            }
        } else {
            assert forall|k: int| 0 <= k < earlier.len() implies !((#[trigger] earlier[k]).program
                == last.program && earlier[k].args == last.args) by {
                if earlier[k].program == last.program && earlier[k].args == last.args {
                    assert(holds_command(before, earlier[k].program, earlier[k].args));
                }
            }
            lemma_no_files_under_unseen(earlier, last.program, last.args);
            assert forall|k: int| 0 <= k < additions.len() implies holds_command(
                after,
                (#[trigger] additions[k]).program,
                additions[k].args,
            ) by {
                if k < earlier.len() {
                    assert(additions[k] == earlier[k]);
                    let b = command_position(before, earlier[k].program, earlier[k].args);
                    assert(has_command(after[b], earlier[k].program, earlier[k].args));
                } else {
                    assert(has_command(after[before.len() as int], last.program, last.args));
                }
            }
            assert forall|b: int| 0 <= b < after.len() implies (#[trigger] after[b]).files
                == files_under(additions, after[b].program, after[b].args) && after[b].files.len()
                > 0 by {
                lemma_files_under_step(additions, after[b].program, after[b].args);
                if b < before.len() {
                    assert(after[b] == before[b]);
                    assert(has_command(before[b], before[b].program, before[b].args));
                } else {
                    assert(seq![last.file] =~= Seq::<Seq<char>>::empty().push(last.file));
                }
            }
            assert(distinct_commands(after)) by {
                assert forall|i: int, j: int| 0 <= i < j < after.len() implies !has_command(
                    #[trigger] after[i],
                    (#[trigger] after[j]).program,
                    after[j].args,
                ) by {
                    if j < before.len() {
                        assert(after[i] == before[i] && after[j] == before[j]);
                    } else {
                        assert(after[i] == before[i]);
                    }
                }
            }
        }
    }
}

} // verus!
