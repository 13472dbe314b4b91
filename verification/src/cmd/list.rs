//! What the `list` command prints.

use vstd::prelude::*;

use crate::config::types::Aliases;
use crate::text::{concat3, join, join_seq, owned, views};

verus! {

/// The lines `list --aliases` prints: `name = target, target` for each
/// alias in name order, or a note that there is none.
pub fn alias_lines(aliases: &Aliases) -> (r: Vec<String>)
    ensures
        aliases.keys().len() == 0 ==> views(r@) == seq!["No aliases defined"@],
        aliases.keys().len() > 0 ==> r@.len() == aliases.keys().len() && forall|i: int|
            0 <= i < r@.len() ==> #[trigger] r@[i]@ == aliases.keys()[i] + " = "@ + join_seq(
                views(aliases.vals()[i]@),
                ", "@,
            ),
{
    let n = aliases.len();
    let mut r: Vec<String> = Vec::new();
    if n == 0 {
        r.push(owned("No aliases defined"));
        assert(views(r@) =~= seq!["No aliases defined"@]);
        return r;
    }
    let mut i: usize = 0;
    while i < n
        invariant
            n == aliases.keys().len(),
            n == aliases.vals().len(),
            i <= n,
            r@.len() == i,
            forall|j: int|
                0 <= j < i ==> #[trigger] r@[j]@ == aliases.keys()[j] + " = "@ + join_seq(
                    views(aliases.vals()[j]@),
                    ", "@,
                ),
        decreases n - i,
    {
        let k = aliases.key_at(i);
        let v = aliases.val_at(i);
        let t = join(v, ", ");
        r.push(concat3(k.as_str(), " = ", t.as_str()));
        i = i + 1;
    }
    r
}

/// The lines `list` prints for the tasks: each task, or a note that there
/// is none.
pub fn task_lines(tasks: &Vec<String>) -> (r: Vec<String>)
    ensures
        tasks@.len() == 0 ==> views(r@) == seq!["No tasks found"@],
        tasks@.len() > 0 ==> views(r@) == views(tasks@),
{
    if tasks.len() == 0 {
        let mut r: Vec<String> = Vec::new();
        r.push(owned("No tasks found"));
        assert(views(r@) =~= seq!["No tasks found"@]);
        return r;
    }
    let mut r: Vec<String> = Vec::new();
    let mut i: usize = 0;
    while i < tasks.len()
        invariant
            i <= tasks@.len(),
            views(r@) == views(tasks@).take(i as int),
        decreases tasks.len() - i,
    {
        let ghost prev = views(r@);
        r.push(tasks[i].clone());
        assert(views(r@) =~= prev.push(tasks@[i as int]@));
        assert(views(tasks@).take(i + 1) =~= views(tasks@).take(i as int).push(tasks@[i as int]@));
        i = i + 1;
    }
    assert(views(tasks@).take(tasks@.len() as int) =~= views(tasks@));
    r
}

/// Whether `list` shows only the tasks that the patterns given select:
/// with `--all` and at least one pattern.
pub fn lists_selected(args: &crate::cli::build::ListArgs) -> (r: bool)
    ensures
        r == (args.all && args.tasks@.len() > 0),
{
    args.all && args.tasks.len() > 0
}

} // verus!
