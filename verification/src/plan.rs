//! The renames of a whole listing, up to the first file that cannot be renamed.

use crate::collect::texts;
use crate::filter::{is_xml_file, is_xml_file_spec};
use crate::names::{effective_prefix_spec, RenameError};
use crate::rename::{rename_target, rename_target_spec, RenameOp, RenameOpText};
use vstd::prelude::*;

verus! {

/// What is to be done with a listing: the renames to carry out, in order, and
/// the error at which the run then stops, if there is one.
#[derive(Debug, Clone, PartialEq, Eq)]
pub struct RenamePlan {
    pub ops: Vec<RenameOp>,
    pub failure: Option<RenameError>,
}

/// A plan over texts.
pub struct RenamePlanText {
    pub ops: Seq<RenameOpText>,
    pub failure: Option<RenameError>,
}

/// The texts of a list of renames.
pub open spec fn ops_text(ops: Seq<RenameOp>) -> Seq<RenameOpText> {
    ops.map_values(|op: RenameOp| op@)
}

impl View for RenamePlan {
    type V = RenamePlanText;

    open spec fn view(&self) -> RenamePlanText {
        RenamePlanText { ops: ops_text(self.ops@), failure: self.failure }
    }
}

/// The plan for a listing. Paths are taken in order. One that does not match
/// the filter is passed over; one that matches gives a rename, or the error
/// that ends the plan: nothing after it is looked at.
pub open spec fn rename_xml_spec(paths: Seq<Seq<char>>, prefix: int, append_dir: bool) -> RenamePlanText
    decreases paths.len(),
{
    if paths.len() == 0 {
        RenamePlanText { ops: Seq::empty(), failure: None }
    } else {
        let before = rename_xml_spec(paths.drop_last(), prefix, append_dir);
        let path = paths.last();
        if before.failure is Some || !is_xml_file_spec(path) {
            before
        } else {
            match rename_target_spec(path, prefix, append_dir) {
                Ok(op) => RenamePlanText { ops: before.ops.push(op), failure: None },
                Err(e) => RenamePlanText { ops: before.ops, failure: Some(e) },
            }
        }
    }
}

/// Plans the renames of the files listed in `paths`.
pub fn rename_xml(paths: &Vec<String>, prefix_length: Option<usize>, append_dir: bool) -> (plan:
    RenamePlan)
    ensures
        plan@ == rename_xml_spec(
            texts(paths@),
            effective_prefix_spec(prefix_length) as int,
            append_dir,
        ),
{
    let ghost prefix = effective_prefix_spec(prefix_length) as int;
    let mut plan = RenamePlan { ops: Vec::new(), failure: None };
    assert(plan@.ops =~= Seq::empty());
    let mut i: usize = 0;
    while i < paths.len()
        invariant
            i <= paths.len(),
            prefix == effective_prefix_spec(prefix_length) as int,
            plan@ == rename_xml_spec(texts(paths@).take(i as int), prefix, append_dir),
        decreases paths.len() - i,
    {
        let ghost before = texts(paths@).take(i as int);
        let ghost now = texts(paths@).take(i + 1);
        assert(now.drop_last() =~= before);
        assert(now.last() == paths@[i as int]@);
        let path = paths[i].as_str();
        if plan.failure.is_none() && is_xml_file(path) {
            match rename_target(path, prefix_length, append_dir) {
                Ok(op) => {
                    let ghost old_ops = plan@.ops;
                    plan.ops.push(op);
                    assert(plan@.ops =~= old_ops.push(op@));
                },
                Err(e) => {
                    plan.failure = Some(e);
                },
            }
        }
        i += 1;
    }
    assert(texts(paths@).take(i as int) =~= texts(paths@));
    plan
}

/// What a plan holds. Every rename in it is the rename of a listed path that
/// matches the filter, so a file that does not match is never renamed.
pub proof fn lemma_plan_sources(paths: Seq<Seq<char>>, prefix: int, append_dir: bool, k: int)
    requires
        0 <= k < rename_xml_spec(paths, prefix, append_dir).ops.len(),
    ensures
        paths.contains(rename_xml_spec(paths, prefix, append_dir).ops[k].from),
        is_xml_file_spec(rename_xml_spec(paths, prefix, append_dir).ops[k].from),
        rename_target_spec(
            rename_xml_spec(paths, prefix, append_dir).ops[k].from,
            prefix,
            append_dir,
        ) == Ok::<RenameOpText, RenameError>(rename_xml_spec(paths, prefix, append_dir).ops[k]),
    decreases paths.len(),
{
    if paths.len() == 0 {
    } else {
        let init = paths.drop_last();
        let before = rename_xml_spec(init, prefix, append_dir);
        if k < before.ops.len() {
            lemma_plan_sources(init, prefix, append_dir, k);
            let from = before.ops[k].from;
            let j = choose|j: int| 0 <= j < init.len() && init[j] == from;
            assert(paths[j] == from);
        } else {
            assert(paths[paths.len() - 1] == paths.last());
        }
    }
}

/// A plan without a failure leaves no matching file out: each listed path
/// that matches the filter is the source of one of its renames.
pub proof fn lemma_plan_complete(paths: Seq<Seq<char>>, prefix: int, append_dir: bool, i: int)
    requires
        rename_xml_spec(paths, prefix, append_dir).failure is None,
        0 <= i < paths.len(),
        is_xml_file_spec(paths[i]),
    ensures
        exists|k: int|
            0 <= k < rename_xml_spec(paths, prefix, append_dir).ops.len() && (
            #[trigger] rename_xml_spec(paths, prefix, append_dir).ops[k]).from == paths[i],
    decreases paths.len(),
{
    let plan = rename_xml_spec(paths, prefix, append_dir);
    let init = paths.drop_last();
    let before = rename_xml_spec(init, prefix, append_dir);
    assert(before.failure is None);
    if i < paths.len() - 1 {
        assert(init[i] == paths[i]);
        lemma_plan_complete(init, prefix, append_dir, i);
        let k = choose|k: int| 0 <= k < before.ops.len() && (#[trigger] before.ops[k]).from == init[i];
        assert(plan.ops[k] == before.ops[k]);
    } else {
        assert(paths.last() == paths[i]);
        let k = before.ops.len() as int;
        assert(plan.ops[k].from == paths[i]);
    }
}

/// A matching file that cannot be renamed, such as one whose name is shorter
/// than the prefix, stops the run: the plan for a listing that holds such a
/// path ends in a failure.
pub proof fn lemma_failure_stops(paths: Seq<Seq<char>>, prefix: int, append_dir: bool, i: int)
    requires
        0 <= i < paths.len(),
        is_xml_file_spec(paths[i]),
        rename_target_spec(paths[i], prefix, append_dir) is Err,
    ensures
        rename_xml_spec(paths, prefix, append_dir).failure is Some,
    decreases paths.len(),
{
    if i < paths.len() - 1 {
        let init = paths.drop_last();
        assert(init[i] == paths[i]);
        lemma_failure_stops(init, prefix, append_dir, i);
    }
}

} // verus!
