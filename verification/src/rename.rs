//! Rename operations: where a single file goes, and how a rename is reported.

use crate::names::{
    effective_prefix, effective_prefix_spec, new_name, new_name_spec, RenameError,
};
use crate::paths::{
    file_name_of, join, opt_text, parent_of, path_file_name, path_join, path_parent,
};
use vstd::prelude::*;
use vstd::string::*;

verus! {

/// One rename: the path of a file and the path it is moved to.
#[derive(Debug, Clone, PartialEq, Eq)]
pub struct RenameOp {
    pub from: String,
    pub to: String,
}

/// A rename as two texts.
pub struct RenameOpText {
    pub from: Seq<char>,
    pub to: Seq<char>,
}

impl View for RenameOp {
    type V = RenameOpText;

    open spec fn view(&self) -> RenameOpText {
        RenameOpText { from: self.from@, to: self.to@ }
    }
}

/// The directory and the base name that make up a destination.
pub struct TargetText {
    pub dir: Seq<char>,
    pub name: Seq<char>,
}

/// The directory a destination lies in and its base name, as strings.
#[derive(Debug, Clone, PartialEq, Eq)]
pub struct Target {
    pub dir: String,
    pub name: String,
}

impl View for Target {
    type V = TargetText;

    open spec fn view(&self) -> TargetText {
        TargetText { dir: self.dir@, name: self.name@ }
    }
}

/// The texts of a destination that was computed, or the error.
pub open spec fn target_text(r: Result<Target, RenameError>) -> Result<TargetText, RenameError> {
    match r {
        Ok(t) => Ok(t@),
        Err(e) => Err(e),
    }
}

/// The texts of a rename that was computed, or the error.
pub open spec fn op_text(r: Result<RenameOp, RenameError>) -> Result<RenameOpText, RenameError> {
    match r {
        Ok(op) => Ok(op@),
        Err(e) => Err(e),
    }
}

/// A component of a path, the empty name where it is missing.
pub open spec fn text_or_empty(o: Option<Seq<char>>) -> Seq<char> {
    match o {
        Some(s) => s,
        None => Seq::<char>::empty(),
    }
}

/// Where a file goes, given the parts of its path.
///
/// `file_name` is the path's final component, `parent` the path without it,
/// and `parent_name` the parent's own final component; a missing component
/// counts as the empty name. The prefix is cut off first, so a name that is
/// too short is reported before a missing parent. The destination lies in
/// the parent, or in `.` where there is none and the parent's name is not
/// asked for.
pub open spec fn target_spec(
    file_name: Option<Seq<char>>,
    parent: Option<Seq<char>>,
    parent_name: Option<Seq<char>>,
    prefix: int,
    append_dir: bool,
) -> Result<TargetText, RenameError> {
    match new_name_spec(text_or_empty(parent_name), text_or_empty(file_name), prefix, append_dir) {
        Err(e) => Err(e),
        Ok(name) => match parent {
            Some(dir) => Ok(TargetText { dir, name }),
            None => if append_dir {
                Err(RenameError::NoParent)
            } else {
                Ok(TargetText { dir: seq!['.'], name })
            },
        },
    }
}

fn str_or_empty(o: &Option<String>) -> (r: &str)
    ensures
        r@ == text_or_empty(opt_text(*o)),
{
    match o {
        Some(s) => s.as_str(),
        None => {
            proof {
                reveal_strlit("");
            }
            let empty = "";
            assert(empty@ =~= Seq::<char>::empty());
            empty
        },
    }
}

/// Computes where a file goes from the parts of its path.
pub fn target(
    file_name: &Option<String>,
    parent: &Option<String>,
    parent_name: &Option<String>,
    prefix: usize,
    append_dir: bool,
) -> (r: Result<Target, RenameError>)
    ensures
        target_text(r) == target_spec(
            opt_text(*file_name),
            opt_text(*parent),
            opt_text(*parent_name),
            prefix as int,
            append_dir,
        ),
{
    let name = new_name(str_or_empty(parent_name), str_or_empty(file_name), prefix, append_dir)?;
    match parent {
        Some(dir) => Ok(Target { dir: dir.clone(), name }),
        None => {
            if append_dir {
                Err(RenameError::NoParent)
            } else {
                proof {
                    reveal_strlit(".");
                }
                let here = ".";
                assert(here@ =~= seq!['.']);
                Ok(Target { dir: here.to_owned(), name })
            }
        },
    }
}

/// The rename of the file at `path`: the path itself, and the destination
/// that its parts give, put together as a path again.
pub open spec fn rename_target_spec(path: Seq<char>, prefix: int, append_dir: bool) -> Result<
    RenameOpText,
    RenameError,
> {
    let parent = path_parent(path);
    let parent_name = match parent {
        Some(dir) => path_file_name(dir),
        None => None,
    };
    match target_spec(path_file_name(path), parent, parent_name, prefix, append_dir) {
        Ok(t) => Ok(RenameOpText { from: path, to: path_join(t.dir, t.name) }),
        Err(e) => Err(e),
    }
}

/// Computes the rename of the file at `path`.
pub fn rename_target(path: &str, prefix_length: Option<usize>, append_dir: bool) -> (r: Result<
    RenameOp,
    RenameError,
>)
    ensures
        op_text(r) == rename_target_spec(
            path@,
            effective_prefix_spec(prefix_length) as int,
            append_dir,
        ),
{
    let prefix = effective_prefix(prefix_length);
    let file_name = file_name_of(path);
    let parent = parent_of(path);
    let parent_name = match &parent {
        Some(dir) => file_name_of(dir.as_str()),
        None => None,
    };
    match target(&file_name, &parent, &parent_name, prefix, append_dir) {
        Ok(t) => Ok(RenameOp { from: path.to_owned(), to: join(t.dir.as_str(), t.name.as_str()) }),
        Err(e) => Err(e),
    }
}

/// A file whose name has fewer bytes than the prefix has no rename, whether
/// or not the parent's name is asked for.
pub proof fn lemma_short_name_has_no_rename(path: Seq<char>, prefix: int, append_dir: bool)
    requires
        vstd::utf8::encode_utf8(text_or_empty(path_file_name(path))).len() < prefix,
    ensures
        rename_target_spec(path, prefix, append_dir) == Err::<RenameOpText, RenameError>(
            RenameError::PrefixTooLong,
        ),
{
}

/// The line that reports a rename, where reports are wanted.
pub open spec fn rename_report_spec(from: Seq<char>, to: Seq<char>, verbose: bool) -> Option<
    Seq<char>,
> {
    if verbose {
        Some("file "@ + from + " renamed to "@ + to)
    } else {
        None
    }
}

/// Writes the line that reports the rename of `from` to `to`; nothing where
/// `verbose` is off.
pub fn rename_report(from: &str, to: &str, verbose: bool) -> (r: Option<String>)
    ensures
        opt_text(r) == rename_report_spec(from@, to@, verbose),
{
    if verbose {
        Some("file ".to_owned().concat(from).concat(" renamed to ").concat(to))
    } else {
        None
    }
}

} // verus!
