use vstd::prelude::*;
use vstd::string::StringExecFns;

use crate::options::RmOptions;
use crate::status::{
    answered, is_write_protected, owner_can_write, Decision, DecisionView, Error, ErrorView,
    InteractiveMode, Metadata, RmStatus, StatusView,
};

verus! {

/// The question put about a directory:
/// `rm: <descend into|remove> [write-protected ]directory '<name>'?`.
pub open spec fn dir_message(descend: bool, write_protected: bool, name: Seq<char>) -> Seq<char> {
    "rm: "@ + (if descend {
        "descend into"@
    } else {
        "remove"@
    }) + (if write_protected {
        " write-protected "@
    } else {
        " "@
    }) + "directory '"@ + name + "'?"@
}

/// A directory is first offered for descent: only when it is recursive,
/// holds entries and has not been visited yet.
pub open spec fn descends(recursive: bool, empty: bool, visited: bool) -> bool {
    recursive && !empty && !visited
}

/// The directory's children are still to be walked before it can go.
pub fn must_descend(opt: &RmOptions, empty: bool, visited: bool) -> (r: bool)
    ensures
        r == descends(opt.recursive, empty, visited),
{
    opt.recursive && !empty && !visited
}

/// Whether the mode asks about this directory; where it does not, the
/// directory is accepted outright.
pub open spec fn dir_asks(
    mode: InteractiveMode,
    recursive: bool,
    dir: bool,
    empty: bool,
    write_protected: bool,
) -> bool {
    match mode {
        InteractiveMode::Always => (empty && dir) || recursive,
        InteractiveMode::Once => false,
        InteractiveMode::Never => write_protected,
    }
}

/// The decision on a directory, given whether it turned out empty.
pub open spec fn dir_decision(
    recursive: bool,
    dir: bool,
    path: Seq<char>,
    metadata: Metadata,
    name: Seq<char>,
    mode: InteractiveMode,
    visited: bool,
    is_empty_dir: Result<bool, ErrorView>,
) -> DecisionView {
    match is_empty_dir {
        Err(e) => DecisionView::Settled(StatusView::Failed(e)),
        Ok(empty) => if !recursive && !dir {
            DecisionView::Settled(StatusView::Failed(ErrorView::IsDirectory(name)))
        } else if !recursive && !empty {
            DecisionView::Settled(StatusView::Failed(ErrorView::DirectoryNotEmpty(name)))
        } else {
            let write_protected = !owner_can_write(metadata.mode);
            let descend = descends(recursive, empty, visited);
            if dir_asks(mode, recursive, dir, empty, write_protected) {
                DecisionView::Ask {
                    message: dir_message(descend, write_protected, name),
                    on_yes: if descend {
                        StatusView::Descend(path)
                    } else {
                        StatusView::Accept
                    },
                }
            } else {
                DecisionView::Settled(StatusView::Accept)
            }
        },
    }
}

/// The result of probing a directory for entries, as plain values.
pub open spec fn probe_view(is_empty_dir: &Result<bool, Error>) -> Result<bool, ErrorView> {
    match is_empty_dir {
        Ok(empty) => Ok(*empty),
        Err(e) => Err(e@),
    }
}

/// Decides on the directory at `path`, shown as `name`. `is_empty_dir` is
/// the caller's probe of its entries; a failed probe fails the decision.
/// `visited` is set when the directory is offered again after its children.
pub fn prompt(
    opt: &RmOptions,
    path: &str,
    metadata: &Metadata,
    name: &str,
    mode: InteractiveMode,
    visited: bool,
    is_empty_dir: Result<bool, Error>,
) -> (r: Decision)
    ensures
        r@ == dir_decision(
            opt.recursive,
            opt.dir,
            path@,
            *metadata,
            name@,
            mode,
            visited,
            probe_view(&is_empty_dir),
        ),
{
    let empty = match is_empty_dir {
        Ok(empty) => empty,
        Err(e) => return Decision::Settled(RmStatus::Failed(e)),
    };
    if !opt.recursive {
        if !opt.dir {
            return Decision::Settled(RmStatus::Failed(Error::IsDirectory(name.to_owned())));
        }
        if !empty {
            return Decision::Settled(RmStatus::Failed(Error::DirectoryNotEmpty(name.to_owned())));
        }
    }
    let write_protected = is_write_protected(metadata);
    let descend = opt.recursive && !empty && !visited;
    let asks = match mode {
        InteractiveMode::Always => (empty && opt.dir) || opt.recursive,
        InteractiveMode::Once => false,
        InteractiveMode::Never => write_protected,
    };
    if !asks {
        return Decision::Settled(RmStatus::Accept);
    }
    let mut message = String::from_str("rm: ");
    if descend {
        message.append("descend into");
    } else {
        message.append("remove");
    }
    if write_protected {
        message.append(" write-protected ");
    } else {
        message.append(" ");
    }
    message.append("directory '");
    message.append(name);
    message.append("'?");
    let on_yes = if descend {
        RmStatus::Descend(String::from_str(path))
    } else {
        RmStatus::Accept
    };
    Decision::Ask { message, on_yes }
}

/// On its first offer a non-empty directory under `recursive` is either
/// accepted outright, by a mode that does not ask about it, or asked about
/// with descent as the yes-answer; `Always` always asks. It is never accepted
/// after a question before its children have been walked.
pub proof fn lemma_first_offer_descends(
    dir: bool,
    path: Seq<char>,
    metadata: Metadata,
    name: Seq<char>,
    mode: InteractiveMode,
)
    ensures
        ({
            let d = dir_decision(true, dir, path, metadata, name, mode, false, Ok(false));
            &&& d is Ask <==> dir_asks(mode, true, dir, false, !owner_can_write(metadata.mode))
            &&& d is Settled ==> d == DecisionView::Settled(StatusView::Accept)
            &&& d is Ask ==> answered(d, Ok(true)) == StatusView::Descend(path)
            &&& mode == InteractiveMode::Always ==> d is Ask
        }),
{
}

/// A directory offered again after its children never descends a second
/// time, whatever the reply.
pub proof fn lemma_reoffer_never_descends(
    recursive: bool,
    dir: bool,
    path: Seq<char>,
    metadata: Metadata,
    name: Seq<char>,
    mode: InteractiveMode,
    is_empty_dir: Result<bool, ErrorView>,
    reply: Result<bool, ErrorView>,
)
    ensures
        !(answered(
            dir_decision(recursive, dir, path, metadata, name, mode, true, is_empty_dir),
            reply,
        ) is Descend),
{
}

/// Without `recursive` or `dir`, a directory fails as a directory, without
/// a question.
pub proof fn lemma_plain_removal_is_directory(
    path: Seq<char>,
    metadata: Metadata,
    name: Seq<char>,
    mode: InteractiveMode,
    visited: bool,
)
    ensures
        dir_decision(false, false, path, metadata, name, mode, visited, Ok(false))
            == DecisionView::Settled(StatusView::Failed(ErrorView::IsDirectory(name))),
{
}

/// With `dir` but not `recursive`, a non-empty directory fails as not
/// empty, without a question.
pub proof fn lemma_dir_removal_not_empty(
    path: Seq<char>,
    metadata: Metadata,
    name: Seq<char>,
    mode: InteractiveMode,
    visited: bool,
)
    ensures
        dir_decision(false, true, path, metadata, name, mode, visited, Ok(false))
            == DecisionView::Settled(StatusView::Failed(ErrorView::DirectoryNotEmpty(name))),
{
}

} // verus!
