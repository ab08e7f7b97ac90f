use vstd::prelude::*;
use vstd::string::StringExecFns;

use crate::status::{
    answered, is_write_protected, owner_can_write, Decision, DecisionView, InteractiveMode,
    Metadata, RmStatus, StatusView,
};

verus! {

/// The question put before removing a regular file:
/// `rm: remove [write-protected ]regular [empty ]file '<name>'?`.
pub open spec fn file_message(write_protected: bool, empty: bool, name: Seq<char>) -> Seq<char> {
    "rm: remove"@ + (if write_protected {
        " write-protected "@
    } else {
        " "@
    }) + "regular"@ + (if empty {
        " empty "@
    } else {
        " "@
    }) + "file '"@ + name + "'?"@
}

/// The decision on a regular file: `Always` asks every time, the other
/// modes ask only for a write-protected file and accept the rest. A yes
/// accepts.
pub open spec fn file_decision(metadata: Metadata, name: Seq<char>, mode: InteractiveMode) -> DecisionView {
    let write_protected = !owner_can_write(metadata.mode);
    if mode == InteractiveMode::Always || write_protected {
        DecisionView::Ask {
            message: file_message(write_protected, metadata.len == 0, name),
            on_yes: StatusView::Accept,
        }
    } else {
        DecisionView::Settled(StatusView::Accept)
    }
}

/// Decides on the regular file `name`.
pub fn prompt(metadata: &Metadata, name: &str, mode: InteractiveMode) -> (r: Decision)
    ensures
        r@ == file_decision(*metadata, name@, mode),
{
    let write_protected = is_write_protected(metadata);
    let empty = metadata.len == 0;
    let asks = match mode {
        InteractiveMode::Always => true,
        InteractiveMode::Once | InteractiveMode::Never => write_protected,
    };
    if !asks {
        return Decision::Settled(RmStatus::Accept);
    }
    let mut message = String::from_str("rm: remove");
    if write_protected {
        message.append(" write-protected ");
    } else {
        message.append(" ");
    }
    message.append("regular");
    if empty {
        message.append(" empty ");
    } else {
        message.append(" ");
    }
    message.append("file '");
    message.append(name);
    message.append("'?");
    Decision::Ask { message, on_yes: RmStatus::Accept }
}

/// An empty file that its owner may write is accepted in `Never` mode
/// without a question.
pub proof fn lemma_plain_empty_file_accepted(metadata: Metadata, name: Seq<char>)
    requires
        metadata.len == 0,
        owner_can_write(metadata.mode),
    ensures
        file_decision(metadata, name, InteractiveMode::Never) == DecisionView::Settled(
            StatusView::Accept,
        ),
{
}

/// A write-protected file is always asked about in `Never` mode; a yes
/// accepts it and a no declines it.
pub proof fn lemma_protected_file_asks(metadata: Metadata, name: Seq<char>)
    requires
        !owner_can_write(metadata.mode),
    ensures
        file_decision(metadata, name, InteractiveMode::Never) is Ask,
        answered(file_decision(metadata, name, InteractiveMode::Never), Ok(true))
            == StatusView::Accept,
        answered(file_decision(metadata, name, InteractiveMode::Never), Ok(false))
            == StatusView::Declined,
{
}

} // verus!
