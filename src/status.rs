use vstd::prelude::*;
use vstd::string::StringExecFns;

verus! {

/// How eagerly the user is asked to confirm removals.
#[derive(Clone, Copy, Debug, PartialEq, Eq, Structural)]
pub enum InteractiveMode {
    /// Ask before every removable item.
    Always,
    /// Ask at most once per invocation; the caller has already asked.
    Once,
    /// Ask only where write protection calls for it.
    Never,
}

/// What the decisions read of an entity's metadata.
#[derive(Clone, Copy, Debug, PartialEq, Eq, Structural)]
pub struct Metadata {
    /// Size in bytes.
    pub len: u64,
    /// Unix permission bits.
    pub mode: u32,
}

/// Owner-write permission bit.
pub const OWNER_WRITE: u32 = 0o200;

/// The owner may write the entity.
pub open spec fn owner_can_write(mode: u32) -> bool {
    mode & OWNER_WRITE != 0
}

/// The entity is write-protected: its owner-write bit is unset.
pub fn is_write_protected(metadata: &Metadata) -> (r: bool)
    ensures
        r == !owner_can_write(metadata.mode),
{
    metadata.mode & OWNER_WRITE == 0
}

/// Why an entity could not be decided on.
#[derive(Debug)]
pub enum Error {
    UnknownEntity(String),
    NoSuchFile(String),
    IsDirectory(String),
    DirectoryNotEmpty(String),
    /// A failed probe or prompt, with its message.
    Io(String),
}

/// An [`Error`] as plain text values.
pub enum ErrorView {
    UnknownEntity(Seq<char>),
    NoSuchFile(Seq<char>),
    IsDirectory(Seq<char>),
    DirectoryNotEmpty(Seq<char>),
    Io(Seq<char>),
}

impl View for Error {
    type V = ErrorView;

    open spec fn view(&self) -> ErrorView {
        match self {
            Error::UnknownEntity(s) => ErrorView::UnknownEntity(s@),
            Error::NoSuchFile(s) => ErrorView::NoSuchFile(s@),
            Error::IsDirectory(s) => ErrorView::IsDirectory(s@),
            Error::DirectoryNotEmpty(s) => ErrorView::DirectoryNotEmpty(s@),
            Error::Io(s) => ErrorView::Io(s@),
        }
    }
}

/// The text that explains an error to the user.
pub open spec fn error_reason(e: ErrorView) -> Seq<char> {
    match e {
        ErrorView::UnknownEntity(_) => "Unknown file type"@,
        ErrorView::NoSuchFile(_) => "No such file or directory"@,
        ErrorView::IsDirectory(_) => "Is a directory"@,
        ErrorView::DirectoryNotEmpty(_) => "Directory not empty"@,
        ErrorView::Io(message) => message,
    }
}

/// The line shown for an error: `rm: cannot remove '<name>': <reason>` for
/// an error about a named entity, `rm: <message>` for a failed probe or prompt.
pub open spec fn error_line(e: ErrorView) -> Seq<char> {
    match e {
        ErrorView::UnknownEntity(name) | ErrorView::NoSuchFile(name) | ErrorView::IsDirectory(name)
        | ErrorView::DirectoryNotEmpty(name) => "rm: cannot remove '"@ + name + "': "@
            + error_reason(e),
        ErrorView::Io(message) => "rm: "@ + message,
    }
}

impl Error {
    /// The line that tells the user about this error.
    pub fn report(&self) -> (r: String)
        ensures
            r@ == error_line(self@),
    {
        let (name, reason) = match self {
            Error::UnknownEntity(name) => (name, "Unknown file type"),
            Error::NoSuchFile(name) => (name, "No such file or directory"),
            Error::IsDirectory(name) => (name, "Is a directory"),
            Error::DirectoryNotEmpty(name) => (name, "Directory not empty"),
            Error::Io(message) => {
                let mut line = String::from_str("rm: ");
                line.append(message.as_str());
                return line;
            },
        };
        let mut line = String::from_str("rm: cannot remove '");
        line.append(name.as_str());
        line.append("': ");
        line.append(reason);
        line
    }
}

/// Outcome of one decision.
#[derive(Debug)]
pub enum RmStatus {
    /// Remove the entity now.
    Accept,
    /// Walk the children of this directory first, then offer it again.
    Descend(String),
    /// The user refused: leave the entity and everything under it.
    Declined,
    /// No decision could be made: abort this walk.
    Failed(Error),
}

/// An [`RmStatus`] as plain values.
pub enum StatusView {
    Accept,
    Descend(Seq<char>),
    Declined,
    Failed(ErrorView),
}

impl View for RmStatus {
    type V = StatusView;

    open spec fn view(&self) -> StatusView {
        match self {
            RmStatus::Accept => StatusView::Accept,
            RmStatus::Descend(p) => StatusView::Descend(p@),
            RmStatus::Declined => StatusView::Declined,
            RmStatus::Failed(e) => StatusView::Failed(e@),
        }
    }
}

/// What a decision needs before it becomes an outcome.
#[derive(Debug)]
pub enum Decision {
    /// The outcome is known without asking.
    Settled(RmStatus),
    /// Ask `message`; a yes gives `on_yes`, a no declines.
    Ask { message: String, on_yes: RmStatus },
}

/// A [`Decision`] as plain values.
pub enum DecisionView {
    Settled(StatusView),
    Ask { message: Seq<char>, on_yes: StatusView },
}

impl View for Decision {
    type V = DecisionView;

    open spec fn view(&self) -> DecisionView {
        match self {
            Decision::Settled(s) => DecisionView::Settled(s@),
            Decision::Ask { message, on_yes } => DecisionView::Ask {
                message: message@,
                on_yes: on_yes@,
            },
        }
    }
}

/// A reply to a question as plain values.
pub open spec fn reply_view(reply: Result<bool, Error>) -> Result<bool, ErrorView> {
    match reply {
        Ok(yes) => Ok(yes),
        Err(e) => Err(e@),
    }
}

/// The outcome of a decision once the reply (if it asked) is in: yes takes
/// the offered outcome, no declines, an unreadable reply fails.
pub open spec fn answered(d: DecisionView, reply: Result<bool, ErrorView>) -> StatusView {
    match d {
        DecisionView::Settled(s) => s,
        DecisionView::Ask { on_yes, .. } => match reply {
            Ok(true) => on_yes,
            Ok(false) => StatusView::Declined,
            Err(e) => StatusView::Failed(e),
        },
    }
}

impl Decision {
    /// The outcome, given the user's reply. A settled decision ignores it.
    pub fn resolve(self, reply: Result<bool, Error>) -> (r: RmStatus)
        ensures
            r@ == answered(self@, reply_view(reply)),
    {
        match self {
            Decision::Settled(s) => s,
            Decision::Ask { on_yes, .. } => match reply {
                Ok(true) => on_yes,
                Ok(false) => RmStatus::Declined,
                Err(e) => RmStatus::Failed(e),
            },
        }
    }

    /// The decision needs a reply from the user.
    pub fn asks(&self) -> (r: bool)
        ensures
            r == (self@ is Ask),
    {
        match self {
            Decision::Settled(_) => false,
            Decision::Ask { .. } => true,
        }
    }
}

} // verus!
