//! The readiness result and the single-assignment cell that hands it to
//! every consumer.
//!
//! A producer settles the cell once, with the connection target or with a
//! failure. Whoever looks before that sees nothing yet; whoever looks after
//! sees the one settled value. A producer that goes away without settling
//! leaves a terminal failure behind, so that nobody waits forever.

use vstd::prelude::*;
use vstd::string::StringExecFns;

verus! {

/// Where the server is reached, and the credential to present if this run
/// generated one.
#[derive(Debug, PartialEq, Eq)]
pub struct ServerReadyData {
    pub url: String,
    pub password: Option<String>,
}

/// The mathematical value of a [`ServerReadyData`].
pub struct ReadyView {
    pub url: Seq<char>,
    pub password: Option<Seq<char>>,
}

impl View for ServerReadyData {
    type V = ReadyView;

    open spec fn view(&self) -> ReadyView {
        ReadyView {
            url: self.url@,
            password: match self.password {
                Some(p) => Some(p@),
                None => None,
            },
        }
    }
}

impl Clone for ServerReadyData {
    fn clone(&self) -> (copy: ServerReadyData)
        ensures
            copy@ == self@,
    {
        let password = match &self.password {
            Some(p) => Some(p.clone()),
            None => None,
        };
        ServerReadyData { url: self.url.clone(), password }
    }
}

/// Why no server could be handed out.
#[derive(Debug, PartialEq, Eq)]
pub enum ServerError {
    /// The spawned server did not answer its health check in time. `logs`
    /// is what the log ring held when the wait was given up.
    SpawnTimedOut { logs: String },
    /// The producer went away without publishing a result.
    StatusUnavailable,
}

/// The mathematical value of a [`ServerError`].
pub enum ServerErrorView {
    SpawnTimedOut { logs: Seq<char> },
    StatusUnavailable,
}

impl View for ServerError {
    type V = ServerErrorView;

    open spec fn view(&self) -> ServerErrorView {
        match self {
            ServerError::SpawnTimedOut { logs } => ServerErrorView::SpawnTimedOut { logs: logs@ },
            ServerError::StatusUnavailable => ServerErrorView::StatusUnavailable,
        }
    }
}

/// The text shown for an error.
pub open spec fn error_message(error: ServerErrorView) -> Seq<char> {
    match error {
        ServerErrorView::SpawnTimedOut { logs } => "Failed to spawn OpenCode Server. Logs:\n"@
            + logs,
        ServerErrorView::StatusUnavailable => "Failed to get server status"@,
    }
}

impl Clone for ServerError {
    fn clone(&self) -> (copy: ServerError)
        ensures
            copy@ == self@,
    {
        match self {
            ServerError::SpawnTimedOut { logs } => ServerError::SpawnTimedOut {
                logs: logs.clone(),
            },
            ServerError::StatusUnavailable => ServerError::StatusUnavailable,
        }
    }
}

impl ServerError {
    /// The text shown for this error.
    pub fn message(&self) -> (text: String)
        ensures
            text@ == error_message(self@),
    {
        match self {
            ServerError::SpawnTimedOut { logs } => {
                let mut text = String::from_str("Failed to spawn OpenCode Server. Logs:\n");
                text.append(logs.as_str());
                text
            },
            ServerError::StatusUnavailable => String::from_str("Failed to get server status"),
        }
    }
}

/// The result of resolving a server: its target, or the reason there is none.
pub type ServerStatus = Result<ServerReadyData, ServerError>;

/// The mathematical value of a [`ServerStatus`].
pub type StatusView = Result<ReadyView, ServerErrorView>;

/// The view of a status.
pub open spec fn status_view(status: ServerStatus) -> StatusView {
    match status {
        Ok(ready) => Ok(ready@),
        Err(error) => Err(error@),
    }
}

/// Copies a status.
pub fn clone_status(status: &ServerStatus) -> (copy: ServerStatus)
    ensures
        status_view(copy) == status_view(*status),
{
    match status {
        Ok(ready) => Ok(ready.clone()),
        Err(error) => Err(error.clone()),
    }
}

/// The single-assignment cell through which the readiness result reaches
/// its consumers.
#[derive(Debug)]
pub enum Readiness {
    /// Nothing was published yet.
    Pending,
    /// The producer published this result.
    Published(ServerStatus),
    /// The producer went away without publishing.
    Abandoned,
}

/// The mathematical value of a [`Readiness`].
pub enum ReadinessView {
    Pending,
    Published(StatusView),
    Abandoned,
}

impl View for Readiness {
    type V = ReadinessView;

    open spec fn view(&self) -> ReadinessView {
        match self {
            Readiness::Pending => ReadinessView::Pending,
            Readiness::Published(status) => ReadinessView::Published(status_view(*status)),
            Readiness::Abandoned => ReadinessView::Abandoned,
        }
    }
}

/// What a consumer sees of a cell: nothing while it is pending, afterwards
/// the published result, or the terminal failure of an abandoned cell.
pub open spec fn observed(cell: ReadinessView) -> Option<StatusView> {
    match cell {
        ReadinessView::Pending => None,
        ReadinessView::Published(status) => Some(status),
        ReadinessView::Abandoned => Some(Err(ServerErrorView::StatusUnavailable)),
    }
}

/// What a producer may do to a cell.
pub enum ReadinessOp {
    Publish(StatusView),
    Abandon,
}

/// The cell after one operation: the first operation on a pending cell
/// settles it, and a settled cell stays as it is.
pub open spec fn apply_op(cell: ReadinessView, op: ReadinessOp) -> ReadinessView {
    match cell {
        ReadinessView::Pending => match op {
            ReadinessOp::Publish(status) => ReadinessView::Published(status),
            ReadinessOp::Abandon => ReadinessView::Abandoned,
        },
        _ => cell,
    }
}

/// Whether the operation publishes a value, that is whether it is a
/// `Publish` that finds the cell pending.
pub open spec fn publishes(cell: ReadinessView, op: ReadinessOp) -> bool {
    cell is Pending && op is Publish
}

/// The cell after a sequence of operations.
pub open spec fn apply_ops(cell: ReadinessView, ops: Seq<ReadinessOp>) -> ReadinessView
    decreases ops.len(),
{
    if ops.len() == 0 {
        cell
    } else {
        apply_op(apply_ops(cell, ops.drop_last()), ops.last())
    }
}

impl Readiness {
    /// A cell in which nothing was published yet.
    pub fn new() -> (cell: Readiness)
        ensures
            cell@ == ReadinessView::Pending,
    {
        Readiness::Pending
    }

    /// Publishes `status` if nothing was published before, and says whether
    /// it did. A settled cell keeps its value.
    pub fn publish(&mut self, status: ServerStatus) -> (accepted: bool)
        ensures
            final(self)@ == apply_op(old(self)@, ReadinessOp::Publish(status_view(status))),
            accepted == publishes(old(self)@, ReadinessOp::Publish(status_view(status))),
    {
        match self {
            Readiness::Pending => {
                *self = Readiness::Published(status);
                true
            },
            _ => false,
        }
    }

    /// Records that the producer went away. A settled cell keeps its value.
    pub fn abandon(&mut self)
        ensures
            final(self)@ == apply_op(old(self)@, ReadinessOp::Abandon),
    {
        match self {
            Readiness::Pending => {
                *self = Readiness::Abandoned;
            },
            _ => {},
        }
    }

    /// What a consumer sees now: `None` while the cell is pending.
    pub fn observe(&self) -> (seen: Option<ServerStatus>)
        ensures
            match seen {
                Some(status) => observed(self@) == Some(status_view(status)),
                None => observed(self@) is None,
            },
    {
        match self {
            Readiness::Pending => None,
            Readiness::Published(status) => Some(clone_status(status)),
            Readiness::Abandoned => Some(Err(ServerError::StatusUnavailable)),
        }
    }
}

/// A settled cell is not changed by anything a producer does.
pub proof fn lemma_settled_stays(cell: ReadinessView, ops: Seq<ReadinessOp>)
    requires
        !(cell is Pending),
    ensures
        apply_ops(cell, ops) == cell,
    decreases ops.len(),
{
    if ops.len() > 0 {
        lemma_settled_stays(cell, ops.drop_last());
    }
}

/// Operations applied in two runs give what they give in one.
pub proof fn lemma_apply_ops_split(cell: ReadinessView, ops: Seq<ReadinessOp>, k: int)
    requires
        0 <= k <= ops.len(),
    ensures
        apply_ops(cell, ops) == apply_ops(apply_ops(cell, ops.take(k)), ops.skip(k)),
    decreases ops.len(),
{
    if k == ops.len() {
        assert(ops.take(k) =~= ops);
        assert(ops.skip(k) =~= Seq::<ReadinessOp>::empty());
    } else {
        lemma_apply_ops_split(cell, ops.drop_last(), k);
        assert(ops.drop_last().take(k) =~= ops.take(k));
        assert(ops.drop_last().skip(k) =~= ops.skip(k).drop_last());
        assert(ops.skip(k).last() == ops.last());
    }
}

/// Whatever the producers do and whenever the consumers look, all consumers
/// that see a value see the same one: if a consumer saw a value after the
/// first `i` operations, a consumer that looks after the first `j` sees
/// that value too.
pub proof fn lemma_observations_agree(
    cell: ReadinessView,
    ops: Seq<ReadinessOp>,
    i: int,
    j: int,
)
    requires
        0 <= i <= j <= ops.len(),
        observed(apply_ops(cell, ops.take(i))) is Some,
    ensures
        observed(apply_ops(cell, ops.take(j))) == observed(apply_ops(cell, ops.take(i))),
{
    let upto_j = ops.take(j);
    lemma_apply_ops_split(cell, upto_j, i);
    assert(upto_j.take(i) =~= ops.take(i));
    lemma_settled_stays(apply_ops(cell, ops.take(i)), upto_j.skip(i));
}

/// At most one operation of a sequence publishes: once one did, none of the
/// later ones does.
pub proof fn lemma_publishes_at_most_once(
    cell: ReadinessView,
    ops: Seq<ReadinessOp>,
    i: int,
    j: int,
)
    requires
        0 <= i < j < ops.len(),
        publishes(apply_ops(cell, ops.take(i)), ops[i]),
    ensures
        !publishes(apply_ops(cell, ops.take(j)), ops[j]),
{
    let upto_j = ops.take(j);
    lemma_apply_ops_split(cell, upto_j, i + 1);
    assert(upto_j.take(i + 1) =~= ops.take(i + 1));
    assert(ops.take(i + 1).drop_last() =~= ops.take(i));
    assert(ops.take(i + 1).last() == ops[i]);
    lemma_settled_stays(apply_ops(cell, ops.take(i + 1)), upto_j.skip(i + 1));
}

} // verus!
