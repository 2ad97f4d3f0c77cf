use vstd::prelude::*;

use crate::config::opt_text;
use crate::execution::ExecutionProcessStatus;
use crate::task::TaskStatus;

verus! {

/// Kinds of error entries in a conversation.
#[derive(Clone, Copy, Debug, PartialEq, Eq, Structural)]
pub enum NormalizedEntryError {
    SetupRequired,
    Other,
}

/// Kinds of conversation entries.
#[derive(Clone, Copy, Debug, PartialEq, Eq, Structural)]
pub enum NormalizedEntryType {
    UserMessage,
    AssistantMessage,
    ToolCall,
    SystemMessage,
    Thinking,
    ErrorMessage { error_type: NormalizedEntryError },
}

/// One structured entry of an agent conversation.
#[derive(Clone, Debug, PartialEq, Eq)]
pub struct NormalizedEntry {
    pub timestamp: Option<String>,
    pub entry_type: NormalizedEntryType,
    pub content: String,
}

/// The addition of one entry to a conversation, at a given position.
#[derive(Clone, Debug, PartialEq, Eq)]
pub struct ConversationPatch {
    pub index: usize,
    pub entry: NormalizedEntry,
}

impl ConversationPatch {
    /// The patch that adds `entry` at position `index`.
    pub fn add_normalized_entry(index: usize, entry: NormalizedEntry) -> (r: ConversationPatch)
        ensures
            r.index == index,
            r.entry == entry,
    {
        ConversationPatch { index, entry }
    }
}

/// One item of an execution's log stream.
#[derive(Clone, Debug, PartialEq, Eq)]
pub enum LogMsg {
    Stdout(String),
    Stderr(String),
    JsonPatch(ConversationPatch),
    SessionId(String),
    Finished,
}

/// A log item as plain values.
pub enum LogView {
    Stdout(Seq<char>),
    Stderr(Seq<char>),
    JsonPatch {
        index: usize,
        timestamp: Option<Seq<char>>,
        entry_type: NormalizedEntryType,
        content: Seq<char>,
    },
    SessionId(Seq<char>),
    Finished,
}

impl View for LogMsg {
    type V = LogView;

    open spec fn view(&self) -> LogView {
        match self {
            LogMsg::Stdout(s) => LogView::Stdout(s@),
            LogMsg::Stderr(s) => LogView::Stderr(s@),
            LogMsg::JsonPatch(p) => LogView::JsonPatch {
                index: p.index,
                timestamp: opt_text(p.entry.timestamp),
                entry_type: p.entry.entry_type,
                content: p.entry.content@,
            },
            LogMsg::SessionId(s) => LogView::SessionId(s@),
            LogMsg::Finished => LogView::Finished,
        }
    }
}

/// The views of a sequence of log items.
pub open spec fn views(s: Seq<LogMsg>) -> Seq<LogView> {
    s.map_values(|m: LogMsg| m@)
}

impl LogMsg {
    /// An item-for-item copy.
    pub fn duplicate(&self) -> (r: LogMsg)
        ensures
            r@ == self@,
    {
        match self {
            LogMsg::Stdout(s) => LogMsg::Stdout(s.clone()),
            LogMsg::Stderr(s) => LogMsg::Stderr(s.clone()),
            LogMsg::JsonPatch(p) => LogMsg::JsonPatch(
                ConversationPatch {
                    index: p.index,
                    entry: NormalizedEntry {
                        timestamp: crate::action::clone_opt_text(&p.entry.timestamp),
                        entry_type: p.entry.entry_type,
                        content: p.entry.content.clone(),
                    },
                },
            ),
            LogMsg::SessionId(s) => LogMsg::SessionId(s.clone()),
            LogMsg::Finished => LogMsg::Finished,
        }
    }
}

/// A selection of log items, by kind.
#[derive(Clone, Copy, Debug, PartialEq, Eq, Structural)]
pub enum LogSelection {
    /// Standard output and standard error: what is persisted.
    Stdio,
    /// Standard output, standard error and the end marker: the raw stream.
    Raw,
    /// Conversation patches: the normalised stream, before its end marker.
    Normalized,
    /// Standard output, standard error and conversation patches: what a rebuilt
    /// store is filled with.
    Replayable,
}

/// Whether a selection keeps an item.
pub open spec fn selects(sel: LogSelection, m: LogView) -> bool {
    match sel {
        LogSelection::Stdio => m is Stdout || m is Stderr,
        LogSelection::Raw => m is Stdout || m is Stderr || m is Finished,
        LogSelection::Normalized => m is JsonPatch,
        LogSelection::Replayable => m is Stdout || m is Stderr || m is JsonPatch,
    }
}

/// The items of `s` that `sel` keeps, in order.
pub open spec fn keep(s: Seq<LogView>, sel: LogSelection) -> Seq<LogView>
    decreases s.len(),
{
    if s.len() == 0 {
        Seq::empty()
    } else if selects(sel, s.last()) {
        keep(s.drop_last(), sel).push(s.last())
    } else {
        keep(s.drop_last(), sel)
    }
}

/// Whether a selection keeps an item.
pub fn is_selected(sel: LogSelection, m: &LogMsg) -> (r: bool)
    ensures
        r == selects(sel, m@),
{
    match sel {
        LogSelection::Stdio => matches!(m, LogMsg::Stdout(_) | LogMsg::Stderr(_)),
        LogSelection::Raw => matches!(m, LogMsg::Stdout(_) | LogMsg::Stderr(_) | LogMsg::Finished),
        LogSelection::Normalized => matches!(m, LogMsg::JsonPatch(_)),
        LogSelection::Replayable => matches!(
            m,
            LogMsg::Stdout(_) | LogMsg::Stderr(_) | LogMsg::JsonPatch(_)
        ),
    }
}

/// Copies of the items of `msgs` that `sel` keeps, in order.
pub fn select_messages(msgs: &[LogMsg], sel: LogSelection) -> (r: Vec<LogMsg>)
    ensures
        views(r@) == keep(views(msgs@), sel),
{
    let mut r: Vec<LogMsg> = Vec::new();
    let mut i: usize = 0;
    while i < msgs.len()
        invariant
            i <= msgs.len(),
            views(r@) == keep(views(msgs@.take(i as int)), sel),
        decreases msgs.len() - i,
    {
        proof {
            assert(views(msgs@.take(i + 1)).drop_last() =~= views(msgs@.take(i as int)));
            assert(views(msgs@.take(i + 1)).last() == msgs@[i as int]@);
        }
        if is_selected(sel, &msgs[i]) {
            let m = msgs[i].duplicate();
            r.push(m);
            proof {
                assert(views(r@) =~= keep(views(msgs@.take(i as int)), sel).push(m@));
            }
        }
        i += 1;
    }
    proof {
        assert(msgs@.take(msgs.len() as int) =~= msgs@);
    }
    r
}

/// A log in which the end marker, if present, is the last item.
pub open spec fn well_formed_log(s: Seq<LogView>) -> bool {
    forall|i: int| 0 <= i < s.len() - 1 ==> !(#[trigger] s[i] is Finished)
}

/// Whether a log ends with the end marker.
pub open spec fn log_finished(s: Seq<LogView>) -> bool {
    s.len() > 0 && s.last() is Finished
}

/// The in-memory log of one execution: append-only, with at most one end marker,
/// after which nothing more is taken.
pub struct MsgStore {
    history: Vec<LogMsg>,
}

impl View for MsgStore {
    type V = Seq<LogView>;

    closed spec fn view(&self) -> Seq<LogView> {
        views(self.history@)
    }
}

impl MsgStore {
    /// An empty store.
    pub fn new() -> (r: MsgStore)
        ensures
            r@ == Seq::<LogView>::empty(),
            well_formed_log(r@),
    {
        let r = MsgStore { history: Vec::new() };
        assert(views(r.history@) =~= Seq::<LogView>::empty());
        r
    }

    /// Whether the end marker has been pushed.
    pub fn is_finished(&self) -> (r: bool)
        ensures
            r == log_finished(self@),
    {
        let n = self.history.len();
        n > 0 && matches!(self.history[n - 1], LogMsg::Finished)
    }

    /// Append `msg`, unless the store is finished; returns whether it was taken.
    pub fn push(&mut self, msg: LogMsg) -> (r: bool)
        requires
            well_formed_log(old(self)@),
        ensures
            r == !log_finished(old(self)@),
            r ==> final(self)@ == old(self)@.push(msg@),
            !r ==> final(self)@ == old(self)@,
            well_formed_log(final(self)@),
    {
        if self.is_finished() {
            return false;
        }
        let ghost before = views(self.history@);
        let ghost m = msg@;
        self.history.push(msg);
        assert(views(self.history@) =~= before.push(m));
        true
    }

    /// Append the end marker, unless the store is already finished.
    pub fn push_finished(&mut self)
        requires
            well_formed_log(old(self)@),
        ensures
            well_formed_log(final(self)@),
            final(self)@ == if log_finished(old(self)@) {
                old(self)@
            } else {
                old(self)@.push(LogView::Finished)
            },
    {
        self.push(LogMsg::Finished);
    }

    /// Everything pushed so far, in order.
    pub fn history(&self) -> (r: &Vec<LogMsg>)
        ensures
            views(r@) == self@,
    {
        &self.history
    }
}

/// What the persistence pump does with one log item.
#[derive(Clone, Copy, Debug, PartialEq, Eq, Structural)]
pub enum PumpAction {
    /// Append the item as a line of the persisted log.
    AppendLogLine,
    /// Record the agent's session id on the coding turn.
    RecordSessionId,
    /// Ignore the item.
    Skip,
    /// Stop: the execution is finished.
    Stop,
}

/// The pump persists standard output and standard error, records session ids,
/// skips conversation patches and stops at the end marker.
pub fn pump_action(msg: &LogMsg) -> (r: PumpAction)
    ensures
        r == match msg@ {
            LogView::Stdout(_) | LogView::Stderr(_) => PumpAction::AppendLogLine,
            LogView::SessionId(_) => PumpAction::RecordSessionId,
            LogView::JsonPatch { .. } => PumpAction::Skip,
            LogView::Finished => PumpAction::Stop,
        },
{
    match msg {
        LogMsg::Stdout(_) | LogMsg::Stderr(_) => PumpAction::AppendLogLine,
        LogMsg::SessionId(_) => PumpAction::RecordSessionId,
        LogMsg::JsonPatch(_) => PumpAction::Skip,
        LogMsg::Finished => PumpAction::Stop,
    }
}

/// The items the pump persists from a store's history, in order: every standard
/// output and standard error item, once.
pub fn persisted_entries(store: &MsgStore) -> (r: Vec<LogMsg>)
    requires
        well_formed_log(store@),
    ensures
        views(r@) == keep(store@, LogSelection::Stdio),
{
    let history = store.history();
    let mut r: Vec<LogMsg> = Vec::new();
    let mut i: usize = 0;
    while i < history.len()
        invariant
            i <= history.len(),
            views(history@) == store@,
            well_formed_log(store@),
            views(r@) == keep(views(history@.take(i as int)), LogSelection::Stdio),
        decreases history.len() - i,
    {
        proof {
            assert(views(history@.take(i + 1)).drop_last() =~= views(history@.take(i as int)));
            assert(views(history@.take(i + 1)).last() == history@[i as int]@);
        }
        match pump_action(&history[i]) {
            PumpAction::AppendLogLine => {
                let m = history[i].duplicate();
                r.push(m);
                proof {
                    assert(views(r@) =~= keep(views(history@.take(i as int)), LogSelection::Stdio).push(m@));
                }
            },
            PumpAction::Stop => {
                proof {
                    assert(views(history@)[i as int] is Finished);
                    assert(i == history.len() - 1);
                    assert(history@.take(i + 1) =~= history@);
                }
                return r;
            },
            _ => {},
        }
        i += 1;
    }
    proof {
        assert(history@.take(history.len() as int) =~= history@);
    }
    r
}

/// A store rebuilt from persisted items: the replayable ones, then the end marker.
pub fn rebuild_store(entries: &[LogMsg]) -> (r: MsgStore)
    ensures
        r@ == keep(views(entries@), LogSelection::Replayable).push(LogView::Finished),
        well_formed_log(r@),
{
    let mut store = MsgStore::new();
    let mut i: usize = 0;
    while i < entries.len()
        invariant
            i <= entries.len(),
            store@ == keep(views(entries@.take(i as int)), LogSelection::Replayable),
            !log_finished(store@),
            well_formed_log(store@),
        decreases entries.len() - i,
    {
        proof {
            assert(views(entries@.take(i + 1)).drop_last() =~= views(entries@.take(i as int)));
            assert(views(entries@.take(i + 1)).last() == entries@[i as int]@);
        }
        if is_selected(LogSelection::Replayable, &entries[i]) {
            store.push(entries[i].duplicate());
        }
        i += 1;
    }
    proof {
        assert(entries@.take(entries.len() as int) =~= entries@);
    }
    store.push_finished();
    store
}

/// The raw stream served from persisted items: standard output and standard error,
/// then one end marker.
pub fn replay_raw_logs(entries: &[LogMsg]) -> (r: Vec<LogMsg>)
    ensures
        views(r@) == keep(views(entries@), LogSelection::Stdio).push(LogView::Finished),
{
    closed_stream(entries, LogSelection::Stdio)
}

/// The normalised stream of a store's history: its conversation patches, then one
/// end marker.
pub fn normalized_stream(history: &[LogMsg]) -> (r: Vec<LogMsg>)
    ensures
        views(r@) == keep(views(history@), LogSelection::Normalized).push(LogView::Finished),
{
    closed_stream(history, LogSelection::Normalized)
}

fn closed_stream(entries: &[LogMsg], sel: LogSelection) -> (r: Vec<LogMsg>)
    ensures
        views(r@) == keep(views(entries@), sel).push(LogView::Finished),
{
    let mut r = select_messages(entries, sel);
    let ghost before = r@;
    r.push(LogMsg::Finished);
    proof {
        assert(views(r@) =~= views(before).push(LogView::Finished));
    }
    r
}

proof fn lemma_keep_twice(s: Seq<LogView>, first: LogSelection, second: LogSelection)
    requires
        forall|m: LogView| selects(first, m) ==> selects(second, m),
    ensures
        keep(keep(s, first), second) == keep(s, first),
    decreases s.len(),
{
    if s.len() > 0 {
        lemma_keep_twice(s.drop_last(), first, second);
        if selects(first, s.last()) {
            let k = keep(s.drop_last(), first);
            assert(k.push(s.last()).drop_last() =~= k);
        }
    }
}

proof fn lemma_keep_stdio_of_raw(s: Seq<LogView>)
    ensures
        keep(keep(s, LogSelection::Raw), LogSelection::Stdio) == keep(s, LogSelection::Stdio),
    decreases s.len(),
{
    if s.len() > 0 {
        lemma_keep_stdio_of_raw(s.drop_last());
        let k = keep(s.drop_last(), LogSelection::Raw);
        if selects(LogSelection::Raw, s.last()) {
            assert(k.push(s.last()).drop_last() =~= k);
        }
    }
}

proof fn lemma_finished_in_keep(s: Seq<LogView>, sel: LogSelection, j: int)
    requires
        0 <= j < keep(s, sel).len(),
        keep(s, sel)[j] is Finished,
    ensures
        exists|i: int| 0 <= i < s.len() && s[i] is Finished && keep(s.take(i), sel).len() == j,
    decreases s.len(),
{
    let k = keep(s.drop_last(), sel);
    if j < k.len() {
        lemma_finished_in_keep(s.drop_last(), sel, j);
        let i = choose|i: int|
            0 <= i < s.drop_last().len() && s.drop_last()[i] is Finished && keep(
                s.drop_last().take(i),
                sel,
            ).len() == j;
        assert(s.drop_last().take(i) =~= s.take(i));
    } else {
        assert(s.take(s.len() - 1) =~= s.drop_last());
    }
}

/// A store rebuilt from what the pump persisted holds the original messages with the
/// conversation patches and session ids removed, then the end marker.
pub proof fn lemma_persist_round_trip(history: Seq<LogView>)
    ensures
        keep(keep(history, LogSelection::Stdio), LogSelection::Replayable).push(LogView::Finished)
            == keep(history, LogSelection::Stdio).push(LogView::Finished),
{
    lemma_keep_twice(history, LogSelection::Stdio, LogSelection::Replayable);
}

/// A subscriber of the raw stream of a well-formed log receives every standard output
/// and standard error item exactly once, in order, and the end marker at most once,
/// as the last item.
pub proof fn lemma_raw_stream_delivery(history: Seq<LogView>)
    requires
        well_formed_log(history),
    ensures
        keep(keep(history, LogSelection::Raw), LogSelection::Stdio) == keep(
            history,
            LogSelection::Stdio,
        ),
        well_formed_log(keep(history, LogSelection::Raw)),
{
    lemma_keep_stdio_of_raw(history);
    let k = keep(history, LogSelection::Raw);
    assert forall|j: int| 0 <= j < k.len() - 1 implies !(#[trigger] k[j] is Finished) by {
        if k[j] is Finished {
            lemma_finished_in_keep(history, LogSelection::Raw, j);
            let i = choose|i: int|
                0 <= i < history.len() && history[i] is Finished && keep(
                    history.take(i),
                    LogSelection::Raw,
                ).len() == j;
            assert(i == history.len() - 1);
            assert(history.take(i) =~= history.drop_last());
            assert(k.len() == keep(history.drop_last(), LogSelection::Raw).len() + 1);
        }
    }
}

/// Why a process could not be started.
#[derive(Clone, Debug, PartialEq, Eq)]
pub enum StartError {
    /// The agent's executable could not be resolved.
    ExecutableNotFound { program: String },
    /// Any other failure, with its description.
    Other { message: String },
}

/// The description of a start failure, as it appears in the log.
pub open spec fn describe_start_error(e: StartError) -> Seq<char> {
    match e {
        StartError::ExecutableNotFound { program } => "ExecutableNotFound { program: \""@ + program@
            + "\" }"@,
        StartError::Other { message } => message@,
    }
}

impl StartError {
    /// The description of the failure, as it appears in the log.
    pub fn describe(&self) -> (r: String)
        ensures
            r@ == describe_start_error(*self),
    {
        match self {
            StartError::ExecutableNotFound { program } => {
                let r = String::from_str("ExecutableNotFound { program: \"").concat(
                    program.as_str(),
                ).concat("\" }");
                r
            },
            StartError::Other { message } => message.clone(),
        }
    }
}

/// The help text for a missing executable.
pub open spec fn missing_executable_help(program: Seq<char>) -> Seq<char> {
    "The required executable `"@ + program + "` is not installed."@
}

/// The conversation position at which a start failure is reported.
pub const START_FAILURE_ENTRY_INDEX: usize = 2;

/// What a failed start records.
#[derive(Clone, Debug, PartialEq, Eq)]
pub struct StartFailure {
    pub process_status: ExecutionProcessStatus,
    pub exit_code: Option<i64>,
    pub task_status: TaskStatus,
    /// Items appended to the process's persisted log.
    pub log: Vec<LogMsg>,
}

/// A failed start marks the process Failed without exit code, sends the task to
/// InReview and logs the failure on standard error; a missing executable also adds
/// a setup-required error entry at conversation position 2.
pub fn start_failure(error: &StartError) -> (r: StartFailure)
    ensures
        r.process_status is Failed,
        r.exit_code is None,
        r.task_status == TaskStatus::InReview,
        r.log@.len() >= 1,
        r.log@[0]@ == LogView::Stderr(
            "Failed to start execution: "@ + describe_start_error(*error),
        ),
        match error {
            StartError::ExecutableNotFound { program } => r.log@.len() == 2 && r.log@[1]@
                == LogView::JsonPatch {
                index: 2,
                timestamp: None,
                entry_type: NormalizedEntryType::ErrorMessage {
                    error_type: NormalizedEntryError::SetupRequired,
                },
                content: missing_executable_help(program@),
            },
            StartError::Other { .. } => r.log@.len() == 1,
        },
{
    let line = String::from_str("Failed to start execution: ").concat(error.describe().as_str());
    let mut log: Vec<LogMsg> = Vec::new();
    log.push(LogMsg::Stderr(line));
    match error {
        StartError::ExecutableNotFound { program } => {
            let help = String::from_str("The required executable `").concat(
                program.as_str(),
            ).concat("` is not installed.");
            let entry = NormalizedEntry {
                timestamp: None,
                entry_type: NormalizedEntryType::ErrorMessage {
                    error_type: NormalizedEntryError::SetupRequired,
                },
                content: help,
            };
            log.push(
                LogMsg::JsonPatch(
                    ConversationPatch::add_normalized_entry(START_FAILURE_ENTRY_INDEX, entry),
                ),
            );
        },
        StartError::Other { .. } => {},
    }
    StartFailure {
        process_status: ExecutionProcessStatus::Failed,
        exit_code: None,
        task_status: TaskStatus::InReview,
        log,
    }
}

} // verus!
