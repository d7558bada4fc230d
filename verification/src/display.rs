//! The live display of a run: one row per check, moved from state to state
//! by the events that the checks send.
//!
//! Nothing here touches a terminal. Each function takes the display's state
//! and what happened, and returns the next state together with what is to
//! be drawn; the caller draws it.

use std::time::{Duration, Instant};
use vstd::prelude::*;
use crate::table::Table;
use vstd::string::StringExecFns;
use crate::text::{chars_of, contains_text, decimal_digits, includes, push_decimal, same_text};

verus! {

/// Where one check stands.
#[derive(Debug, Clone, PartialEq)]
pub enum CheckStatus {
    Pending,
    Running { start_time: Instant },
    Success { warnings: usize, duration: Duration },
    Warning { warnings: usize, duration: Duration },
    Error { errors: usize, warnings: usize, duration: Duration },
    Failed { reason: String, duration: Duration },
}

/// A status with its text as characters.
pub enum StatusView {
    Pending,
    Running { start_time: Instant },
    Success { warnings: usize, duration: Duration },
    Warning { warnings: usize, duration: Duration },
    Error { errors: usize, warnings: usize, duration: Duration },
    Failed { reason: Seq<char>, duration: Duration },
}

impl View for CheckStatus {
    type V = StatusView;

    open spec fn view(&self) -> StatusView {
        match *self {
            CheckStatus::Pending => StatusView::Pending,
            CheckStatus::Running { start_time } => StatusView::Running { start_time },
            CheckStatus::Success { warnings, duration } => StatusView::Success {
                warnings,
                duration,
            },
            CheckStatus::Warning { warnings, duration } => StatusView::Warning {
                warnings,
                duration,
            },
            CheckStatus::Error { errors, warnings, duration } => StatusView::Error {
                errors,
                warnings,
                duration,
            },
            CheckStatus::Failed { reason, duration } => StatusView::Failed {
                reason: reason@,
                duration,
            },
        }
    }
}

/// An event with its texts as characters.
pub enum EventView {
    CheckStarted { name: Seq<char> },
    CheckProgress { name: Seq<char>, message: Seq<char> },
    CheckCompleted { name: Seq<char>, status: StatusView },
    AllCompleted,
}

impl View for StatusEvent {
    type V = EventView;

    open spec fn view(&self) -> EventView {
        match *self {
            StatusEvent::CheckStarted { name } => EventView::CheckStarted { name: name@ },
            StatusEvent::CheckProgress { name, message } => EventView::CheckProgress {
                name: name@,
                message: message@,
            },
            StatusEvent::CheckCompleted { name, status } => EventView::CheckCompleted {
                name: name@,
                status: status@,
            },
            StatusEvent::AllCompleted => EventView::AllCompleted,
        }
    }
}

/// What a check reports while it runs.
#[derive(Debug, Clone)]
pub enum StatusEvent {
    CheckStarted { name: String },
    CheckProgress { name: String, message: String },
    CheckCompleted { name: String, status: CheckStatus },
    AllCompleted,
}

/// What the display knows of one check: its screen row, its status, and
/// when it last started.
#[derive(Debug)]
pub struct CheckRow {
    pub row: u16,
    pub status: CheckStatus,
    pub started: Instant,
}

/// The rows of the screen above the first check: a heading and a blank row.
pub const BASE_ROW: u16 = 2;

/// The greatest number of checks that one screen can list.
pub const MAX_CHECKS: usize = 65532;

/// The number of frames in the spinner's cycle.
pub const SPINNER_FRAMES: usize = 10;

/// A status that ends a check: `Success`, `Warning`, `Error` or `Failed`.
pub open spec fn is_terminal(status: CheckStatus) -> bool {
    status is Success || status is Warning || status is Error || status is Failed
}

/// How far a status is along the way from `Pending` over `Running` to an
/// end.
pub open spec fn progress_rank(status: CheckStatus) -> nat {
    match status {
        CheckStatus::Pending => 0,
        CheckStatus::Running { .. } => 1,
        _ => 2,
    }
}

/// The display's table after one event that arrived at `now`.
///
/// A check that is `Pending` starts; a check that has not ended takes the
/// final status that a completion brings. Every other event leaves the
/// table as it is: one for a name that has no row, a start of what is
/// already running or over, a completion that brings no final status, a
/// second completion, a progress message, the end of the run.
pub open spec fn step(rows: Map<Seq<char>, CheckRow>, event: StatusEvent, now: Instant) -> Map<
    Seq<char>,
    CheckRow,
> {
    match event {
        StatusEvent::CheckStarted { name } => {
            if rows.contains_key(name@) && rows[name@].status is Pending {
                rows.insert(
                    name@,
                    CheckRow {
                        row: rows[name@].row,
                        status: CheckStatus::Running { start_time: now },
                        started: now,
                    },
                )
            } else {
                rows
            }
        },
        StatusEvent::CheckCompleted { name, status } => {
            if rows.contains_key(name@) && is_terminal(status) && !is_terminal(rows[name@].status) {
                rows.insert(
                    name@,
                    CheckRow { row: rows[name@].row, status, started: rows[name@].started },
                )
            } else {
                rows
            }
        },
        _ => rows,
    }
}

/// The display's table after a sequence of events, each with the time at
/// which it arrived.
pub open spec fn run_events(rows: Map<Seq<char>, CheckRow>, events: Seq<(StatusEvent, Instant)>) -> Map<
    Seq<char>,
    CheckRow,
>
    decreases events.len(),
{
    if events.len() == 0 {
        rows
    } else {
        step(run_events(rows, events.drop_last()), events.last().0, events.last().1)
    }
}

/// The table `rows` after the checks `names` were laid out at `now`, one
/// row each in the order given. A name given twice has the row of its last
/// place.
pub open spec fn laid_out(rows: Map<Seq<char>, CheckRow>, names: Seq<Seq<char>>, now: Instant) -> Map<
    Seq<char>,
    CheckRow,
>
    decreases names.len(),
{
    if names.len() == 0 {
        rows
    } else {
        laid_out(rows, names.drop_last(), now).insert(
            names.last(),
            CheckRow {
                row: (BASE_ROW + names.len() - 1) as u16,
                status: CheckStatus::Pending,
                started: now,
            },
        )
    }
}

/// The names `base` with those of `names` after them that were not known
/// before, each once.
pub open spec fn with_new_names(base: Seq<Seq<char>>, names: Seq<Seq<char>>) -> Seq<Seq<char>>
    decreases names.len(),
{
    if names.len() == 0 {
        base
    } else {
        let before = with_new_names(base, names.drop_last());
        if before.contains(names.last()) {
            before
        } else {
            before.push(names.last())
        }
    }
}

/// One event changes neither which checks have a row nor which row a check
/// has, and moves no status backwards; a status that ended a check stays.
pub proof fn lemma_step(rows: Map<Seq<char>, CheckRow>, event: StatusEvent, now: Instant)
    ensures
        step(rows, event, now).dom() == rows.dom(),
        forall|k: Seq<char>| #[trigger]
            rows.contains_key(k) ==> {
                &&& step(rows, event, now)[k].row == rows[k].row
                &&& progress_rank(step(rows, event, now)[k].status) >= progress_rank(
                    rows[k].status,
                )
                &&& is_terminal(rows[k].status) ==> step(rows, event, now)[k] == rows[k]
            },
{
}

/// No sequence of events changes which checks have a row, or the row that
/// a check has.
pub proof fn lemma_rows_are_fixed(
    rows: Map<Seq<char>, CheckRow>,
    events: Seq<(StatusEvent, Instant)>,
)
    ensures
        run_events(rows, events).dom() == rows.dom(),
        forall|k: Seq<char>| #[trigger]
            rows.contains_key(k) ==> run_events(rows, events)[k].row == rows[k].row,
    decreases events.len(),
{
    if events.len() > 0 {
        lemma_rows_are_fixed(rows, events.drop_last());
        lemma_step(run_events(rows, events.drop_last()), events.last().0, events.last().1);
    }
}

/// No sequence of events moves a status backwards: not from `Running` to
/// `Pending`, and not from an end to `Running` or `Pending`.
pub proof fn lemma_status_never_goes_back(
    rows: Map<Seq<char>, CheckRow>,
    events: Seq<(StatusEvent, Instant)>,
    name: Seq<char>,
)
    requires
        rows.contains_key(name),
    ensures
        progress_rank(run_events(rows, events)[name].status) >= progress_rank(rows[name].status),
    decreases events.len(),
{
    if events.len() > 0 {
        lemma_status_never_goes_back(rows, events.drop_last(), name);
        lemma_rows_are_fixed(rows, events.drop_last());
        lemma_step(run_events(rows, events.drop_last()), events.last().0, events.last().1);
    }
}

/// A check that has ended keeps its status, whatever events follow.
pub proof fn lemma_terminal_status_stays(
    rows: Map<Seq<char>, CheckRow>,
    events: Seq<(StatusEvent, Instant)>,
    name: Seq<char>,
)
    requires
        rows.contains_key(name),
        is_terminal(rows[name].status),
    ensures
        run_events(rows, events)[name] == rows[name],
        !(run_events(rows, events)[name].status is Running),
        !(run_events(rows, events)[name].status is Pending),
    decreases events.len(),
{
    if events.len() > 0 {
        lemma_terminal_status_stays(rows, events.drop_last(), name);
        lemma_rows_are_fixed(rows, events.drop_last());
        lemma_step(run_events(rows, events.drop_last()), events.last().0, events.last().1);
    }
}

/// After the checks were laid out, each name has a row, and a name that was
/// given once has the row of its place in the list.
pub proof fn lemma_laid_out(
    rows: Map<Seq<char>, CheckRow>,
    names: Seq<Seq<char>>,
    now: Instant,
    i: int,
)
    requires
        0 <= i < names.len(),
        names.len() <= MAX_CHECKS,
    ensures
        laid_out(rows, names, now).contains_key(names[i]),
        (forall|j: int| 0 <= j < names.len() && j != i ==> names[j] != names[i]) ==> laid_out(
            rows,
            names,
            now,
        )[names[i]].row == BASE_ROW + i,
    decreases names.len(),
{
    if i < names.len() - 1 {
        lemma_laid_out(rows, names.drop_last(), now, i);
    }
}

/// Whatever events follow the layout of the checks `names`, in whatever
/// order, each name that was given once keeps the row of its place in the
/// list.
pub proof fn lemma_row_assignment_is_invariant(
    rows: Map<Seq<char>, CheckRow>,
    names: Seq<Seq<char>>,
    now: Instant,
    events: Seq<(StatusEvent, Instant)>,
    i: int,
)
    requires
        0 <= i < names.len(),
        names.len() <= MAX_CHECKS,
        forall|j: int| 0 <= j < names.len() && j != i ==> names[j] != names[i],
    ensures
        run_events(laid_out(rows, names, now), events).contains_key(names[i]),
        run_events(laid_out(rows, names, now), events)[names[i]].row == BASE_ROW + i,
{
    lemma_laid_out(rows, names, now, i);
    lemma_rows_are_fixed(laid_out(rows, names, now), events);
}

/// What is shown in the row of one check.
#[derive(Debug)]
pub enum RowLine {
    /// The check has not started.
    Pending { name: String },
    /// The check has just started: the first frame of the spinner.
    Started { name: String },
    /// The check is running: a frame of the spinner and the time since
    /// `since`.
    Spinning { name: String, frame: usize, since: Instant },
    /// A message from the running check and the time since `since`.
    Progress { name: String, message: String, since: Instant },
    /// The outcome of the check.
    Finished { name: String, status: CheckStatus },
}

/// What the caller is to do on the terminal.
#[derive(Debug)]
pub enum DisplayAction {
    /// Nothing.
    Nothing,
    /// Clear the screen, hide the cursor and print the heading at the top.
    OpenScreen,
    /// Print the heading and the names of the checks, one to a line.
    PrintHeader { names: Vec<String> },
    /// Go to the row, clear it and print the line there.
    DrawRow { row: u16, line: RowLine },
    /// Print that the check has started, and stay on the line.
    PrintStart { name: String },
    /// Print the outcome and end the line.
    PrintOutcome { status: CheckStatus },
    /// Stop refreshing, go to the row, show the cursor again, print the
    /// total time, and take no more events.
    CloseScreen { cursor_row: u16 },
    /// Take no more events.
    Stop,
}

/// `r` is the greatest row that a check has in `rows`, or 0 if there is no
/// check.
pub open spec fn is_highest_row(rows: Map<Seq<char>, CheckRow>, r: u16) -> bool {
    &&& forall|k: Seq<char>| rows.contains_key(k) ==> (#[trigger] rows[k]).row <= r
    &&& (r == 0 || exists|k: Seq<char>| rows.contains_key(k) && (#[trigger] rows[k]).row == r)
}

/// The greatest row that a check has in `rows`, or 0 if there is no check.
pub open spec fn highest_row(rows: Map<Seq<char>, CheckRow>) -> u16 {
    choose|r: u16| is_highest_row(rows, r)
}

/// What is to be done on the terminal for one event, given the table
/// before it.
///
/// On a terminal: a start that takes effect draws the first spinner frame,
/// a progress message for a known check is drawn as it is, a completion
/// that takes effect draws the outcome, and the end of the run closes the
/// screen two rows below the last check. Without a terminal: a start and a
/// final status are printed, a progress message is not, and the end of the
/// run stops the loop.
pub open spec fn action_for(rows: Map<Seq<char>, CheckRow>, interactive: bool, event: StatusEvent) -> DisplayAction {
    if interactive {
        match event {
            StatusEvent::CheckStarted { name } => {
                if rows.contains_key(name@) && rows[name@].status is Pending {
                    DisplayAction::DrawRow { row: rows[name@].row, line: RowLine::Started { name } }
                } else {
                    DisplayAction::Nothing
                }
            },
            StatusEvent::CheckProgress { name, message } => {
                if rows.contains_key(name@) {
                    DisplayAction::DrawRow {
                        row: rows[name@].row,
                        line: RowLine::Progress { name, message, since: rows[name@].started },
                    }
                } else {
                    DisplayAction::Nothing
                }
            },
            StatusEvent::CheckCompleted { name, status } => {
                if rows.contains_key(name@) && is_terminal(status) && !is_terminal(
                    rows[name@].status,
                ) {
                    DisplayAction::DrawRow {
                        row: rows[name@].row,
                        line: RowLine::Finished { name, status },
                    }
                } else {
                    DisplayAction::Nothing
                }
            },
            StatusEvent::AllCompleted => DisplayAction::CloseScreen {
                cursor_row: (highest_row(rows) + 2) as u16,
            },
        }
    } else {
        match event {
            StatusEvent::CheckStarted { name } => DisplayAction::PrintStart { name },
            StatusEvent::CheckProgress { .. } => DisplayAction::Nothing,
            StatusEvent::CheckCompleted { name, status } => {
                if is_terminal(status) {
                    DisplayAction::PrintOutcome { status }
                } else {
                    DisplayAction::Nothing
                }
            },
            StatusEvent::AllCompleted => DisplayAction::Stop,
        }
    }
}

impl CheckStatus {
    /// Whether the status ends a check.
    pub fn is_final(&self) -> (r: bool)
        ensures
            r == is_terminal(*self),
    {
        match self {
            CheckStatus::Pending => false,
            CheckStatus::Running { .. } => false,
            _ => true,
        }
    }

    /// A copy of the status.
    pub fn duplicate(&self) -> (copy: Self)
        ensures
            copy == *self,
    {
        match self {
            CheckStatus::Pending => CheckStatus::Pending,
            CheckStatus::Running { start_time } => CheckStatus::Running { start_time: *start_time },
            CheckStatus::Success { warnings, duration } => CheckStatus::Success {
                warnings: *warnings,
                duration: *duration,
            },
            CheckStatus::Warning { warnings, duration } => CheckStatus::Warning {
                warnings: *warnings,
                duration: *duration,
            },
            CheckStatus::Error { errors, warnings, duration } => CheckStatus::Error {
                errors: *errors,
                warnings: *warnings,
                duration: *duration,
            },
            CheckStatus::Failed { reason, duration } => CheckStatus::Failed {
                reason: reason.clone(),
                duration: *duration,
            },
        }
    }
}

/// The sign that stands before the outcome of a check.
#[derive(Debug, Clone, Copy, PartialEq, Eq)]
pub enum Glyph {
    /// The check succeeded.
    Tick,
    /// The check succeeded with warnings.
    Caution,
    /// The check found errors or could not run.
    Cross,
}

/// What the outcome line of a check says: its sign, what it counts or why
/// it failed, and how long the check took.
#[derive(Debug)]
pub struct Outcome {
    pub glyph: Glyph,
    pub detail: Option<String>,
    pub duration: Duration,
}

/// An outcome with its text as characters.
pub struct OutcomeView {
    pub glyph: Glyph,
    pub detail: Option<Seq<char>>,
    pub duration: Duration,
}

impl View for Outcome {
    type V = OutcomeView;

    open spec fn view(&self) -> OutcomeView {
        OutcomeView {
            glyph: self.glyph,
            detail: match self.detail {
                Some(d) => Some(d@),
                None => None,
            },
            duration: self.duration,
        }
    }
}

/// What the outcome line says of a status, if the status is a final one.
///
/// A success shows a tick, and its warnings only if there are any; a
/// warning shows a caution sign and the warnings; an error shows a cross,
/// the errors and the warnings; a failure shows a cross and the reason.
pub open spec fn outcome_for(status: CheckStatus) -> Option<OutcomeView> {
    match status {
        CheckStatus::Success { warnings, duration } => Some(
            OutcomeView {
                glyph: Glyph::Tick,
                detail: if warnings > 0 {
                    Some(decimal_digits(warnings as nat) + " warnings"@)
                } else {
                    None
                },
                duration,
            },
        ),
        CheckStatus::Warning { warnings, duration } => Some(
            OutcomeView {
                glyph: Glyph::Caution,
                detail: Some(decimal_digits(warnings as nat) + " warnings"@),
                duration,
            },
        ),
        CheckStatus::Error { errors, warnings, duration } => Some(
            OutcomeView {
                glyph: Glyph::Cross,
                detail: Some(
                    decimal_digits(errors as nat) + " errors, "@ + decimal_digits(warnings as nat)
                        + " warnings"@,
                ),
                duration,
            },
        ),
        CheckStatus::Failed { reason, duration } => Some(
            OutcomeView { glyph: Glyph::Cross, detail: Some(reason@), duration },
        ),
        _ => None,
    }
}

/// A number and `noun` after it.
pub fn count_with_noun(n: usize, noun: &str) -> (text: String)
    ensures
        text@ == decimal_digits(n as nat) + noun@,
{
    let mut text = String::new();
    push_decimal(&mut text, n);
    text.append(noun);
    text
}

impl CheckStatus {
    /// What the outcome line says of the status, if it is a final one.
    pub fn outcome(&self) -> (outcome: Option<Outcome>)
        ensures
            match outcome {
                Some(o) => outcome_for(*self) == Some(o@),
                None => outcome_for(*self) is None,
            },
    {
        match self {
            CheckStatus::Success { warnings, duration } => {
                let detail = if *warnings > 0 {
                    Some(count_with_noun(*warnings, " warnings"))
                } else {
                    None
                };
                Some(Outcome { glyph: Glyph::Tick, detail, duration: *duration })
            },
            CheckStatus::Warning { warnings, duration } => Some(
                Outcome {
                    glyph: Glyph::Caution,
                    detail: Some(count_with_noun(*warnings, " warnings")),
                    duration: *duration,
                },
            ),
            CheckStatus::Error { errors, warnings, duration } => {
                let mut text = count_with_noun(*errors, " errors, ");
                push_decimal(&mut text, *warnings);
                text.append(" warnings");
                Some(Outcome { glyph: Glyph::Cross, detail: Some(text), duration: *duration })
            },
            CheckStatus::Failed { reason, duration } => Some(
                Outcome { glyph: Glyph::Cross, detail: Some(reason.clone()), duration: *duration },
            ),
            _ => None,
        }
    }
}

/// The state of the display: whether it draws on a terminal, and the table
/// of checks with their rows.
pub struct InteractiveDisplay {
    check_states: Table<CheckRow>,
    is_interactive: bool,
}

impl View for InteractiveDisplay {
    type V = Map<Seq<char>, CheckRow>;

    closed spec fn view(&self) -> Map<Seq<char>, CheckRow> {
        self.check_states@
    }
}

/// A running check among the entries, with what its spinner row shows: the
/// name, the row, and the time it started.
pub struct Spinner {
    pub name: Seq<char>,
    pub row: u16,
    pub since: Instant,
}

/// The running checks among the first `upto` entries, in the order of the
/// entries.
pub open spec fn spinners(names: Seq<Seq<char>>, rows: Seq<CheckRow>, upto: int) -> Seq<Spinner>
    decreases upto,
{
    if upto <= 0 {
        Seq::empty()
    } else if rows[upto - 1].status is Running {
        spinners(names, rows, upto - 1).push(
            Spinner { name: names[upto - 1], row: rows[upto - 1].row, since: rows[upto - 1].started },
        )
    } else {
        spinners(names, rows, upto - 1)
    }
}

/// `spinner` is what the entry at position `j` shows while it runs.
pub open spec fn is_spinner_of(
    names: Seq<Seq<char>>,
    rows: Seq<CheckRow>,
    j: int,
    spinner: Spinner,
) -> bool {
    &&& 0 <= j < rows.len()
    &&& rows[j].status is Running
    &&& spinner == (Spinner { name: names[j], row: rows[j].row, since: rows[j].started })
}

/// An entry that is running is among the spinners.
pub proof fn lemma_running_entry_spins(
    names: Seq<Seq<char>>,
    rows: Seq<CheckRow>,
    upto: int,
    j: int,
)
    requires
        0 <= j < upto <= rows.len(),
        rows[j].status is Running,
    ensures
        spinners(names, rows, upto).contains(
            Spinner { name: names[j], row: rows[j].row, since: rows[j].started },
        ),
    decreases upto,
{
    let wanted = Spinner { name: names[j], row: rows[j].row, since: rows[j].started };
    let now = spinners(names, rows, upto);
    if j < upto - 1 {
        lemma_running_entry_spins(names, rows, upto - 1, j);
        let before = spinners(names, rows, upto - 1);
        let i = choose|i: int| 0 <= i < before.len() && before[i] == wanted;
        assert(now[i] == wanted);
    } else {
        assert(now[now.len() - 1] == wanted);
    }
}

/// Every spinner is what some running entry shows; the entry's position is
/// returned.
pub proof fn lemma_spinner_is_running(
    names: Seq<Seq<char>>,
    rows: Seq<CheckRow>,
    upto: int,
    i: int,
) -> (j: int)
    requires
        0 <= upto <= rows.len(),
        0 <= i < spinners(names, rows, upto).len(),
    ensures
        0 <= j < upto,
        is_spinner_of(names, rows, j, spinners(names, rows, upto)[i]),
    decreases upto,
{
    let before = spinners(names, rows, upto - 1);
    if i < before.len() {
        lemma_spinner_is_running(names, rows, upto - 1, i)
    } else {
        upto - 1
    }
}

/// `action` redraws the row of `spinner` with the spinner frame `frame`.
pub open spec fn draws_spinner(action: DisplayAction, spinner: Spinner, frame: usize) -> bool {
    &&& action matches DisplayAction::DrawRow { row, line: RowLine::Spinning { name, frame: shown, since } }
    &&& row == spinner.row
    &&& name@ == spinner.name
    &&& shown == frame
    &&& since == spinner.since
}

impl InteractiveDisplay {
    /// No check is listed twice, and two rows are free below every check.
    pub closed spec fn wf(&self) -> bool {
        &&& self.check_states.wf()
        &&& forall|i: int|
            0 <= i < self.check_states.spec_len() ==> (#[trigger] self.check_states.spec_value(
                i,
            )).row <= u16::MAX - 2
    }

    /// Whether the display draws on a terminal.
    pub closed spec fn interactive(&self) -> bool {
        self.is_interactive
    }

    /// The names of the checks, in the order in which they were laid out.
    pub closed spec fn names(&self) -> Seq<Seq<char>> {
        self.check_states.spec_keys()
    }

    /// What is known of the checks, in the order in which they were laid
    /// out.
    pub closed spec fn entries(&self) -> Seq<CheckRow> {
        self.check_states.spec_values()
    }

    /// The entries in the order of layout are the entries by name.
    pub proof fn lemma_entries(&self)
        requires
            self.wf(),
        ensures
            self.names().len() == self.entries().len(),
            forall|i: int|
                0 <= i < self.names().len() ==> self@.contains_key(#[trigger] self.names()[i])
                    && self@[self.names()[i]] == self.entries()[i],
            forall|k: Seq<char>| #[trigger]
                self@.contains_key(k) ==> exists|i: int|
                    0 <= i < self.names().len() && self.names()[i] == k,
            forall|k: Seq<char>| #[trigger]
                self@.contains_key(k) ==> self@[k].row <= u16::MAX - 2,
    {
        self.check_states.lemma_positions();
        assert forall|i: int| 0 <= i < self.names().len() implies self@.contains_key(
            #[trigger] self.names()[i],
        ) && self@[self.names()[i]] == self.entries()[i] by {
            assert(self.check_states@.contains_key(self.check_states.spec_key(i)));
        }
    }

    /// The checks that a beat of the spinner redraws are the running ones
    /// and no others: each has its own row and start time there, and a
    /// check that is not running is not among them.
    pub proof fn lemma_spinners_are_the_running_checks(&self)
        requires
            self.wf(),
        ensures
            forall|k: Seq<char>|
                self@.contains_key(k) && (#[trigger] self@[k]).status is Running ==> spinners(
                    self.names(),
                    self.entries(),
                    self.names().len() as int,
                ).contains(Spinner { name: k, row: self@[k].row, since: self@[k].started }),
            forall|i: int|
                0 <= i < spinners(self.names(), self.entries(), self.names().len() as int).len()
                    ==> {
                    let s = #[trigger] spinners(
                        self.names(),
                        self.entries(),
                        self.names().len() as int,
                    )[i];
                    &&& self@.contains_key(s.name)
                    &&& self@[s.name].status is Running
                    &&& self@[s.name].row == s.row
                    &&& self@[s.name].started == s.since
                },
    {
        self.lemma_entries();
        let all = spinners(self.names(), self.entries(), self.names().len() as int);
        assert forall|k: Seq<char>|
            self@.contains_key(k) && (#[trigger] self@[k]).status is Running implies all.contains(
            Spinner { name: k, row: self@[k].row, since: self@[k].started },
        ) by {
            let j = choose|j: int| 0 <= j < self.names().len() && self.names()[j] == k;
            lemma_running_entry_spins(
                self.names(),
                self.entries(),
                self.names().len() as int,
                j,
            );
        }
        assert forall|i: int| 0 <= i < all.len() implies {
            let s = #[trigger] all[i];
            &&& self@.contains_key(s.name)
            &&& self@[s.name].status is Running
            &&& self@[s.name].row == s.row
            &&& self@[s.name].started == s.since
        } by {
            let j = lemma_spinner_is_running(
                self.names(),
                self.entries(),
                self.names().len() as int,
                i,
            );
        }
    }

    /// A display without checks. It draws on a terminal if `interactive`,
    /// and prints line by line if not.
    pub fn new(interactive: bool) -> (display: Self)
        ensures
            display.wf(),
            display.interactive() == interactive,
            display@ == Map::<Seq<char>, CheckRow>::empty(),
            display.names() == Seq::<Seq<char>>::empty(),
    {
        InteractiveDisplay { check_states: Table::new(), is_interactive: interactive }
    }

    /// Whether the display draws on a terminal.
    pub fn is_interactive(&self) -> (r: bool)
        ensures
            r == self.interactive(),
    {
        self.is_interactive
    }

    /// The status of the check `name`, if it has a row.
    pub fn status_of(&self, name: &str) -> (status: Option<&CheckStatus>)
        requires
            self.wf(),
        ensures
            match status {
                Some(s) => self@.contains_key(name@) && *s == self@[name@].status,
                None => !self@.contains_key(name@),
            },
    {
        match self.check_states.get(name) {
            Some(entry) => Some(&entry.status),
            None => None,
        }
    }

    /// The row of the check `name`, if it has one.
    pub fn row_of(&self, name: &str) -> (row: Option<u16>)
        requires
            self.wf(),
        ensures
            match row {
                Some(r) => self@.contains_key(name@) && r == self@[name@].row,
                None => !self@.contains_key(name@),
            },
    {
        match self.check_states.get(name) {
            Some(entry) => Some(entry.row),
            None => None,
        }
    }

    /// Lays the checks out at `now`. On a terminal each check gets the next
    /// free row below the heading, in the order given, and is drawn there as
    /// pending. Without a terminal the names are printed under the heading
    /// and no rows are kept.
    pub fn initialize(&mut self, tool_names: Vec<String>, now: Instant) -> (actions: Vec<
        DisplayAction,
    >)
        requires
            old(self).wf(),
            tool_names.len() <= MAX_CHECKS,
        ensures
            final(self).wf(),
            final(self).interactive() == old(self).interactive(),
            !old(self).interactive() ==> final(self)@ == old(self)@ && actions@ == seq![
                DisplayAction::PrintHeader { names: tool_names },
            ],
            old(self).interactive() ==> {
                &&& final(self)@ == laid_out(old(self)@, tool_names.deep_view(), now)
                &&& final(self).names() == with_new_names(
                    old(self).names(),
                    tool_names.deep_view(),
                )
                &&& actions.len() == tool_names.len() + 1
                &&& actions[0] == DisplayAction::OpenScreen
                &&& forall|i: int|
                    0 <= i < tool_names.len() ==> #[trigger] actions[i + 1]
                        == (DisplayAction::DrawRow {
                        row: (BASE_ROW + i) as u16,
                        line: RowLine::Pending { name: tool_names[i] },
                    })
            },
    {
        let mut actions: Vec<DisplayAction> = Vec::new();
        if !self.is_interactive {
            actions.push(DisplayAction::PrintHeader { names: tool_names });
            return actions;
        }
        actions.push(DisplayAction::OpenScreen);
        let ghost names = tool_names.deep_view();
        let mut i: usize = 0;
        while i < tool_names.len()
            invariant
                self.wf(),
                self.is_interactive,
                i <= tool_names.len() <= MAX_CHECKS,
                names == tool_names.deep_view(),
                self@ == laid_out(old(self)@, names.take(i as int), now),
                self.names() == with_new_names(old(self).names(), names.take(i as int)),
                actions.len() == i + 1,
                actions[0] == DisplayAction::OpenScreen,
                forall|j: int|
                    0 <= j < i ==> #[trigger] actions[j + 1] == (DisplayAction::DrawRow {
                        row: (BASE_ROW + j) as u16,
                        line: RowLine::Pending { name: tool_names[j] },
                    }),
            decreases tool_names.len() - i,
        {
            let row: u16 = BASE_ROW + (i as u16);
            let name = tool_names[i].clone();
            let ghost before = self.check_states;
            proof {
                assert(names.take(i + 1).drop_last() =~= names.take(i as int));
            }
            self.check_states.set(
                tool_names[i].clone(),
                CheckRow { row, status: CheckStatus::Pending, started: now },
            );
            proof {
                before.lemma_positions();
                self.check_states.lemma_positions();
                if !before@.contains_key(tool_names[i as int]@) && before.spec_keys().contains(
                    tool_names[i as int]@,
                ) {
                    let j = choose|j: int|
                        0 <= j < before.spec_keys().len() && before.spec_keys()[j]
                            == tool_names[i as int]@;
                    assert(before@.contains_key(before.spec_key(j)));
                }
                assert forall|j: int| 0 <= j < self.check_states.spec_len() implies (
                #[trigger] self.check_states.spec_value(j)).row <= u16::MAX - 2 by {
                    let k = self.check_states.spec_key(j);
                }
            }
            actions.push(DisplayAction::DrawRow { row, line: RowLine::Pending { name } });
            i += 1;
        }
        assert(names.take(tool_names.len() as int) =~= names);
        actions
    }

    /// Takes one event that arrived at `now`: moves the table on and says
    /// what is to be done on the terminal. Without a terminal the table
    /// stays as it is.
    pub fn handle_event(&mut self, event: StatusEvent, now: Instant) -> (action: DisplayAction)
        requires
            old(self).wf(),
        ensures
            final(self).wf(),
            final(self).interactive() == old(self).interactive(),
            final(self).names() == old(self).names(),
            final(self)@ == if old(self).interactive() {
                step(old(self)@, event, now)
            } else {
                old(self)@
            },
            action == action_for(old(self)@, old(self).interactive(), event),
    {
        if !self.is_interactive {
            return match event {
                StatusEvent::CheckStarted { name } => DisplayAction::PrintStart { name },
                StatusEvent::CheckProgress { .. } => DisplayAction::Nothing,
                StatusEvent::CheckCompleted { name, status } => {
                    if status.is_final() {
                        DisplayAction::PrintOutcome { status }
                    } else {
                        DisplayAction::Nothing
                    }
                },
                StatusEvent::AllCompleted => DisplayAction::Stop,
            };
        }
        match event {
            StatusEvent::CheckStarted { name } => self.handle_check_started(name, now),
            StatusEvent::CheckProgress { name, message } => self.handle_check_progress(
                name,
                message,
            ),
            StatusEvent::CheckCompleted { name, status } => self.handle_check_completed(
                name,
                status,
            ),
            StatusEvent::AllCompleted => self.handle_all_completed(),
        }
    }

    /// A check says that it has started. If it has a row and is pending, it
    /// is running from `now` on and its row shows the first spinner frame.
    pub fn handle_check_started(&mut self, name: String, now: Instant) -> (action: DisplayAction)
        requires
            old(self).wf(),
        ensures
            final(self).wf(),
            final(self).interactive() == old(self).interactive(),
            final(self).names() == old(self).names(),
            final(self)@ == step(old(self)@, StatusEvent::CheckStarted { name }, now),
            action == action_for(old(self)@, true, StatusEvent::CheckStarted { name }),
    {
        proof {
            self.check_states.lemma_positions();
        }
        match self.check_states.position(name.as_str()) {
            None => DisplayAction::Nothing,
            Some(i) => {
                let entry = self.check_states.value_at(i);
                let row = entry.row;
                match entry.status {
                    CheckStatus::Pending => {
                        let ghost before = self.check_states;
                        self.check_states.set_at(
                            i,
                            CheckRow {
                                row,
                                status: CheckStatus::Running { start_time: now },
                                started: now,
                            },
                        );
                        proof {
                            assert forall|j: int|
                                0 <= j < self.check_states.spec_len() implies (
                            #[trigger] self.check_states.spec_value(j)).row <= u16::MAX - 2 by {
                                assert(before.spec_value(j).row <= u16::MAX - 2);
                            }
                        }
                        DisplayAction::DrawRow { row, line: RowLine::Started { name } }
                    },
                    _ => DisplayAction::Nothing,
                }
            },
        }
    }

    /// A running check sends a message. If the check has a row, the row
    /// shows the message and the time since the check started.
    pub fn handle_check_progress(&self, name: String, message: String) -> (action: DisplayAction)
        requires
            self.wf(),
        ensures
            action == action_for(self@, true, StatusEvent::CheckProgress { name, message }),
    {
        match self.check_states.get(name.as_str()) {
            None => DisplayAction::Nothing,
            Some(entry) => DisplayAction::DrawRow {
                row: entry.row,
                line: RowLine::Progress { name, message, since: entry.started },
            },
        }
    }

    /// A check says how it ended. If it has a row, has not ended before, and
    /// `status` is a final one, the check takes it and its row shows the
    /// outcome.
    pub fn handle_check_completed(&mut self, name: String, status: CheckStatus) -> (action:
        DisplayAction)
        requires
            old(self).wf(),
        ensures
            final(self).wf(),
            final(self).interactive() == old(self).interactive(),
            final(self).names() == old(self).names(),
            forall|now: Instant|
                final(self)@ == #[trigger] step(
                    old(self)@,
                    StatusEvent::CheckCompleted { name, status },
                    now,
                ),
            action == action_for(old(self)@, true, StatusEvent::CheckCompleted { name, status }),
    {
        proof {
            self.check_states.lemma_positions();
        }
        if !status.is_final() {
            return DisplayAction::Nothing;
        }
        match self.check_states.position(name.as_str()) {
            None => DisplayAction::Nothing,
            Some(i) => {
                let entry = self.check_states.value_at(i);
                if entry.status.is_final() {
                    return DisplayAction::Nothing;
                }
                let row = entry.row;
                let started = entry.started;
                let shown = status.duplicate();
                let ghost before = self.check_states;
                self.check_states.set_at(i, CheckRow { row, status, started });
                proof {
                    assert forall|j: int| 0 <= j < self.check_states.spec_len() implies (
                    #[trigger] self.check_states.spec_value(j)).row <= u16::MAX - 2 by {
                        assert(before.spec_value(j).row <= u16::MAX - 2);
                    }
                }
                DisplayAction::DrawRow { row, line: RowLine::Finished { name, status: shown } }
            },
        }
    }

    /// The run is over: the screen is closed two rows below the last check.
    pub fn handle_all_completed(&self) -> (action: DisplayAction)
        requires
            self.wf(),
        ensures
            action == action_for(self@, true, StatusEvent::AllCompleted),
    {
        let mut max_row: u16 = 0;
        let mut i: usize = 0;
        proof {
            self.check_states.lemma_positions();
        }
        while i < self.check_states.len()
            invariant
                self.wf(),
                i <= self.check_states.spec_len(),
                max_row <= u16::MAX - 2,
                forall|j: int| 0 <= j < i ==> (#[trigger] self.check_states.spec_value(j)).row <= max_row,
                max_row == 0 || exists|j: int|
                    0 <= j < i && (#[trigger] self.check_states.spec_value(j)).row == max_row,
            decreases self.check_states.spec_len() - i,
        {
            let row = self.check_states.value_at(i).row;
            if row > max_row {
                max_row = row;
            }
            i += 1;
        }
        proof {
            if max_row != 0 {
                let j = choose|j: int|
                    0 <= j < i && (#[trigger] self.check_states.spec_value(j)).row == max_row;
                let k = self.check_states.spec_key(j);
            }
            assert(is_highest_row(self@, max_row));
        }
        DisplayAction::CloseScreen { cursor_row: max_row + 2 }
    }

    /// One beat of the spinner. Every running check has its row redrawn with
    /// the frame `frame`, in the order of layout, and no other row is
    /// touched; the frame after `frame` is returned with the rows.
    pub fn tick(&self, frame: usize) -> (beat: (Vec<DisplayAction>, usize))
        requires
            self.wf(),
            frame < SPINNER_FRAMES,
        ensures
            beat.1 == (frame + 1) % (SPINNER_FRAMES as int),
            beat.0.len() == spinners(self.names(), self.entries(), self.names().len() as int).len(),
            forall|i: int|
                0 <= i < beat.0.len() ==> draws_spinner(
                    #[trigger] beat.0[i],
                    spinners(self.names(), self.entries(), self.names().len() as int)[i],
                    frame,
                ),
    {
        let mut actions: Vec<DisplayAction> = Vec::new();
        let mut i: usize = 0;
        proof {
            self.check_states.lemma_positions();
        }
        while i < self.check_states.len()
            invariant
                self.wf(),
                i <= self.check_states.spec_len(),
                self.names().len() == self.check_states.spec_len(),
                actions.len() == spinners(self.names(), self.entries(), i as int).len(),
                forall|j: int|
                    0 <= j < actions.len() ==> draws_spinner(
                        #[trigger] actions[j],
                        spinners(self.names(), self.entries(), i as int)[j],
                        frame,
                    ),
            decreases self.check_states.spec_len() - i,
        {
            let entry = self.check_states.value_at(i);
            match entry.status {
                CheckStatus::Running { .. } => {
                    let name = self.check_states.key_at(i).clone();
                    actions.push(
                        DisplayAction::DrawRow {
                            row: entry.row,
                            line: RowLine::Spinning { name, frame, since: entry.started },
                        },
                    );
                },
                _ => {},
            }
            i += 1;
        }
        (actions, (frame + 1) % SPINNER_FRAMES)
    }

    /// Whether the cursor has to be shown again when the display is given
    /// up: on a terminal it was hidden.
    pub fn cleanup(&self) -> (show_cursor: bool)
        ensures
            show_cursor == self.interactive(),
    {
        self.is_interactive
    }
}

/// The value of the first variable called `name` in an environment given
/// as pairs of name and value.
pub open spec fn env_value(env: Seq<(String, String)>, name: Seq<char>) -> Option<Seq<char>>
    decreases env.len(),
{
    if env.len() == 0 {
        None
    } else if env[0].0@ == name {
        Some(env[0].1@)
    } else {
        env_value(env.drop_first(), name)
    }
}

/// One of the variables by which a continuous-integration service makes
/// itself known is set.
pub open spec fn ci_signal(env: Seq<(String, String)>) -> bool {
    ||| env_value(env, "CI"@) is Some
    ||| env_value(env, "CONTINUOUS_INTEGRATION"@) is Some
    ||| env_value(env, "GITHUB_ACTIONS"@) is Some
    ||| env_value(env, "GITLAB_CI"@) is Some
    ||| env_value(env, "CIRCLECI"@) is Some
    ||| env_value(env, "TRAVIS"@) is Some
    ||| env_value(env, "JENKINS_URL"@) is Some
    ||| env_value(env, "BUILDKITE"@) is Some
    ||| env_value(env, "DRONE"@) is Some
}

/// A value of `TERM` that speaks for a terminal.
pub open spec fn term_hints_terminal(term: Seq<char>) -> bool {
    contains_text(term, "xterm"@) || contains_text(term, "color"@) || term == "screen"@
}

/// Whether the display draws on a terminal. A continuous-integration
/// service rules it out. Otherwise standard output being a terminal decides
/// for it; failing that, a `TERM` that speaks for a terminal, or
/// `COLORTERM` or `TERM_PROGRAM` being set, decide for it. Everything else
/// decides against.
pub open spec fn terminal_is_interactive(env: Seq<(String, String)>, stdout_is_terminal: bool) -> bool {
    if ci_signal(env) {
        false
    } else if stdout_is_terminal {
        true
    } else if env_value(env, "TERM"@) is Some && term_hints_terminal(env_value(env, "TERM"@)->0) {
        true
    } else {
        env_value(env, "COLORTERM"@) is Some || env_value(env, "TERM_PROGRAM"@) is Some
    }
}

/// The value of the first variable called `name`.
pub fn lookup_env<'a>(env: &'a Vec<(String, String)>, name: &str) -> (value: Option<&'a String>)
    ensures
        match value {
            Some(v) => env_value(env@, name@) == Some(v@),
            None => env_value(env@, name@) is None,
        },
{
    let mut i: usize = 0;
    assert(env@.skip(0) =~= env@);
    while i < env.len()
        invariant
            i <= env.len(),
            env_value(env@, name@) == env_value(env@.skip(i as int), name@),
        decreases env.len() - i,
    {
        proof {
            assert(env@.skip(i as int).drop_first() =~= env@.skip(i + 1));
        }
        if same_text(env[i].0.as_str(), name) {
            return Some(&env[i].1);
        }
        i += 1;
    }
    None
}

/// Whether the display is to draw on a terminal, given the environment as
/// pairs of name and value and whether standard output is a terminal.
pub fn is_terminal_interactive(environment: &Vec<(String, String)>, stdout_is_terminal: bool) -> (r:
    bool)
    ensures
        r == terminal_is_interactive(environment@, stdout_is_terminal),
{
    if lookup_env(environment, "CI").is_some() || lookup_env(
        environment,
        "CONTINUOUS_INTEGRATION",
    ).is_some() || lookup_env(environment, "GITHUB_ACTIONS").is_some() || lookup_env(
        environment,
        "GITLAB_CI",
    ).is_some() || lookup_env(environment, "CIRCLECI").is_some() || lookup_env(
        environment,
        "TRAVIS",
    ).is_some() || lookup_env(environment, "JENKINS_URL").is_some() || lookup_env(
        environment,
        "BUILDKITE",
    ).is_some() || lookup_env(environment, "DRONE").is_some() {
        return false;
    }
    if stdout_is_terminal {
        return true;
    }
    match lookup_env(environment, "TERM") {
        Some(term) => {
            let t = chars_of(term.as_str());
            let xterm = chars_of("xterm");
            let color = chars_of("color");
            if includes(t.as_slice(), xterm.as_slice()) || includes(t.as_slice(), color.as_slice())
                || same_text(term.as_str(), "screen") {
                return true;
            }
        },
        None => {},
    }
    lookup_env(environment, "COLORTERM").is_some() || lookup_env(
        environment,
        "TERM_PROGRAM",
    ).is_some()
}

} // verus!
