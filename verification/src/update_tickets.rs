//! The ticket state engine: decides whether a ticket moves to a completed
//! state, and drives the exchange with the tracker that makes it so.

use vstd::prelude::*;
use crate::seen::SeenSet;
use crate::text::{
    char_is_upper, contains, contains_ignore_case, count_digits, digit_run, eq_ignore_case,
    is_digit, is_upper, lemma_digit_run, lemma_trimmed_twice, lower, lower_seq, occurs_at, same,
    str_contains, str_eq, to_chars, trim, trimmed, views,
};

verus! {

/// `s` is three upper-case ASCII letters, a hyphen, and one or more digits.
pub open spec fn is_ticket_id(s: Seq<char>) -> bool {
    &&& s.len() >= 5
    &&& is_upper(s[0])
    &&& is_upper(s[1])
    &&& is_upper(s[2])
    &&& s[3] == '-'
    &&& forall|i: int| 4 <= i < s.len() ==> is_digit(#[trigger] s[i])
}

/// The link under which people open the ticket `issue_id` of `org`.
pub open spec fn display_url(org: Seq<char>, issue_id: Seq<char>) -> Seq<char> {
    "https://linear.app/"@ + org + "/issue/"@ + issue_id
}

/// A state of this name counts as finished work.
pub open spec fn is_done_name(name: Seq<char>) -> bool {
    contains(name, "Done"@) || contains(name, "Completed"@)
}

/// A state of this name is the one from which tickets are closed by default.
pub open spec fn is_passing_name(name: Seq<char>) -> bool {
    eq_ignore_case(name, "Passing"@)
}

/// A ticket in a state of this name is to be moved to a completed state.
pub open spec fn should_update(name: Seq<char>, update_all_statuses: bool) -> bool {
    !is_done_name(name) && (update_all_statuses || is_passing_name(name))
}

/// Tells whether `input` has the form of a ticket identifier.
pub fn is_valid_ticket_id(input: &str) -> (b: bool)
    ensures
        b == is_ticket_id(input@),
{
    let chars = to_chars(input);
    let s = chars.as_slice();
    if s.len() < 5 {
        return false;
    }
    if !(char_is_upper(s[0]) && char_is_upper(s[1]) && char_is_upper(s[2]) && s[3] == '-') {
        return false;
    }
    let digits = count_digits(s, 4);
    proof {
        lemma_digit_run(s@, 4);
    }
    digits == s.len() - 4
}

/// The ticket identifier that a line of input holds, or why it holds none.
pub fn parse_issue_id(input: &str) -> (r: Result<String, String>)
    ensures
        match r {
            Ok(id) => id@ == trimmed(input@) && is_ticket_id(id@),
            Err(e) => !is_ticket_id(trimmed(input@)) && e@ == (if trimmed(input@).len() == 0 {
                "Empty ticket ID"@
            } else {
                "Expected ticket ID like ABC-123"@
            }),
        },
{
    let id = trim(input);
    if id.as_str().unicode_len() == 0 {
        return Err("Empty ticket ID".to_owned());
    }
    if !is_valid_ticket_id(id.as_str()) {
        return Err("Expected ticket ID like ABC-123".to_owned());
    }
    Ok(id)
}

/// The link under which people open the ticket `issue_id` of `org`.
pub fn issue_url(org: &str, issue_id: &str) -> (url: String)
    ensures
        url@ == display_url(org@, issue_id@),
{
    let mut url = "https://linear.app/".to_owned();
    url.append(org);
    url.append("/issue/");
    url.append(issue_id);
    url
}

/// Tells whether a state of this name counts as finished work.
pub fn state_is_done_or_completed(state_name: &str) -> (b: bool)
    ensures
        b == is_done_name(state_name@),
{
    str_contains(state_name, "Done", false) || str_contains(state_name, "Completed", false)
}

/// Tells whether a state of this name is the passing state, in any case.
pub fn state_is_passing(state_name: &str) -> (b: bool)
    ensures
        b == is_passing_name(state_name@),
{
    let x = to_chars(state_name);
    let y = to_chars("Passing");
    same(x.as_slice(), y.as_slice(), true)
}

/// One workflow state of a team.
#[derive(Debug, Clone, PartialEq, Eq)]
pub struct WorkflowState {
    pub id: String,
    pub name: String,
    pub kind: String,
}

/// A state of this name is one that tickets are closed into.
pub open spec fn is_completed_like(name: Seq<char>) -> bool {
    contains_ignore_case(name, "completed"@) || contains_ignore_case(name, "done"@)
}

/// Index of the first state at or after `from` whose name is completed-like,
/// or `states.len()` if there is none.
pub open spec fn first_completed(states: Seq<WorkflowState>, from: int) -> int
    decreases states.len() - from,
{
    if from < 0 || from >= states.len() {
        states.len() as int
    } else if is_completed_like(states[from].name@) {
        from
    } else {
        first_completed(states, from + 1)
    }
}

/// An identifier that names a state: not empty and not the word `null`.
pub open spec fn is_present(id: Seq<char>) -> bool {
    id.len() > 0 && id != "null"@
}

/// The identifier of the state that tickets of a team with these states are
/// closed into: that of the first completed-like state, if it names one.
pub open spec fn completed_state_id(states: Seq<WorkflowState>) -> Option<Seq<char>> {
    let i = first_completed(states, 0);
    if i < states.len() && is_present(trimmed(states[i].id@)) {
        Some(trimmed(states[i].id@))
    } else {
        None
    }
}

/// Whatever the states, the one that is chosen is the first whose name is
/// completed-like: `first_completed` is the least such index at or after
/// `from`, and the number of states where there is none.
pub proof fn law_first_completed_is_first(states: Seq<WorkflowState>, from: int)
    requires
        0 <= from <= states.len(),
    ensures
        from <= first_completed(states, from) <= states.len(),
        first_completed(states, from) < states.len() ==> is_completed_like(
            states[first_completed(states, from)].name@,
        ),
        forall|j: int|
            from <= j < first_completed(states, from) ==> !is_completed_like(
                (#[trigger] states[j]).name@,
            ),
    decreases states.len() - from,
{
    if from < states.len() && !is_completed_like(states[from].name@) {
        law_first_completed_is_first(states, from + 1);
    }
}

/// Why a ticket could not be brought to a completed state.
#[derive(Debug, Clone, PartialEq, Eq)]
pub enum TicketError {
    /// The tracker could not be reached or its answer could not be read.
    Transport(String),
    /// The tracker answered with a list of errors.
    Api(String),
    /// The tracker knows no such ticket.
    NotFound,
    /// The ticket, named here, belongs to no team.
    MissingTeam(String),
    /// The ticket's team has no state that tickets are closed into.
    NoCompletedState,
    /// The tracker refused the change; its answer is kept.
    MutationFailed(String),
    /// An answer arrived that the engine had not asked for.
    UnexpectedReply,
}

/// What a `TicketError` holds, as plain values.
pub enum TicketErrorView {
    Transport(Seq<char>),
    Api(Seq<char>),
    NotFound,
    MissingTeam(Seq<char>),
    NoCompletedState,
    MutationFailed(Seq<char>),
    UnexpectedReply,
}

impl View for TicketError {
    type V = TicketErrorView;

    open spec fn view(&self) -> TicketErrorView {
        match self {
            TicketError::Transport(m) => TicketErrorView::Transport(m@),
            TicketError::Api(m) => TicketErrorView::Api(m@),
            TicketError::NotFound => TicketErrorView::NotFound,
            TicketError::MissingTeam(id) => TicketErrorView::MissingTeam(id@),
            TicketError::NoCompletedState => TicketErrorView::NoCompletedState,
            TicketError::MutationFailed(body) => TicketErrorView::MutationFailed(body@),
            TicketError::UnexpectedReply => TicketErrorView::UnexpectedReply,
        }
    }
}

/// The sentence that reports `e` to a person.
pub open spec fn error_message(e: TicketErrorView) -> Seq<char> {
    match e {
        TicketErrorView::Transport(m) => m,
        TicketErrorView::Api(m) => "Linear API returned errors: "@ + m,
        TicketErrorView::NotFound => "Issue not found"@,
        TicketErrorView::MissingTeam(id) => "Could not find team ID for issue "@ + id,
        TicketErrorView::NoCompletedState => "Could not find a 'Completed' or 'Done' state"@,
        TicketErrorView::MutationFailed(body) => "Update failed: "@ + body,
        TicketErrorView::UnexpectedReply => "Unexpected reply from the tracker"@,
    }
}

impl TicketError {
    /// The sentence that reports this error to a person.
    pub fn message(&self) -> (m: String)
        ensures
            m@ == error_message(self@),
    {
        match self {
            TicketError::Transport(m) => m.clone(),
            TicketError::Api(m) => {
                let mut out = "Linear API returned errors: ".to_owned();
                out.append(m.as_str());
                out
            },
            TicketError::NotFound => "Issue not found".to_owned(),
            TicketError::MissingTeam(id) => {
                let mut out = "Could not find team ID for issue ".to_owned();
                out.append(id.as_str());
                out
            },
            TicketError::NoCompletedState => "Could not find a 'Completed' or 'Done' state".to_owned(),
            TicketError::MutationFailed(body) => {
                let mut out = "Update failed: ".to_owned();
                out.append(body.as_str());
                out
            },
            TicketError::UnexpectedReply => "Unexpected reply from the tracker".to_owned(),
        }
    }
}

/// Tells whether a state of this name is one that tickets are closed into.
pub fn name_is_completed_like(name: &str) -> (b: bool)
    ensures
        b == is_completed_like(name@),
{
    str_contains(name, "completed", true) || str_contains(name, "done", true)
}

/// The identifier of the state that tickets of a team with these states are
/// closed into.
pub fn find_completed_state(states: &Vec<WorkflowState>) -> (r: Result<String, TicketError>)
    ensures
        match r {
            Ok(id) => completed_state_id(states@) == Some(id@),
            Err(e) => completed_state_id(states@) is None && e@
                == TicketErrorView::NoCompletedState,
        },
{
    let mut i: usize = 0;
    while i < states.len()
        invariant
            i <= states.len(),
            first_completed(states@, 0) == first_completed(states@, i as int),
        decreases states.len() - i,
    {
        if name_is_completed_like(states[i].name.as_str()) {
            let id = trim(states[i].id.as_str());
            if id.as_str().unicode_len() == 0 || str_eq(id.as_str(), "null") {
                return Err(TicketError::NoCompletedState);
            }
            return Ok(id);
        }
        i += 1;
    }
    Err(TicketError::NoCompletedState)
}

/// The request that asks the tracker for a ticket's state and team.
pub open spec fn issue_query(issue_id: Seq<char>) -> Seq<char> {
    r#"{"query": "query($issueId: String!) { issue(id: $issueId) { team { id } state { name } } }", "variables": {"issueId": ""#@
        + issue_id + r#""}}"#@
}

/// The request that asks the tracker for a team's workflow states.
pub open spec fn states_query(team_id: Seq<char>) -> Seq<char> {
    r#"{"query": "query($teamId: String!) { team(id: $teamId) { states { nodes { id name type } } } }", "variables": {"teamId": ""#@
        + team_id + r#""}}"#@
}

/// The request that moves a ticket into the state `state_id`.
pub open spec fn update_query(issue_id: Seq<char>, state_id: Seq<char>) -> Seq<char> {
    r#"{"query": "mutation($issueId: String!, $stateId: String!) { issueUpdate(id: $issueId, input: { stateId: $stateId }) { success } }", "variables": {"issueId": ""#@
        + issue_id + r#"", "stateId": ""#@ + state_id + r#""}}"#@
}

/// The request that asks the tracker for a ticket's state and team.
pub fn get_issue_details(issue_id: &str) -> (query: String)
    ensures
        query@ == issue_query(issue_id@),
{
    let mut query =
        r#"{"query": "query($issueId: String!) { issue(id: $issueId) { team { id } state { name } } }", "variables": {"issueId": ""#.to_owned();
    query.append(issue_id);
    query.append(r#""}}"#);
    query
}

/// The request that asks the tracker for a team's workflow states.
pub fn get_workflow_states(team_id: &str) -> (query: String)
    ensures
        query@ == states_query(team_id@),
{
    let mut query =
        r#"{"query": "query($teamId: String!) { team(id: $teamId) { states { nodes { id name type } } } }", "variables": {"teamId": ""#.to_owned();
    query.append(team_id);
    query.append(r#""}}"#);
    query
}

/// The request that moves a ticket into the state `state_id`.
pub fn update_issue_state(issue_id: &str, state_id: &str) -> (query: String)
    ensures
        query@ == update_query(issue_id@, state_id@),
{
    let mut query =
        r#"{"query": "mutation($issueId: String!, $stateId: String!) { issueUpdate(id: $issueId, input: { stateId: $stateId }) { success } }", "variables": {"issueId": ""#.to_owned();
    query.append(issue_id);
    query.append(r#"", "stateId": ""#);
    query.append(state_id);
    query.append(r#""}}"#);
    query
}

/// The error that a list of error messages amounts to: none where the list
/// is blank.
pub open spec fn api_fault(error_messages: Seq<char>) -> Option<TicketErrorView> {
    if trimmed(error_messages).len() == 0 {
        None
    } else {
        Some(TicketErrorView::Api(trimmed(error_messages)))
    }
}

/// Turns the error messages of an answer into an error, unless they are blank.
pub fn ensure_no_graphql_errors(error_messages: &str) -> (r: Result<(), TicketError>)
    ensures
        match r {
            Ok(_) => api_fault(error_messages@) is None,
            Err(e) => api_fault(error_messages@) == Some(e@),
        },
{
    let messages = trim(error_messages);
    if messages.as_str().unicode_len() == 0 {
        Ok(())
    } else {
        Err(TicketError::Api(messages))
    }
}

/// What the tracker says of one ticket.
#[derive(Debug, Clone, PartialEq, Eq)]
pub struct IssueSnapshot {
    /// The name of the ticket's current state.
    pub state_name: String,
    /// The identifier of the ticket's team; empty or `null` if it has none.
    pub team_id: String,
}

/// The tracker's answer to the question about a ticket.
#[derive(Debug, Clone, PartialEq, Eq)]
pub struct IssueReply {
    /// The messages of the answer's error list, blank if it has none.
    pub error_messages: String,
    /// The ticket, or `None` where the tracker knows no such ticket.
    pub issue: Option<IssueSnapshot>,
}

/// The tracker's answer to the question about a team's workflow states.
#[derive(Debug, Clone, PartialEq, Eq)]
pub struct StatesReply {
    /// The messages of the answer's error list, blank if it has none.
    pub error_messages: String,
    /// The team's states, in the tracker's order.
    pub states: Vec<WorkflowState>,
}

/// The tracker's answer to a change of a ticket's state.
#[derive(Debug, Clone, PartialEq, Eq)]
pub struct UpdateReply {
    /// The messages of the answer's error list, blank if it has none.
    pub error_messages: String,
    /// Whether the tracker reports the change as made.
    pub success: bool,
    /// The answer as it was received.
    pub body: String,
}

/// What happened since the engine last spoke. An `Err` holds the reason why
/// the tracker could not be reached or its answer could not be read.
#[derive(Debug, PartialEq, Eq)]
pub enum Event {
    Begin,
    Issue(Result<IssueReply, String>),
    States(Result<StatesReply, String>),
    Update(Result<UpdateReply, String>),
}

/// What the engine wants done next. The three requests hold the text to
/// send to the tracker; `Finish` holds the link to print, if any.
#[derive(Debug, PartialEq, Eq)]
pub enum Action {
    FetchIssue(String),
    FetchStates(String),
    UpdateIssue(String),
    Finish(Result<Option<String>, TicketError>),
}

/// What an `Action` holds, as plain values.
pub enum ActionView {
    FetchIssue(Seq<char>),
    FetchStates(Seq<char>),
    UpdateIssue(Seq<char>),
    Finish(Result<Option<Seq<char>>, TicketErrorView>),
}

impl View for Action {
    type V = ActionView;

    open spec fn view(&self) -> ActionView {
        match self {
            Action::FetchIssue(q) => ActionView::FetchIssue(q@),
            Action::FetchStates(q) => ActionView::FetchStates(q@),
            Action::UpdateIssue(q) => ActionView::UpdateIssue(q@),
            Action::Finish(Ok(Some(url))) => ActionView::Finish(Ok(Some(url@))),
            Action::Finish(Ok(None)) => ActionView::Finish(Ok(None)),
            Action::Finish(Err(e)) => ActionView::Finish(Err(e@)),
        }
    }
}

/// How far the exchange about one ticket has come.
#[derive(Debug, Clone, Copy, PartialEq, Eq, Structural)]
pub enum Phase {
    Start,
    AwaitIssue,
    AwaitStates,
    AwaitUpdate,
    Finished,
}

/// What a `TicketEngine` holds, as plain values.
pub struct EngineView {
    pub issue_id: Seq<char>,
    pub org: Seq<char>,
    pub dry_run: bool,
    pub update_all_statuses: bool,
    pub phase: Phase,
}

impl EngineView {
    /// The engine works on a ticket identifier, and in a dry run it never
    /// waits for an answer about workflow states or about a change.
    pub open spec fn wf(self) -> bool {
        &&& is_ticket_id(self.issue_id)
        &&& self.dry_run ==> self.phase != Phase::AwaitStates && self.phase != Phase::AwaitUpdate
    }

    /// The link under which people open the engine's ticket.
    pub open spec fn url(self) -> Seq<char> {
        display_url(self.org, self.issue_id)
    }
}

/// The phase and action that follow the answer about the ticket.
pub open spec fn after_issue(e: EngineView, reply: Result<IssueReply, String>) -> (
    Phase,
    ActionView,
) {
    match reply {
        Err(reason) => (
            Phase::Finished,
            ActionView::Finish(Err(TicketErrorView::Transport(reason@))),
        ),
        Ok(r) => if let Some(fault) = api_fault(r.error_messages@) {
            (Phase::Finished, ActionView::Finish(Err(fault)))
        } else {
            match r.issue {
                None => (Phase::Finished, ActionView::Finish(Err(TicketErrorView::NotFound))),
                Some(issue) => {
                    let name = trimmed(issue.state_name@);
                    let team = trimmed(issue.team_id@);
                    if e.dry_run {
                        if should_update(name, e.update_all_statuses) {
                            (Phase::Finished, ActionView::Finish(Ok(Some(e.url()))))
                        } else {
                            (Phase::Finished, ActionView::Finish(Ok(None)))
                        }
                    } else if is_done_name(name) {
                        (Phase::Finished, ActionView::Finish(Ok(Some(e.url()))))
                    } else if !should_update(name, e.update_all_statuses) {
                        (Phase::Finished, ActionView::Finish(Ok(None)))
                    } else if !is_present(team) {
                        (
                            Phase::Finished,
                            ActionView::Finish(Err(TicketErrorView::MissingTeam(e.issue_id))),
                        )
                    } else {
                        (Phase::AwaitStates, ActionView::FetchStates(states_query(team)))
                    }
                },
            }
        },
    }
}

/// The phase and action that follow the answer about the workflow states.
pub open spec fn after_states(e: EngineView, reply: Result<StatesReply, String>) -> (
    Phase,
    ActionView,
) {
    match reply {
        Err(reason) => (
            Phase::Finished,
            ActionView::Finish(Err(TicketErrorView::Transport(reason@))),
        ),
        Ok(r) => if let Some(fault) = api_fault(r.error_messages@) {
            (Phase::Finished, ActionView::Finish(Err(fault)))
        } else {
            match completed_state_id(r.states@) {
                None => (
                    Phase::Finished,
                    ActionView::Finish(Err(TicketErrorView::NoCompletedState)),
                ),
                Some(state_id) => (
                    Phase::AwaitUpdate,
                    ActionView::UpdateIssue(update_query(e.issue_id, state_id)),
                ),
            }
        },
    }
}

/// The action that follows the answer to the change; the exchange is over.
pub open spec fn after_update(e: EngineView, reply: Result<UpdateReply, String>) -> ActionView {
    match reply {
        Err(reason) => ActionView::Finish(Err(TicketErrorView::Transport(reason@))),
        Ok(r) => if !r.success {
            ActionView::Finish(Err(TicketErrorView::MutationFailed(r.body@)))
        } else if let Some(fault) = api_fault(r.error_messages@) {
            ActionView::Finish(Err(fault))
        } else {
            ActionView::Finish(Ok(Some(e.url())))
        },
    }
}

/// The phase and action that follow `event` in the state `e`. An event that
/// does not answer what the engine asked for ends the exchange with
/// `UnexpectedReply`.
pub open spec fn transition(e: EngineView, event: Event) -> (Phase, ActionView) {
    match (e.phase, event) {
        (Phase::Start, Event::Begin) => (
            Phase::AwaitIssue,
            ActionView::FetchIssue(issue_query(e.issue_id)),
        ),
        (Phase::AwaitIssue, Event::Issue(reply)) => after_issue(e, reply),
        (Phase::AwaitStates, Event::States(reply)) => after_states(e, reply),
        (Phase::AwaitUpdate, Event::Update(reply)) => (Phase::Finished, after_update(e, reply)),
        _ => (Phase::Finished, ActionView::Finish(Err(TicketErrorView::UnexpectedReply))),
    }
}

/// The exchange with the tracker about one ticket, one step at a time: the
/// caller performs the action that a step returns and hands the outcome to
/// the next step, until a step returns `Action::Finish`.
pub struct TicketEngine {
    issue_id: String,
    org: String,
    dry_run: bool,
    update_all_statuses: bool,
    phase: Phase,
}

impl View for TicketEngine {
    type V = EngineView;

    closed spec fn view(&self) -> EngineView {
        EngineView {
            issue_id: self.issue_id@,
            org: self.org@,
            dry_run: self.dry_run,
            update_all_statuses: self.update_all_statuses,
            phase: self.phase,
        }
    }
}

impl TicketEngine {
    #[verifier::type_invariant]
    spec fn inv(self) -> bool {
        self@.wf()
    }

    /// An engine for the ticket that `input` names, before its first step.
    /// Fails, as `parse_issue_id` does, where `input` names no ticket.
    pub fn new(input: &str, org: &str, dry_run: bool, update_all_statuses: bool) -> (r: Result<
        TicketEngine,
        String,
    >)
        ensures
            match r {
                Ok(engine) => is_ticket_id(trimmed(input@)) && engine@ == (EngineView {
                    issue_id: trimmed(input@),
                    org: org@,
                    dry_run,
                    update_all_statuses,
                    phase: Phase::Start,
                }) && engine@.wf(),
                Err(e) => !is_ticket_id(trimmed(input@)) && e@ == (if trimmed(input@).len() == 0 {
                    "Empty ticket ID"@
                } else {
                    "Expected ticket ID like ABC-123"@
                }),
            },
    {
        match parse_issue_id(input) {
            Ok(issue_id) => Ok(
                TicketEngine {
                    issue_id,
                    org: org.to_owned(),
                    dry_run,
                    update_all_statuses,
                    phase: Phase::Start,
                },
            ),
            Err(e) => Err(e),
        }
    }

    /// The link under which people open the engine's ticket.
    pub fn url(&self) -> (url: String)
        ensures
            url@ == self@.url(),
    {
        issue_url(self.org.as_str(), self.issue_id.as_str())
    }

    /// The identifier of the engine's ticket.
    pub fn issue_id(&self) -> (id: &str)
        ensures
            id@ == self@.issue_id,
    {
        self.issue_id.as_str()
    }

    /// How far the exchange has come.
    pub fn phase(&self) -> (phase: Phase)
        ensures
            phase == self@.phase,
    {
        self.phase
    }

    /// Takes `event` in and says what to do next.
    pub fn step(&mut self, event: Event) -> (action: Action)
        ensures
            final(self)@ == (EngineView { phase: transition(old(self)@, event).0, ..old(self)@ }),
            action@ == transition(old(self)@, event).1,
            final(self)@.wf(),
    {
        proof {
            use_type_invariant(&*self);
        }
        let (phase, action) = match (self.phase, event) {
            (Phase::Start, Event::Begin) => (
                Phase::AwaitIssue,
                Action::FetchIssue(get_issue_details(self.issue_id.as_str())),
            ),
            (Phase::AwaitIssue, Event::Issue(reply)) => self.on_issue(reply),
            (Phase::AwaitStates, Event::States(reply)) => self.on_states(reply),
            (Phase::AwaitUpdate, Event::Update(reply)) => (Phase::Finished, self.on_update(reply)),
            _ => (Phase::Finished, Action::Finish(Err(TicketError::UnexpectedReply))),
        };
        self.phase = phase;
        action
    }

    fn on_issue(&self, reply: Result<IssueReply, String>) -> (r: (Phase, Action))
        ensures
            r.0 == after_issue(self@, reply).0,
            r.1@ == after_issue(self@, reply).1,
    {
        let reply = match reply {
            Ok(reply) => reply,
            Err(reason) => {
                return (Phase::Finished, Action::Finish(Err(TicketError::Transport(reason))));
            },
        };
        if let Err(fault) = ensure_no_graphql_errors(reply.error_messages.as_str()) {
            return (Phase::Finished, Action::Finish(Err(fault)));
        }
        let issue = match reply.issue {
            Some(issue) => issue,
            None => {
                return (Phase::Finished, Action::Finish(Err(TicketError::NotFound)));
            },
        };
        let name = trim(issue.state_name.as_str());
        let is_completed = state_is_done_or_completed(name.as_str());
        let is_passing = state_is_passing(name.as_str());
        let should_update = !is_completed && (self.update_all_statuses || is_passing);
        if self.dry_run {
            return if should_update {
                (Phase::Finished, Action::Finish(Ok(Some(self.url()))))
            } else {
                (Phase::Finished, Action::Finish(Ok(None)))
            };
        }
        if is_completed {
            return (Phase::Finished, Action::Finish(Ok(Some(self.url()))));
        }
        if !should_update {
            return (Phase::Finished, Action::Finish(Ok(None)));
        }
        let team = trim(issue.team_id.as_str());
        if team.as_str().unicode_len() == 0 || str_eq(team.as_str(), "null") {
            return (
                Phase::Finished,
                Action::Finish(Err(TicketError::MissingTeam(self.issue_id.clone()))),
            );
        }
        (Phase::AwaitStates, Action::FetchStates(get_workflow_states(team.as_str())))
    }

    fn on_states(&self, reply: Result<StatesReply, String>) -> (r: (Phase, Action))
        ensures
            r.0 == after_states(self@, reply).0,
            r.1@ == after_states(self@, reply).1,
    {
        let reply = match reply {
            Ok(reply) => reply,
            Err(reason) => {
                return (Phase::Finished, Action::Finish(Err(TicketError::Transport(reason))));
            },
        };
        if let Err(fault) = ensure_no_graphql_errors(reply.error_messages.as_str()) {
            return (Phase::Finished, Action::Finish(Err(fault)));
        }
        match find_completed_state(&reply.states) {
            Ok(state_id) => (
                Phase::AwaitUpdate,
                Action::UpdateIssue(update_issue_state(self.issue_id.as_str(), state_id.as_str())),
            ),
            Err(e) => (Phase::Finished, Action::Finish(Err(e))),
        }
    }

    fn on_update(&self, reply: Result<UpdateReply, String>) -> (action: Action)
        ensures
            action@ == after_update(self@, reply),
    {
        let reply = match reply {
            Ok(reply) => reply,
            Err(reason) => {
                return Action::Finish(Err(TicketError::Transport(reason)));
            },
        };
        if !reply.success {
            return Action::Finish(Err(TicketError::MutationFailed(reply.body)));
        }
        if let Err(fault) = ensure_no_graphql_errors(reply.error_messages.as_str()) {
            return Action::Finish(Err(fault));
        }
        Action::Finish(Ok(Some(self.url())))
    }
}

impl EngineView {
    /// The state that follows `event`.
    pub open spec fn advance(self, event: Event) -> EngineView {
        EngineView { phase: transition(self, event).0, ..self }
    }

    /// The action that follows `event`.
    pub open spec fn action(self, event: Event) -> ActionView {
        transition(self, event).1
    }
}

/// In a dry run no step, whatever the event, asks the tracker for workflow
/// states or for a change, and the state that follows is again one from
/// which none will be asked: a dry run never changes a ticket.
pub proof fn law_dry_run_never_mutates(e: EngineView, event: Event)
    requires
        e.wf(),
        e.dry_run,
    ensures
        !(e.action(event) is UpdateIssue),
        !(e.action(event) is FetchStates),
        e.advance(event).wf(),
        e.advance(event).dry_run,
{
}

/// Every step leaves the engine well formed.
pub proof fn law_step_keeps_wf(e: EngineView, event: Event)
    requires
        e.wf(),
    ensures
        e.advance(event).wf(),
{
}

/// In a dry run the answer about the ticket ends the exchange: with the
/// ticket's link where its state qualifies for the change, with nothing
/// where it does not.
pub proof fn law_dry_run_discloses(e: EngineView, reply: IssueReply)
    requires
        e.wf(),
        e.dry_run,
        e.phase == Phase::AwaitIssue,
        api_fault(reply.error_messages@) is None,
        reply.issue is Some,
    ensures
        e.advance(Event::Issue(Ok(reply))).phase == Phase::Finished,
        e.action(Event::Issue(Ok(reply))) == ActionView::Finish(
            Ok(
                if should_update(
                    trimmed(reply.issue->0.state_name@),
                    e.update_all_statuses,
                ) {
                    Some(e.url())
                } else {
                    None
                },
            ),
        ),
{
}

/// A ticket whose state counts as finished work ends the exchange at once,
/// with no question about workflow states and no change: with its link
/// outside a dry run, with nothing in a dry run.
pub proof fn law_completed_is_left_alone(e: EngineView, reply: IssueReply)
    requires
        e.wf(),
        e.phase == Phase::AwaitIssue,
        api_fault(reply.error_messages@) is None,
        reply.issue is Some,
        is_done_name(trimmed(reply.issue->0.state_name@)),
    ensures
        e.advance(Event::Issue(Ok(reply))).phase == Phase::Finished,
        e.action(Event::Issue(Ok(reply))) == ActionView::Finish(
            Ok(
                if e.dry_run {
                    None
                } else {
                    Some(e.url())
                },
            ),
        ),
{
}

/// A state named `Passing`, in any case, qualifies for the change whether
/// or not all statuses are to be updated; any other state that does not
/// count as finished work qualifies exactly when they are.
pub proof fn law_passing_gate(name: Seq<char>, update_all_statuses: bool)
    ensures
        is_passing_name(name) ==> should_update(name, update_all_statuses),
        !is_passing_name(name) && !is_done_name(name) ==> (should_update(
            name,
            update_all_statuses,
        ) <==> update_all_statuses),
        is_done_name(name) ==> !should_update(name, update_all_statuses),
{
    if is_passing_name(name) {
        lemma_passing_is_not_done(name);
    }
}

/// No spelling of `Passing` holds `Done` or `Completed`.
pub proof fn lemma_passing_is_not_done(name: Seq<char>)
    requires
        is_passing_name(name),
    ensures
        !is_done_name(name),
{
    reveal_strlit("Passing");
    reveal_strlit("Done");
    reveal_strlit("Completed");
    let low = lower_seq(name);
    assert(low == lower_seq("Passing"@));
    assert(name.len() == 7);
    assert forall|i: int| !occurs_at(name, "Done"@, i) by {
        if occurs_at(name, "Done"@, i) {
            let part = name.subrange(i, i + 4);
            assert(part[0] == 'D');
            assert(name[i] == 'D');
            assert(low[i] == lower(name[i]));
            assert(low[i] == 'd');
            assert(lower_seq("Passing"@)[i] == lower("Passing"@[i]));
        }
    }
    assert forall|i: int| !occurs_at(name, "Completed"@, i) by {
    }
}

/// Outside a dry run, a ticket whose state qualifies walks the whole path:
/// the question about the ticket, the question about its team's workflow
/// states, the change into the first completed-like state, and at the end
/// the ticket's link.
pub proof fn law_live_update_path(
    e: EngineView,
    issue: IssueReply,
    states: StatesReply,
    update: UpdateReply,
)
    requires
        e.wf(),
        !e.dry_run,
        e.phase == Phase::Start,
        api_fault(issue.error_messages@) is None,
        issue.issue is Some,
        should_update(trimmed(issue.issue->0.state_name@), e.update_all_statuses),
        is_present(trimmed(issue.issue->0.team_id@)),
        api_fault(states.error_messages@) is None,
        completed_state_id(states.states@) is Some,
        update.success,
        api_fault(update.error_messages@) is None,
    ensures
        ({
            let e1 = e.advance(Event::Begin);
            let e2 = e1.advance(Event::Issue(Ok(issue)));
            let e3 = e2.advance(Event::States(Ok(states)));
            &&& e.action(Event::Begin) == ActionView::FetchIssue(issue_query(e.issue_id))
            &&& e1.action(Event::Issue(Ok(issue))) == ActionView::FetchStates(
                states_query(trimmed(issue.issue->0.team_id@)),
            )
            &&& e2.action(Event::States(Ok(states))) == ActionView::UpdateIssue(
                update_query(e.issue_id, completed_state_id(states.states@)->0),
            )
            &&& e3.action(Event::Update(Ok(update))) == ActionView::Finish(Ok(Some(e.url())))
            &&& e3.advance(Event::Update(Ok(update))).phase == Phase::Finished
        }),
{
}

/// What a line of input asks of the ticket updater.
pub enum LineStart {
    /// Nothing: the line is blank.
    Blank,
    /// Nothing but these two lines in the log: the line names no ticket.
    Invalid(Vec<String>),
    /// The exchange that this engine is ready to begin.
    Ticket(TicketEngine),
}

/// The two lines that the log gets for input that names no ticket.
pub open spec fn invalid_input_log(input: Seq<char>) -> Seq<Seq<char>> {
    seq!["Invalid input "@ + input + ": Expected ticket ID like ABC-123"@, input]
}

/// The two lines that the log gets for a ticket on which the exchange
/// failed: what went wrong, and the ticket's link.
pub open spec fn failure_log(url: Seq<char>, e: TicketErrorView) -> Seq<Seq<char>> {
    seq!["Failed to update "@ + url + ": "@ + error_message(e), url]
}

/// Reads a line of input: a blank line asks for nothing, a line that names
/// no ticket is reported and passed over, and any other line starts the
/// exchange about the ticket that it names.
pub fn begin_line(line: &str, org: &str, dry_run: bool, update_all_statuses: bool) -> (r: LineStart)
    ensures
        match r {
            LineStart::Blank => trimmed(line@).len() == 0,
            LineStart::Invalid(log) => trimmed(line@).len() > 0 && !is_ticket_id(trimmed(line@))
                && views(log@) == invalid_input_log(trimmed(line@)),
            LineStart::Ticket(engine) => is_ticket_id(trimmed(line@)) && engine@.wf() && engine@
                == (EngineView {
                issue_id: trimmed(line@),
                org: org@,
                dry_run,
                update_all_statuses,
                phase: Phase::Start,
            }),
        },
{
    let input = trim(line);
    if input.as_str().unicode_len() == 0 {
        return LineStart::Blank;
    }
    proof {
        lemma_trimmed_twice(line@);
    }
    match TicketEngine::new(input.as_str(), org, dry_run, update_all_statuses) {
        Ok(engine) => LineStart::Ticket(engine),
        Err(reason) => {
            let mut message = "Invalid input ".to_owned();
            message.append(input.as_str());
            message.append(": ");
            message.append(reason.as_str());
            let mut log: Vec<String> = Vec::new();
            log.push(message);
            log.push(input);
            proof {
                reveal_strlit(": ");
                reveal_strlit(": Expected ticket ID like ABC-123");
                reveal_strlit("Expected ticket ID like ABC-123");
                assert(": "@ + "Expected ticket ID like ABC-123"@
                    =~= ": Expected ticket ID like ABC-123"@);
                assert(log@[0]@ =~= "Invalid input "@ + trimmed(line@)
                    + ": Expected ticket ID like ABC-123"@);
                assert(views(log@) =~= invalid_input_log(trimmed(line@)));
            }
            LineStart::Invalid(log)
        },
    }
}

/// What the stage prints and what it logs when the exchange about a
/// ticket has ended.
#[derive(Debug, Clone, PartialEq, Eq)]
pub struct Report {
    /// The line to print, if there is one.
    pub output: Option<String>,
    /// The lines for the log.
    pub log: Vec<String>,
}

/// Closes the work on one ticket. A link is printed, put into `seen` and
/// `any_output` set, unless the link is in `seen` already: then nothing is
/// printed. A failure is reported in the log, with the ticket's link `url`,
/// and stops nothing. Where there is neither, nothing is printed or logged.
pub fn finish_line(
    url: &str,
    result: Result<Option<String>, TicketError>,
    seen: &mut SeenSet,
    any_output: &mut bool,
) -> (report: Report)
    ensures
        match result {
            Ok(Some(link)) => {
                &&& report.log@.len() == 0
                &&& report.output == (if old(seen)@.contains(link@) {
                    None
                } else {
                    Some(link)
                })
                &&& final(seen)@ == old(seen)@.insert(link@)
                &&& *final(any_output) == (*old(any_output) || !old(seen)@.contains(link@))
            },
            Ok(None) => {
                &&& report.output is None
                &&& report.log@.len() == 0
                &&& final(seen)@ == old(seen)@
                &&& *final(any_output) == *old(any_output)
            },
            Err(e) => {
                &&& report.output is None
                &&& views(report.log@) == failure_log(url@, e@)
                &&& final(seen)@ == old(seen)@
                &&& *final(any_output) == *old(any_output)
            },
        },
{
    match result {
        Ok(Some(link)) => {
            if seen.insert(link.as_str()) {
                *any_output = true;
                Report { output: Some(link), log: Vec::new() }
            } else {
                Report { output: None, log: Vec::new() }
            }
        },
        Ok(None) => Report { output: None, log: Vec::new() },
        Err(e) => {
            let mut message = "Failed to update ".to_owned();
            message.append(url);
            message.append(": ");
            message.append(e.message().as_str());
            let mut log: Vec<String> = Vec::new();
            log.push(message);
            log.push(url.to_owned());
            assert(views(log@) =~= failure_log(url@, e@));
            Report { output: None, log }
        },
    }
}

/// The lines that tell the operator how the exchange goes on when `event`
/// arrives in the state `e`: the ticket's state once it is known and, on
/// the way to a change, why the ticket is passed over, the team, the state
/// to move it to, and that it was moved. Nothing where the event ends the
/// exchange with an error.
pub open spec fn progress_log(e: EngineView, event: Event) -> Seq<Seq<char>> {
    match (e.phase, event) {
        (Phase::AwaitIssue, Event::Issue(Ok(r))) => if api_fault(r.error_messages@) is None
            && r.issue is Some {
            let name = trimmed(r.issue->0.state_name@);
            let team = trimmed(r.issue->0.team_id@);
            seq!["Current state: "@ + name] + (if e.dry_run {
                seq![]
            } else if is_done_name(name) {
                seq!["Issue "@ + e.issue_id + " is already in a completed state, skipping."@]
            } else if !should_update(name, e.update_all_statuses) {
                seq![
                    "Issue "@ + e.issue_id
                        + " is not in \"Passing\" state, skipping (use --update-all-statuses to override)."@,
                ]
            } else if !is_present(team) {
                seq![]
            } else {
                seq!["Found Team ID: "@ + team]
            })
        } else {
            seq![]
        },
        (Phase::AwaitStates, Event::States(Ok(r))) => if api_fault(r.error_messages@) is None
            && completed_state_id(r.states@) is Some {
            seq!["Found completed state ID: "@ + completed_state_id(r.states@)->0]
        } else {
            seq![]
        },
        (Phase::AwaitUpdate, Event::Update(Ok(r))) => if r.success && api_fault(
            r.error_messages@,
        ) is None {
            seq!["Successfully updated issue "@ + e.issue_id + " to completed"@]
        } else {
            seq![]
        },
        _ => seq![],
    }
}

impl TicketEngine {
    /// The lines for the log that tell how the exchange goes on when
    /// `event` arrives. To be asked before the event is handed to `step`.
    pub fn progress(&self, event: &Event) -> (log: Vec<String>)
        ensures
            views(log@) == progress_log(self@, *event),
    {
        let mut log: Vec<String> = Vec::new();
        match event {
            Event::Issue(Ok(reply)) => {
                if !matches!(self.phase, Phase::AwaitIssue) {
                    assert(views(log@) =~= progress_log(self@, *event));
                    return log;
                }
                if ensure_no_graphql_errors(reply.error_messages.as_str()).is_err() {
                    assert(views(log@) =~= progress_log(self@, *event));
                    return log;
                }
                let issue = match &reply.issue {
                    Some(issue) => issue,
                    None => {
                        assert(views(log@) =~= progress_log(self@, *event));
                        return log;
                    },
                };
                let name = trim(issue.state_name.as_str());
                let mut current = "Current state: ".to_owned();
                current.append(name.as_str());
                log.push(current);
                let is_completed = state_is_done_or_completed(name.as_str());
                let is_passing = state_is_passing(name.as_str());
                let should_update = !is_completed && (self.update_all_statuses || is_passing);
                if self.dry_run {
                } else if is_completed {
                    let mut line = "Issue ".to_owned();
                    line.append(self.issue_id.as_str());
                    line.append(" is already in a completed state, skipping.");
                    log.push(line);
                } else if !should_update {
                    let mut line = "Issue ".to_owned();
                    line.append(self.issue_id.as_str());
                    line.append(
                        " is not in \"Passing\" state, skipping (use --update-all-statuses to override).",
                    );
                    log.push(line);
                } else {
                    let team = trim(issue.team_id.as_str());
                    if !(team.as_str().unicode_len() == 0 || str_eq(team.as_str(), "null")) {
                        let mut line = "Found Team ID: ".to_owned();
                        line.append(team.as_str());
                        log.push(line);
                    }
                }
                assert(views(log@) =~= progress_log(self@, *event));
            },
            Event::States(Ok(reply)) => {
                if matches!(self.phase, Phase::AwaitStates) && ensure_no_graphql_errors(
                    reply.error_messages.as_str(),
                ).is_ok() {
                    if let Ok(state_id) = find_completed_state(&reply.states) {
                        let mut line = "Found completed state ID: ".to_owned();
                        line.append(state_id.as_str());
                        log.push(line);
                    }
                }
                assert(views(log@) =~= progress_log(self@, *event));
            },
            Event::Update(Ok(reply)) => {
                if matches!(self.phase, Phase::AwaitUpdate) && reply.success
                    && ensure_no_graphql_errors(reply.error_messages.as_str()).is_ok() {
                    let mut line = "Successfully updated issue ".to_owned();
                    line.append(self.issue_id.as_str());
                    line.append(" to completed");
                    log.push(line);
                }
                assert(views(log@) =~= progress_log(self@, *event));
            },
            _ => {
                assert(views(log@) =~= progress_log(self@, *event));
            },
        }
        log
    }
}

} // verus!
