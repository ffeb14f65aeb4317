use release_linear_ticket_update::seen::SeenSet;
use release_linear_ticket_update::update_tickets::{
    begin_line, ensure_no_graphql_errors, find_completed_state, finish_line, get_issue_details,
    get_workflow_states, is_valid_ticket_id, issue_url, name_is_completed_like, parse_issue_id,
    state_is_done_or_completed, state_is_passing, update_issue_state, Action, Event, IssueReply,
    IssueSnapshot, LineStart, Phase, StatesReply, TicketEngine, TicketError, UpdateReply,
    WorkflowState,
};

fn state(id: &str, name: &str, kind: &str) -> WorkflowState {
    WorkflowState { id: id.to_string(), name: name.to_string(), kind: kind.to_string() }
}

fn team_states() -> Vec<WorkflowState> {
    vec![
        state("s-1", "Backlog", "backlog"),
        state("s-2", "In Review", "started"),
        state("s-3", "Passing", "started"),
        state("s-4", "Done", "completed"),
        state("s-5", "Completed", "completed"),
    ]
}

fn issue_in(state_name: &str) -> Event {
    Event::Issue(Ok(IssueReply {
        error_messages: String::new(),
        issue: Some(IssueSnapshot { state_name: state_name.to_string(), team_id: "team-1".to_string() }),
    }))
}

fn states_reply() -> Event {
    Event::States(Ok(StatesReply { error_messages: String::new(), states: team_states() }))
}

fn update_done() -> Event {
    Event::Update(Ok(UpdateReply {
        error_messages: String::new(),
        success: true,
        body: "{\"data\":{\"issueUpdate\":{\"success\":true}}}".to_string(),
    }))
}

fn engine(dry_run: bool, update_all_statuses: bool) -> TicketEngine {
    let mut engine = TicketEngine::new("ABC-123", "acme", dry_run, update_all_statuses).unwrap();
    let first = engine.step(Event::Begin);
    assert_eq!(
        first,
        Action::FetchIssue(
            "{\"query\": \"query($issueId: String!) { issue(id: $issueId) { team { id } state { name } } }\", \"variables\": {\"issueId\": \"ABC-123\"}}".to_string()
        )
    );
    assert_eq!(engine.phase(), Phase::AwaitIssue);
    engine
}

const URL: &str = "https://linear.app/acme/issue/ABC-123";

#[test]
fn ticket_ids_are_three_letters_a_hyphen_and_digits() {
    assert!(is_valid_ticket_id("ABC-123"));
    assert!(is_valid_ticket_id("ZZZ-0"));
    assert!(is_valid_ticket_id("BUG-007"));
    assert!(!is_valid_ticket_id(""));
    assert!(!is_valid_ticket_id("ABC-"));
    assert!(!is_valid_ticket_id("ABC123"));
    assert!(!is_valid_ticket_id("AB-123"));
    assert!(!is_valid_ticket_id("ABCD-123"));
    assert!(!is_valid_ticket_id("abc-123"));
    assert!(!is_valid_ticket_id("ABC-12a"));
    assert!(!is_valid_ticket_id("ABC-1-2"));
    assert!(!is_valid_ticket_id(" ABC-1"));
    assert!(!is_valid_ticket_id("ABC-1 "));
    assert!(!is_valid_ticket_id("ÀBC-1"));
    assert!(!is_valid_ticket_id("ABC-١٢"));
}

#[test]
fn parse_issue_id_trims_and_checks() {
    assert_eq!(parse_issue_id("  ABC-123\n"), Ok("ABC-123".to_string()));
    assert_eq!(parse_issue_id("ABC-123"), Ok("ABC-123".to_string()));
    assert_eq!(parse_issue_id("   "), Err("Empty ticket ID".to_string()));
    assert_eq!(parse_issue_id(""), Err("Empty ticket ID".to_string()));
    assert_eq!(parse_issue_id("abc-123"), Err("Expected ticket ID like ABC-123".to_string()));
    assert_eq!(parse_issue_id("ABC 123"), Err("Expected ticket ID like ABC-123".to_string()));
}

#[test]
fn the_display_url_names_org_and_ticket() {
    assert_eq!(issue_url("acme", "ABC-123"), "https://linear.app/acme/issue/ABC-123");
    assert_eq!(issue_url("", ""), "https://linear.app//issue/");
}

#[test]
fn done_and_completed_are_matched_with_their_case() {
    assert!(state_is_done_or_completed("Done"));
    assert!(state_is_done_or_completed("Completed"));
    assert!(state_is_done_or_completed("Not Done Yet"));
    assert!(state_is_done_or_completed("QA Completed (prod)"));
    assert!(!state_is_done_or_completed("done"));
    assert!(!state_is_done_or_completed("COMPLETED"));
    assert!(!state_is_done_or_completed("Passing"));
    assert!(!state_is_done_or_completed(""));
}

#[test]
fn passing_is_matched_in_any_case_but_whole() {
    assert!(state_is_passing("Passing"));
    assert!(state_is_passing("passing"));
    assert!(state_is_passing("PASSING"));
    assert!(state_is_passing("pAsSiNg"));
    assert!(!state_is_passing("Passing "));
    assert!(!state_is_passing("Not Passing"));
    assert!(!state_is_passing("Passin"));
    assert!(!state_is_passing(""));
}

#[test]
fn completed_like_names_ignore_case() {
    assert!(name_is_completed_like("Done"));
    assert!(name_is_completed_like("DONE"));
    assert!(name_is_completed_like("completed"));
    assert!(name_is_completed_like("Work Completed!"));
    assert!(name_is_completed_like("abandoned"));
    assert!(!name_is_completed_like("In Review"));
    assert!(!name_is_completed_like("Complete"));
}

#[test]
fn the_first_completed_like_state_is_chosen() {
    assert_eq!(find_completed_state(&team_states()), Ok("s-4".to_string()));
    let other = vec![state("a", "Todo", "unstarted"), state(" b \n", "COMPLETED", "completed"), state("c", "Done", "completed")];
    assert_eq!(find_completed_state(&other), Ok("b".to_string()));
}

#[test]
fn a_team_without_a_completed_like_state_has_none() {
    let states = vec![state("a", "Todo", "unstarted"), state("b", "Shipping", "completed")];
    assert_eq!(find_completed_state(&states), Err(TicketError::NoCompletedState));
    assert_eq!(find_completed_state(&Vec::new()), Err(TicketError::NoCompletedState));
}

#[test]
fn a_first_match_without_an_identifier_is_no_match() {
    let states = vec![state("null", "Done", "completed"), state("c", "Completed", "completed")];
    assert_eq!(find_completed_state(&states), Err(TicketError::NoCompletedState));
    let states = vec![state("  ", "Done", "completed"), state("c", "Completed", "completed")];
    assert_eq!(find_completed_state(&states), Err(TicketError::NoCompletedState));
}

#[test]
fn requests_hold_the_identifiers() {
    assert_eq!(
        get_issue_details("ABC-1"),
        r#"{"query": "query($issueId: String!) { issue(id: $issueId) { team { id } state { name } } }", "variables": {"issueId": "ABC-1"}}"#
    );
    assert_eq!(
        get_workflow_states("team-9"),
        r#"{"query": "query($teamId: String!) { team(id: $teamId) { states { nodes { id name type } } } }", "variables": {"teamId": "team-9"}}"#
    );
    assert_eq!(
        update_issue_state("ABC-1", "s-4"),
        r#"{"query": "mutation($issueId: String!, $stateId: String!) { issueUpdate(id: $issueId, input: { stateId: $stateId }) { success } }", "variables": {"issueId": "ABC-1", "stateId": "s-4"}}"#
    );
}

#[test]
fn error_lists_fail_unless_blank() {
    assert_eq!(ensure_no_graphql_errors(""), Ok(()));
    assert_eq!(ensure_no_graphql_errors(" \n"), Ok(()));
    assert_eq!(
        ensure_no_graphql_errors("Authentication required\n"),
        Err(TicketError::Api("Authentication required".to_string()))
    );
}

#[test]
fn every_error_has_its_message() {
    assert_eq!(TicketError::Transport("curl request failed: x".to_string()).message(), "curl request failed: x");
    assert_eq!(TicketError::Api("bad".to_string()).message(), "Linear API returned errors: bad");
    assert_eq!(TicketError::NotFound.message(), "Issue not found");
    assert_eq!(
        TicketError::MissingTeam("ABC-1".to_string()).message(),
        "Could not find team ID for issue ABC-1"
    );
    assert_eq!(TicketError::NoCompletedState.message(), "Could not find a 'Completed' or 'Done' state");
    assert_eq!(TicketError::MutationFailed("{}".to_string()).message(), "Update failed: {}");
    assert_eq!(TicketError::UnexpectedReply.message(), "Unexpected reply from the tracker");
}

#[test]
fn an_engine_is_made_for_ticket_ids_only() {
    assert!(TicketEngine::new(" ABC-123 ", "acme", false, false).is_ok());
    assert_eq!(
        TicketEngine::new("abc", "acme", false, false).err(),
        Some("Expected ticket ID like ABC-123".to_string())
    );
    assert_eq!(TicketEngine::new(" ", "acme", false, false).err(), Some("Empty ticket ID".to_string()));
    let engine = TicketEngine::new(" ABC-123 ", "acme", false, false).unwrap();
    assert_eq!(engine.issue_id(), "ABC-123");
    assert_eq!(engine.url(), URL);
    assert_eq!(engine.phase(), Phase::Start);
}

#[test]
fn a_passing_ticket_is_updated() {
    let mut e = engine(false, false);
    assert_eq!(
        e.step(issue_in("Passing")),
        Action::FetchStates(get_workflow_states("team-1"))
    );
    assert_eq!(e.phase(), Phase::AwaitStates);
    assert_eq!(e.step(states_reply()), Action::UpdateIssue(update_issue_state("ABC-123", "s-4")));
    assert_eq!(e.phase(), Phase::AwaitUpdate);
    assert_eq!(e.step(update_done()), Action::Finish(Ok(Some(URL.to_string()))));
    assert_eq!(e.phase(), Phase::Finished);
}

#[test]
fn passing_in_any_case_is_updated() {
    for name in ["passing", "PASSING", "pAssIng", " Passing\n"] {
        let mut e = engine(false, false);
        assert_eq!(e.step(issue_in(name)), Action::FetchStates(get_workflow_states("team-1")));
    }
}

#[test]
fn a_ticket_in_review_is_skipped_without_output() {
    let mut e = engine(false, false);
    assert_eq!(e.step(issue_in("In Review")), Action::Finish(Ok(None)));
    assert_eq!(e.phase(), Phase::Finished);
}

#[test]
fn a_ticket_in_review_is_updated_when_all_statuses_are() {
    let mut e = engine(false, true);
    assert_eq!(e.step(issue_in("In Review")), Action::FetchStates(get_workflow_states("team-1")));
    assert_eq!(e.step(states_reply()), Action::UpdateIssue(update_issue_state("ABC-123", "s-4")));
    assert_eq!(e.step(update_done()), Action::Finish(Ok(Some(URL.to_string()))));
}

#[test]
fn a_completed_ticket_prints_its_url_without_lookup_or_mutation() {
    for name in ["Done", "Completed", "QA Completed", "Done (released)"] {
        for update_all in [false, true] {
            let mut e = engine(false, update_all);
            assert_eq!(e.step(issue_in(name)), Action::Finish(Ok(Some(URL.to_string()))));
            assert_eq!(e.phase(), Phase::Finished);
        }
    }
}

#[test]
fn a_completed_ticket_is_left_out_of_a_dry_run() {
    for name in ["Done", "Completed", "QA Completed"] {
        for update_all in [false, true] {
            let mut e = engine(true, update_all);
            assert_eq!(e.step(issue_in(name)), Action::Finish(Ok(None)));
        }
    }
}

#[test]
fn a_dry_run_prints_the_url_and_asks_for_nothing_more() {
    let mut e = engine(true, false);
    assert_eq!(e.step(issue_in("Passing")), Action::Finish(Ok(Some(URL.to_string()))));
    assert_eq!(e.phase(), Phase::Finished);
    let mut e = engine(true, true);
    assert_eq!(e.step(issue_in("Backlog")), Action::Finish(Ok(Some(URL.to_string()))));
}

#[test]
fn a_dry_run_prints_nothing_for_a_ticket_that_does_not_qualify() {
    let mut e = engine(true, false);
    assert_eq!(e.step(issue_in("In Review")), Action::Finish(Ok(None)));
}

#[test]
fn a_dry_run_never_mutates_whatever_arrives() {
    let events: Vec<fn() -> Event> = vec![
        || Event::Begin,
        || issue_in("Passing"),
        || issue_in("Backlog"),
        states_reply,
        update_done,
    ];
    for first in &events {
        for second in &events {
            for update_all in [false, true] {
                let mut e = TicketEngine::new("ABC-123", "acme", true, update_all).unwrap();
                for event in [Event::Begin, first(), second()] {
                    let action = e.step(event);
                    assert!(!matches!(action, Action::UpdateIssue(_) | Action::FetchStates(_)));
                }
            }
        }
    }
}

#[test]
fn an_unknown_ticket_is_not_found() {
    let mut e = engine(false, false);
    let reply = Event::Issue(Ok(IssueReply { error_messages: String::new(), issue: None }));
    assert_eq!(e.step(reply), Action::Finish(Err(TicketError::NotFound)));
}

#[test]
fn an_error_list_fails_even_with_data() {
    let mut e = engine(false, false);
    let reply = Event::Issue(Ok(IssueReply {
        error_messages: "Entity not found\n".to_string(),
        issue: Some(IssueSnapshot { state_name: "Passing".to_string(), team_id: "t".to_string() }),
    }));
    assert_eq!(e.step(reply), Action::Finish(Err(TicketError::Api("Entity not found".to_string()))));

    let mut e = engine(false, false);
    e.step(issue_in("Passing"));
    let reply = Event::States(Ok(StatesReply { error_messages: "boom".to_string(), states: team_states() }));
    assert_eq!(e.step(reply), Action::Finish(Err(TicketError::Api("boom".to_string()))));

    let mut e = engine(false, false);
    e.step(issue_in("Passing"));
    e.step(states_reply());
    let reply = Event::Update(Ok(UpdateReply {
        error_messages: "late".to_string(),
        success: true,
        body: "{}".to_string(),
    }));
    assert_eq!(e.step(reply), Action::Finish(Err(TicketError::Api("late".to_string()))));
}

#[test]
fn a_transport_failure_ends_the_exchange() {
    let mut e = engine(false, false);
    assert_eq!(
        e.step(Event::Issue(Err("curl request failed: timeout".to_string()))),
        Action::Finish(Err(TicketError::Transport("curl request failed: timeout".to_string())))
    );
    let mut e = engine(false, false);
    e.step(issue_in("Passing"));
    assert_eq!(
        e.step(Event::States(Err("jq failed: x".to_string()))),
        Action::Finish(Err(TicketError::Transport("jq failed: x".to_string())))
    );
    let mut e = engine(false, false);
    e.step(issue_in("Passing"));
    e.step(states_reply());
    assert_eq!(
        e.step(Event::Update(Err("down".to_string()))),
        Action::Finish(Err(TicketError::Transport("down".to_string())))
    );
}

#[test]
fn a_ticket_without_a_team_cannot_be_updated() {
    for team in ["", "null", " null\n"] {
        let mut e = engine(false, false);
        let reply = Event::Issue(Ok(IssueReply {
            error_messages: String::new(),
            issue: Some(IssueSnapshot { state_name: "Passing".to_string(), team_id: team.to_string() }),
        }));
        assert_eq!(
            e.step(reply),
            Action::Finish(Err(TicketError::MissingTeam("ABC-123".to_string())))
        );
    }
}

#[test]
fn a_team_without_a_completed_state_fails_the_ticket() {
    let mut e = engine(false, false);
    e.step(issue_in("Passing"));
    let reply = Event::States(Ok(StatesReply {
        error_messages: String::new(),
        states: vec![state("s-1", "Backlog", "backlog")],
    }));
    assert_eq!(e.step(reply), Action::Finish(Err(TicketError::NoCompletedState)));
    assert_eq!(e.phase(), Phase::Finished);
}

#[test]
fn a_refused_mutation_fails_the_ticket() {
    let mut e = engine(false, false);
    e.step(issue_in("Passing"));
    e.step(states_reply());
    let reply = Event::Update(Ok(UpdateReply {
        error_messages: "denied".to_string(),
        success: false,
        body: "{\"data\":null}".to_string(),
    }));
    assert_eq!(
        e.step(reply),
        Action::Finish(Err(TicketError::MutationFailed("{\"data\":null}".to_string())))
    );
}

#[test]
fn an_answer_out_of_turn_ends_the_exchange() {
    let mut e = TicketEngine::new("ABC-123", "acme", false, false).unwrap();
    assert_eq!(e.step(states_reply()), Action::Finish(Err(TicketError::UnexpectedReply)));
    assert_eq!(e.phase(), Phase::Finished);
    assert_eq!(e.step(Event::Begin), Action::Finish(Err(TicketError::UnexpectedReply)));
    let mut e = engine(false, false);
    assert_eq!(e.step(update_done()), Action::Finish(Err(TicketError::UnexpectedReply)));
}

#[test]
fn a_blank_line_asks_for_nothing() {
    assert!(matches!(begin_line("", "acme", false, false), LineStart::Blank));
    assert!(matches!(begin_line(" \t ", "acme", false, false), LineStart::Blank));
}

#[test]
fn a_malformed_line_is_logged_and_skipped() {
    match begin_line(" not-a-ticket \n", "acme", false, false) {
        LineStart::Invalid(log) => assert_eq!(
            log,
            vec![
                "Invalid input not-a-ticket: Expected ticket ID like ABC-123".to_string(),
                "not-a-ticket".to_string(),
            ]
        ),
        _ => panic!("the line names no ticket"),
    }
}

#[test]
fn a_ticket_line_starts_an_engine() {
    match begin_line(" ABC-123\n", "acme", true, false) {
        LineStart::Ticket(mut e) => {
            assert_eq!(e.url(), URL);
            assert_eq!(e.step(Event::Begin), Action::FetchIssue(get_issue_details("ABC-123")));
            assert_eq!(e.step(issue_in("Passing")), Action::Finish(Ok(Some(URL.to_string()))));
        }
        _ => panic!("the line names a ticket"),
    }
}

#[test]
fn a_link_is_printed_and_counts_as_output() {
    let mut seen = SeenSet::new();
    let mut any_output = false;
    let report = finish_line(URL, Ok(Some(URL.to_string())), &mut seen, &mut any_output);
    assert_eq!(report.output, Some(URL.to_string()));
    assert!(report.log.is_empty());
    assert!(any_output);
    assert!(seen.contains(URL));
    assert_eq!(seen.len(), 1);
}

#[test]
fn a_link_is_printed_once_however_often_the_ticket_is_listed() {
    let mut seen = SeenSet::new();
    let mut any_output = false;
    let mut printed: Vec<String> = Vec::new();
    for _ in 0..5 {
        let report = finish_line(URL, Ok(Some(URL.to_string())), &mut seen, &mut any_output);
        assert!(report.log.is_empty());
        printed.extend(report.output);
    }
    assert_eq!(printed, vec![URL.to_string()]);
    assert!(any_output);
    assert_eq!(seen.len(), 1);
}

#[test]
fn a_repeated_link_alone_is_no_output() {
    let mut seen = SeenSet::new();
    seen.insert(URL);
    let mut any_output = false;
    let report = finish_line(URL, Ok(Some(URL.to_string())), &mut seen, &mut any_output);
    assert_eq!(report.output, None);
    assert!(report.log.is_empty());
    assert!(!any_output);
}

#[test]
fn links_of_different_tickets_are_printed_in_order() {
    let other = "https://linear.app/acme/issue/XYZ-9";
    let mut seen = SeenSet::new();
    let mut any_output = false;
    let mut printed: Vec<String> = Vec::new();
    for link in [URL, other, URL, other] {
        printed.extend(finish_line(link, Ok(Some(link.to_string())), &mut seen, &mut any_output).output);
    }
    assert_eq!(printed, vec![URL.to_string(), other.to_string()]);
}

#[test]
fn the_same_ticket_listed_twice_is_printed_once() {
    let mut seen = SeenSet::new();
    let mut any_output = false;
    let mut printed: Vec<String> = Vec::new();
    for line in ["ABC-123", " ABC-123 ", "ABC-123\n"] {
        let mut engine = match begin_line(line, "acme", true, false) {
            LineStart::Ticket(engine) => engine,
            _ => panic!("the line names a ticket"),
        };
        engine.step(Event::Begin);
        let result = match engine.step(issue_in("Passing")) {
            Action::Finish(result) => result,
            _ => panic!("a dry run ends here"),
        };
        printed.extend(finish_line(&engine.url(), result, &mut seen, &mut any_output).output);
    }
    assert_eq!(printed, vec![URL.to_string()]);
}

#[test]
fn nothing_to_print_leaves_everything_as_it_was() {
    let mut seen = SeenSet::new();
    let mut any_output = false;
    let report = finish_line(URL, Ok(None), &mut seen, &mut any_output);
    assert_eq!(report.output, None);
    assert!(report.log.is_empty());
    assert!(!any_output);
    assert_eq!(seen.len(), 0);
    let mut any_output = true;
    finish_line(URL, Ok(None), &mut seen, &mut any_output);
    assert!(any_output);
}

#[test]
fn a_failure_is_logged_with_the_url_and_stops_nothing() {
    let mut seen = SeenSet::new();
    let mut any_output = false;
    let report = finish_line(URL, Err(TicketError::NotFound), &mut seen, &mut any_output);
    assert_eq!(report.output, None);
    assert_eq!(
        report.log,
        vec![
            "Failed to update https://linear.app/acme/issue/ABC-123: Issue not found".to_string(),
            URL.to_string(),
        ]
    );
    assert!(!any_output);
    assert_eq!(seen.len(), 0);
    let report = finish_line(URL, Ok(Some(URL.to_string())), &mut seen, &mut any_output);
    assert_eq!(report.output, Some(URL.to_string()));
    assert!(any_output);
}

fn progress_then_step(e: &mut TicketEngine, event: Event) -> Vec<String> {
    let log = e.progress(&event);
    e.step(event);
    log
}

#[test]
fn progress_tells_how_an_update_goes() {
    let mut e = engine(false, false);
    assert_eq!(
        progress_then_step(&mut e, issue_in(" Passing\n")),
        vec!["Current state: Passing".to_string(), "Found Team ID: team-1".to_string()]
    );
    assert_eq!(
        progress_then_step(&mut e, states_reply()),
        vec!["Found completed state ID: s-4".to_string()]
    );
    assert_eq!(
        progress_then_step(&mut e, update_done()),
        vec!["Successfully updated issue ABC-123 to completed".to_string()]
    );
}

#[test]
fn progress_tells_why_a_ticket_is_passed_over() {
    let e = engine(false, false);
    assert_eq!(
        e.progress(&issue_in("Done")),
        vec![
            "Current state: Done".to_string(),
            "Issue ABC-123 is already in a completed state, skipping.".to_string(),
        ]
    );
    assert_eq!(
        e.progress(&issue_in("In Review")),
        vec![
            "Current state: In Review".to_string(),
            "Issue ABC-123 is not in \"Passing\" state, skipping (use --update-all-statuses to override).".to_string(),
        ]
    );
}

#[test]
fn progress_in_a_dry_run_names_the_state_only() {
    let e = engine(true, false);
    assert_eq!(e.progress(&issue_in("Passing")), vec!["Current state: Passing".to_string()]);
    assert_eq!(e.progress(&issue_in("Done")), vec!["Current state: Done".to_string()]);
    assert_eq!(e.progress(&issue_in("Backlog")), vec!["Current state: Backlog".to_string()]);
}

#[test]
fn progress_is_silent_where_the_exchange_fails() {
    let mut e = engine(false, false);
    assert!(e.progress(&Event::Issue(Err("down".to_string()))).is_empty());
    assert!(e.progress(&Event::Issue(Ok(IssueReply { error_messages: String::new(), issue: None }))).is_empty());
    let with_errors = Event::Issue(Ok(IssueReply {
        error_messages: "bad".to_string(),
        issue: Some(IssueSnapshot { state_name: "Passing".to_string(), team_id: "t".to_string() }),
    }));
    assert!(e.progress(&with_errors).is_empty());
    let no_team = Event::Issue(Ok(IssueReply {
        error_messages: String::new(),
        issue: Some(IssueSnapshot { state_name: "Passing".to_string(), team_id: "null".to_string() }),
    }));
    assert_eq!(e.progress(&no_team), vec!["Current state: Passing".to_string()]);
    assert!(e.progress(&states_reply()).is_empty());
    assert!(e.progress(&update_done()).is_empty());
    assert!(e.progress(&Event::Begin).is_empty());
    e.step(issue_in("Passing"));
    let none = Event::States(Ok(StatesReply { error_messages: String::new(), states: Vec::new() }));
    assert!(e.progress(&none).is_empty());
    e.step(states_reply());
    let refused = Event::Update(Ok(UpdateReply {
        error_messages: String::new(),
        success: false,
        body: "{}".to_string(),
    }));
    assert!(e.progress(&refused).is_empty());
}
