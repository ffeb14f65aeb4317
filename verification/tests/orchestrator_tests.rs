use release_linear_ticket_update::config::Config;
use release_linear_ticket_update::orchestrator::{
    Orchestrator, PipelineAction, PipelineEvent, PipelinePhase, PipelineResult, PipelineStage,
};

fn strings(items: &[&str]) -> Vec<String> {
    items.iter().map(|s| s.to_string()).collect()
}

fn config(items: &[&str]) -> Config {
    let mut all = vec!["release-linear-ticket-update".to_string()];
    all.extend(items.iter().map(|s| s.to_string()));
    Config::from_args(&all).unwrap()
}

fn orchestrator(items: &[&str]) -> Orchestrator {
    Orchestrator::new(&config(items), Some("KEY".to_string()), Some("acme".to_string())).unwrap()
}

fn spawn_all(o: &mut Orchestrator) {
    assert_eq!(
        o.step(PipelineEvent::Start),
        PipelineAction::Spawn(PipelineStage::NoteParser, strings(&["parse-notes", "--release-tag", "v1"]))
    );
    assert_eq!(o.phase(), PipelinePhase::Spawning(PipelineStage::NoteParser));
    assert_eq!(
        o.step(PipelineEvent::Spawned),
        PipelineAction::Spawn(PipelineStage::TicketExtractor, strings(&["extract-tickets"]))
    );
    assert_eq!(
        o.step(PipelineEvent::Spawned),
        PipelineAction::Spawn(
            PipelineStage::TicketUpdater,
            strings(&["update-tickets", "--linear-api-key", "KEY", "--linear-org", "acme"])
        )
    );
    assert_eq!(o.step(PipelineEvent::Spawned), PipelineAction::Wait(PipelineStage::TicketUpdater));
    assert_eq!(o.phase(), PipelinePhase::Waiting(PipelineStage::TicketUpdater));
}

fn finish(update_ok: bool, extract_ok: bool, parse_ok: bool) -> PipelineAction {
    let mut o = orchestrator(&["--release-tag", "v1"]);
    spawn_all(&mut o);
    assert_eq!(o.step(PipelineEvent::Exited(update_ok)), PipelineAction::Wait(PipelineStage::TicketExtractor));
    assert_eq!(o.step(PipelineEvent::Exited(extract_ok)), PipelineAction::Wait(PipelineStage::NoteParser));
    let last = o.step(PipelineEvent::Exited(parse_ok));
    assert_eq!(o.phase(), PipelinePhase::Finished);
    last
}

#[test]
fn stages_have_names_and_neighbours() {
    assert_eq!(PipelineStage::NoteParser.name(), "parse-notes");
    assert_eq!(PipelineStage::TicketExtractor.name(), "extract-tickets");
    assert_eq!(PipelineStage::TicketUpdater.name(), "update-tickets");
    assert_eq!(PipelineStage::NoteParser.next(), Some(PipelineStage::TicketExtractor));
    assert_eq!(PipelineStage::TicketExtractor.next(), Some(PipelineStage::TicketUpdater));
    assert_eq!(PipelineStage::TicketUpdater.next(), None);
    assert_eq!(PipelineStage::NoteParser.previous(), None);
    assert_eq!(PipelineStage::TicketExtractor.previous(), Some(PipelineStage::NoteParser));
    assert_eq!(PipelineStage::TicketUpdater.previous(), Some(PipelineStage::TicketExtractor));
}

#[test]
fn the_result_is_success_iff_all_three_succeeded() {
    for parse_ok in [false, true] {
        for extract_ok in [false, true] {
            for update_ok in [false, true] {
                let result = PipelineResult { parse_ok, extract_ok, update_ok };
                assert_eq!(result.success(), parse_ok && extract_ok && update_ok);
            }
        }
    }
}

#[test]
fn the_pipeline_succeeds_when_every_stage_does() {
    assert_eq!(finish(true, true, true), PipelineAction::Finish(Ok(())));
}

#[test]
fn a_failed_first_stage_fails_the_pipeline() {
    assert_eq!(finish(true, true, false), PipelineAction::Finish(Err("Pipeline failed".to_string())));
}

#[test]
fn any_failed_stage_fails_the_pipeline() {
    for parse_ok in [false, true] {
        for extract_ok in [false, true] {
            for update_ok in [false, true] {
                let expected = if parse_ok && extract_ok && update_ok {
                    PipelineAction::Finish(Ok(()))
                } else {
                    PipelineAction::Finish(Err("Pipeline failed".to_string()))
                };
                assert_eq!(finish(update_ok, extract_ok, parse_ok), expected);
            }
        }
    }
}

#[test]
fn the_flags_are_passed_to_the_updater() {
    let o = orchestrator(&["--release-tag", "v1", "--dry-run", "--update-all-statuses"]);
    assert_eq!(
        o.stage_args(PipelineStage::TicketUpdater),
        strings(&[
            "update-tickets",
            "--linear-api-key",
            "KEY",
            "--linear-org",
            "acme",
            "--dry-run",
            "--update-all-statuses",
        ])
    );
    let o = orchestrator(&["--release-tag", "v1", "--update-all-statuses"]);
    assert_eq!(
        o.stage_args(PipelineStage::TicketUpdater),
        strings(&["update-tickets", "--linear-api-key", "KEY", "--linear-org", "acme", "--update-all-statuses"])
    );
    assert_eq!(o.stage_args(PipelineStage::NoteParser), strings(&["parse-notes", "--release-tag", "v1"]));
    assert_eq!(o.stage_args(PipelineStage::TicketExtractor), strings(&["extract-tickets"]));
}

#[test]
fn credentials_on_the_command_line_win() {
    let c = config(&["--release-tag", "v1", "--linear-api-key", "flag", "--linear-org=org"]);
    let o = Orchestrator::new(&c, Some("env".to_string()), None).unwrap();
    assert_eq!(
        o.stage_args(PipelineStage::TicketUpdater),
        strings(&["update-tickets", "--linear-api-key", "flag", "--linear-org", "org"])
    );
}

#[test]
fn nothing_starts_without_tag_and_credentials() {
    let c = config(&["--release-tag", "v1"]);
    assert_eq!(
        Orchestrator::new(&c, None, Some("acme".to_string())).err(),
        Some("LINEAR_API_KEY not provided via --linear-api-key flag or environment variable".to_string())
    );
    assert_eq!(
        Orchestrator::new(&c, Some("k".to_string()), None).err(),
        Some("LINEAR_ORG not provided via --linear-org flag or environment variable".to_string())
    );
    assert_eq!(
        Orchestrator::new(&c, None, None).err(),
        Some("LINEAR_API_KEY not provided via --linear-api-key flag or environment variable".to_string())
    );
    let no_tag = config(&["update-tickets"]);
    assert_eq!(
        Orchestrator::new(&no_tag, Some("k".to_string()), Some("o".to_string())).err(),
        Some("Orchestrator mode requires --release-tag flag".to_string())
    );
}

#[test]
fn a_first_stage_that_cannot_start_ends_everything() {
    let mut o = orchestrator(&["--release-tag", "v1"]);
    o.step(PipelineEvent::Start);
    assert_eq!(
        o.step(PipelineEvent::SpawnFailed("No such file".to_string())),
        PipelineAction::Finish(Err("Failed to spawn parse-notes: No such file".to_string()))
    );
    assert_eq!(o.phase(), PipelinePhase::Finished);
}

#[test]
fn started_stages_are_waited_for_when_a_later_one_cannot_start() {
    let mut o = orchestrator(&["--release-tag", "v1"]);
    o.step(PipelineEvent::Start);
    o.step(PipelineEvent::Spawned);
    assert_eq!(
        o.step(PipelineEvent::SpawnFailed("denied".to_string())),
        PipelineAction::Wait(PipelineStage::NoteParser)
    );
    assert_eq!(
        o.step(PipelineEvent::Exited(true)),
        PipelineAction::Finish(Err("Failed to spawn extract-tickets: denied".to_string()))
    );

    let mut o = orchestrator(&["--release-tag", "v1"]);
    o.step(PipelineEvent::Start);
    o.step(PipelineEvent::Spawned);
    o.step(PipelineEvent::Spawned);
    assert_eq!(
        o.step(PipelineEvent::SpawnFailed("denied".to_string())),
        PipelineAction::Wait(PipelineStage::TicketExtractor)
    );
    assert_eq!(o.step(PipelineEvent::Exited(true)), PipelineAction::Wait(PipelineStage::NoteParser));
    assert_eq!(
        o.step(PipelineEvent::Exited(true)),
        PipelineAction::Finish(Err("Failed to spawn update-tickets: denied".to_string()))
    );
}

#[test]
fn a_stage_whose_output_cannot_be_taken_is_still_waited_for() {
    let mut o = orchestrator(&["--release-tag", "v1"]);
    o.step(PipelineEvent::Start);
    assert_eq!(o.step(PipelineEvent::CaptureFailed), PipelineAction::Wait(PipelineStage::NoteParser));
    assert_eq!(
        o.step(PipelineEvent::Exited(true)),
        PipelineAction::Finish(Err("Failed to capture parse-notes stdout".to_string()))
    );

    let mut o = orchestrator(&["--release-tag", "v1"]);
    o.step(PipelineEvent::Start);
    o.step(PipelineEvent::Spawned);
    assert_eq!(o.step(PipelineEvent::CaptureFailed), PipelineAction::Wait(PipelineStage::TicketExtractor));
    assert_eq!(o.step(PipelineEvent::Exited(false)), PipelineAction::Wait(PipelineStage::NoteParser));
    assert_eq!(
        o.step(PipelineEvent::Exited(true)),
        PipelineAction::Finish(Err("Failed to capture extract-tickets stdout".to_string()))
    );
}

#[test]
fn a_failed_wait_is_reported_after_the_other_stages_are_waited_for() {
    let mut o = orchestrator(&["--release-tag", "v1"]);
    spawn_all(&mut o);
    assert_eq!(
        o.step(PipelineEvent::WaitFailed("interrupted".to_string())),
        PipelineAction::Wait(PipelineStage::TicketExtractor)
    );
    assert_eq!(
        o.step(PipelineEvent::WaitFailed("again".to_string())),
        PipelineAction::Wait(PipelineStage::NoteParser)
    );
    assert_eq!(
        o.step(PipelineEvent::Exited(true)),
        PipelineAction::Finish(Err("Failed to wait for update-tickets: interrupted".to_string()))
    );
}

#[test]
fn an_event_out_of_turn_ends_the_pipeline() {
    let mut o = orchestrator(&["--release-tag", "v1"]);
    assert_eq!(
        o.step(PipelineEvent::Exited(true)),
        PipelineAction::Finish(Err("Unexpected event in the pipeline".to_string()))
    );
    assert_eq!(o.phase(), PipelinePhase::Finished);
    assert_eq!(
        o.step(PipelineEvent::Start),
        PipelineAction::Finish(Err("Unexpected event in the pipeline".to_string()))
    );
}

#[test]
fn the_outcome_is_failure_until_all_is_known() {
    let mut o = orchestrator(&["--release-tag", "v1"]);
    assert_eq!(o.outcome(), Err("Pipeline failed".to_string()));
    spawn_all(&mut o);
    o.step(PipelineEvent::Exited(true));
    o.step(PipelineEvent::Exited(true));
    assert_eq!(o.outcome(), Err("Pipeline failed".to_string()));
    o.step(PipelineEvent::Exited(true));
    assert_eq!(o.outcome(), Ok(()));
}
