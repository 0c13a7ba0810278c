use merge_pipeline::config::Config;
use merge_pipeline::merge::ToolExit;
use merge_pipeline::pipeline::{Action, Event, Phase, Upload};
use merge_pipeline::response::{Body, Response};
use merge_pipeline::store::{locate, retrieve, Retrieval};

const ID: &str = "550e8400-e29b-41d4-a716-446655440000";

fn started() -> Upload {
    Upload::begin_with(String::from("/tmp/w"), String::from(ID)).unwrap()
}

fn part(name: &str) -> Event {
    Event::PartOpened { name: String::from(name) }
}

fn staged_two(config: &Config) -> Upload {
    let mut upload = started();
    upload.step(config, part("a.orf"));
    upload.step(config, part("b.orf"));
    upload
}

fn error(status: u16, reason: &str) -> Response {
    Response { status, body: Body::Error { reason: String::from(reason) } }
}

#[test]
fn upload_begins_receiving_with_nothing_staged() {
    let upload = started();
    assert_eq!(upload.phase(), Phase::ReceivingParts);
    assert_eq!(upload.identifier(), ID);
    assert_eq!(upload.workspace(), "/tmp/w");
    assert!(upload.staged().is_empty());
}

#[test]
fn upload_refuses_a_malformed_identifier() {
    assert!(Upload::begin_with(String::from("/tmp/w"), String::from("x")).is_none());
    assert!(Upload::begin_with(String::from("/tmp/w"), String::from("../../etc")).is_none());
    assert!(Upload::begin_with(String::from("/tmp/w"), String::new()).is_none());
}

#[test]
fn accepted_part_is_staged_in_the_workspace() {
    let config = Config::default();
    let mut upload = started();
    let action = upload.step(&config, part("a.orf"));
    assert_eq!(action, Action::Stage { path: String::from("/tmp/w/a.orf") });
    assert_eq!(upload.phase(), Phase::ReceivingParts);
    assert_eq!(upload.staged(), &vec![String::from("/tmp/w/a.orf")]);
}

#[test]
fn part_with_directories_in_its_name_is_staged_under_its_last_component() {
    let config = Config::default();
    let mut upload = started();
    let action = upload.step(&config, part("../../outside/a.orf"));
    assert_eq!(action, Action::Stage { path: String::from("/tmp/w/a.orf") });
    let action = upload.step(&config, part("/etc/b.ORF"));
    assert_eq!(action, Action::Stage { path: String::from("/tmp/w/b.ORF") });
    assert_eq!(
        upload.staged(),
        &vec![String::from("/tmp/w/a.orf"), String::from("/tmp/w/b.ORF")]
    );
}

#[test]
fn rejected_part_is_skipped() {
    let config = Config::default();
    let mut upload = started();
    let action = upload.step(&config, part("notes.txt"));
    assert_eq!(action, Action::Skip);
    assert_eq!(upload.phase(), Phase::ReceivingParts);
    assert!(upload.staged().is_empty());
}

#[test]
fn staged_parts_keep_the_order_received() {
    let config = Config::default();
    let mut upload = started();
    upload.step(&config, part("b.ORF"));
    upload.step(&config, part("readme.md"));
    upload.step(&config, part("a.orf"));
    upload.step(&config, part("b.ORF"));
    assert_eq!(
        upload.staged(),
        &vec![
            String::from("/tmp/w/b.ORF"),
            String::from("/tmp/w/a.orf"),
            String::from("/tmp/w/b.ORF"),
        ]
    );
}

#[test]
fn body_without_accepted_parts_ends_the_upload() {
    let config = Config::default();
    let mut upload = started();
    upload.step(&config, part("notes.txt"));
    let action = upload.step(&config, Event::BodyEnded);
    assert_eq!(
        action,
        Action::Finish { discard: None, response: error(400, "No ORF files uploaded") }
    );
    assert_eq!(upload.phase(), Phase::NoValidFiles);
}

#[test]
fn empty_body_ends_the_upload() {
    let config = Config::default();
    let mut upload = started();
    let action = upload.step(&config, Event::BodyEnded);
    assert_eq!(
        action,
        Action::Finish { discard: None, response: error(400, "No ORF files uploaded") }
    );
    assert_eq!(upload.phase(), Phase::NoValidFiles);
}

#[test]
fn body_with_accepted_parts_invokes_the_tool() {
    let config = Config::default();
    let mut upload = staged_two(&config);
    let action = upload.step(&config, Event::BodyEnded);
    assert_eq!(
        action,
        Action::Invoke {
            program: String::from("hdrmerge"),
            arguments: vec![
                String::from("/tmp/w/a.orf"),
                String::from("/tmp/w/b.orf"),
                String::from("-o"),
                String::from("./storage/550e8400-e29b-41d4-a716-446655440000.partial.dng"),
                String::from("-b"),
                String::from("32"),
            ],
        }
    );
    assert_eq!(upload.phase(), Phase::Invoking);
}

#[test]
fn tool_is_taken_from_the_settings() {
    let mut config = Config::default();
    config.tool_path = String::from("/opt/bin/merge");
    config.storage_dir = String::from("/srv/out");
    let mut upload = staged_two(&config);
    match upload.step(&config, Event::BodyEnded) {
        Action::Invoke { program, arguments } => {
            assert_eq!(program, "/opt/bin/merge");
            assert_eq!(arguments[3], "/srv/out/550e8400-e29b-41d4-a716-446655440000.partial.dng");
        }
        other => panic!("unexpected action {:?}", other),
    }
}

#[test]
fn successful_tool_run_is_published() {
    let config = Config::default();
    let mut upload = staged_two(&config);
    upload.step(&config, Event::BodyEnded);
    let action = upload.step(&config, Event::ToolEnded { exit: ToolExit::Success });
    assert_eq!(
        action,
        Action::Publish {
            from: String::from("./storage/550e8400-e29b-41d4-a716-446655440000.partial.dng"),
            to: String::from("./storage/550e8400-e29b-41d4-a716-446655440000.dng"),
        }
    );
    assert_eq!(upload.phase(), Phase::Publishing);
}

#[test]
fn published_artifact_is_answered_with_its_download_path() {
    let config = Config::default();
    let mut upload = staged_two(&config);
    upload.step(&config, Event::BodyEnded);
    upload.step(&config, Event::ToolEnded { exit: ToolExit::Success });
    let action = upload.step(&config, Event::Published);
    assert_eq!(
        action,
        Action::Finish {
            discard: None,
            response: Response {
                status: 200,
                body: Body::Merged {
                    message: String::from("Successfully merged 2 images"),
                    download_url: String::from("/download/550e8400-e29b-41d4-a716-446655440000"),
                },
            },
        }
    );
    assert_eq!(upload.phase(), Phase::MergeSucceeded);
}

#[test]
fn failed_tool_run_discards_the_partial_output() {
    let config = Config::default();
    let mut upload = staged_two(&config);
    upload.step(&config, Event::BodyEnded);
    let action = upload.step(&config, Event::ToolEnded { exit: ToolExit::Failure });
    assert_eq!(
        action,
        Action::Finish {
            discard: Some(String::from(
                "./storage/550e8400-e29b-41d4-a716-446655440000.partial.dng"
            )),
            response: error(500, "Failed to merge HDR images"),
        }
    );
    assert_eq!(upload.phase(), Phase::MergeFailed);
}

#[test]
fn tool_that_cannot_start_is_told_apart() {
    let config = Config::default();
    let mut upload = staged_two(&config);
    upload.step(&config, Event::BodyEnded);
    let action = upload.step(&config, Event::ToolEnded { exit: ToolExit::NotStarted });
    assert_eq!(
        action,
        Action::Finish { discard: None, response: error(500, "Failed to execute hdrmerge") }
    );
    assert_eq!(upload.phase(), Phase::ProcessLaunchFailed);
}

#[test]
fn failed_write_while_receiving_ends_the_upload() {
    let config = Config::default();
    let mut upload = started();
    upload.step(&config, part("a.orf"));
    let action = upload.step(&config, Event::IoFailed);
    assert_eq!(
        action,
        Action::Finish { discard: None, response: error(500, "Failed to store files") }
    );
    assert_eq!(upload.phase(), Phase::StorageFailed);
}

#[test]
fn failed_wait_for_the_tool_ends_the_upload() {
    let config = Config::default();
    let mut upload = staged_two(&config);
    upload.step(&config, Event::BodyEnded);
    let action = upload.step(&config, Event::IoFailed);
    assert_eq!(
        action,
        Action::Finish {
            discard: Some(String::from(
                "./storage/550e8400-e29b-41d4-a716-446655440000.partial.dng"
            )),
            response: error(500, "Failed to store files"),
        }
    );
    assert_eq!(upload.phase(), Phase::StorageFailed);
}

#[test]
fn failed_rename_ends_the_upload() {
    let config = Config::default();
    let mut upload = staged_two(&config);
    upload.step(&config, Event::BodyEnded);
    upload.step(&config, Event::ToolEnded { exit: ToolExit::Success });
    let action = upload.step(&config, Event::IoFailed);
    assert_eq!(
        action,
        Action::Finish {
            discard: Some(String::from(
                "./storage/550e8400-e29b-41d4-a716-446655440000.partial.dng"
            )),
            response: error(500, "Failed to store files"),
        }
    );
    assert_eq!(upload.phase(), Phase::StorageFailed);
}

#[test]
fn events_out_of_turn_are_ignored() {
    let config = Config::default();
    let mut upload = started();
    assert_eq!(upload.step(&config, Event::Published), Action::Ignore);
    assert_eq!(
        upload.step(&config, Event::ToolEnded { exit: ToolExit::Success }),
        Action::Ignore
    );
    assert_eq!(upload.phase(), Phase::ReceivingParts);
    upload.step(&config, part("a.orf"));
    upload.step(&config, Event::BodyEnded);
    assert_eq!(upload.step(&config, part("b.orf")), Action::Ignore);
    assert_eq!(upload.step(&config, Event::BodyEnded), Action::Ignore);
    assert_eq!(upload.step(&config, Event::Published), Action::Ignore);
    assert_eq!(upload.phase(), Phase::Invoking);
    assert_eq!(upload.staged().len(), 1);
    upload.step(&config, Event::ToolEnded { exit: ToolExit::Success });
    assert_eq!(
        upload.step(&config, Event::ToolEnded { exit: ToolExit::Success }),
        Action::Ignore
    );
    assert_eq!(upload.step(&config, Event::BodyEnded), Action::Ignore);
    assert_eq!(upload.phase(), Phase::Publishing);
}

#[test]
fn ended_upload_ignores_every_event() {
    let config = Config::default();
    let mut upload = staged_two(&config);
    upload.step(&config, Event::BodyEnded);
    upload.step(&config, Event::ToolEnded { exit: ToolExit::Failure });
    assert!(upload.phase().terminal());
    assert_eq!(upload.step(&config, part("c.orf")), Action::Ignore);
    assert_eq!(upload.step(&config, Event::BodyEnded), Action::Ignore);
    assert_eq!(
        upload.step(&config, Event::ToolEnded { exit: ToolExit::Success }),
        Action::Ignore
    );
    assert_eq!(upload.step(&config, Event::Published), Action::Ignore);
    assert_eq!(upload.step(&config, Event::IoFailed), Action::Ignore);
    assert_eq!(upload.phase(), Phase::MergeFailed);
}

#[test]
fn phases_that_end_an_upload() {
    assert!(!Phase::ReceivingParts.terminal());
    assert!(!Phase::Invoking.terminal());
    assert!(!Phase::Publishing.terminal());
    assert!(Phase::NoValidFiles.terminal());
    assert!(Phase::MergeSucceeded.terminal());
    assert!(Phase::MergeFailed.terminal());
    assert!(Phase::ProcessLaunchFailed.terminal());
    assert!(Phase::StorageFailed.terminal());
}

#[test]
fn upload_of_two_raw_images() {
    let config = Config::default();
    let mut upload = Upload::begin(String::from("/tmp/batch"));
    let id = upload.identifier().to_string();
    assert_eq!(
        upload.step(&config, part("a.orf")),
        Action::Stage { path: String::from("/tmp/batch/a.orf") }
    );
    assert_eq!(
        upload.step(&config, part("b.orf")),
        Action::Stage { path: String::from("/tmp/batch/b.orf") }
    );
    match upload.step(&config, Event::BodyEnded) {
        Action::Invoke { program, arguments } => {
            assert_eq!(program, "hdrmerge");
            assert_eq!(arguments.len(), 6);
            assert_eq!(arguments[0], "/tmp/batch/a.orf");
            assert_eq!(arguments[1], "/tmp/batch/b.orf");
        }
        other => panic!("unexpected action {:?}", other),
    }
    let written = match upload.step(&config, Event::ToolEnded { exit: ToolExit::Success }) {
        Action::Publish { from: _, to } => to,
        other => panic!("unexpected action {:?}", other),
    };
    let response = match upload.step(&config, Event::Published) {
        Action::Finish { discard: None, response } => response,
        other => panic!("unexpected action {:?}", other),
    };
    assert_eq!(response.status, 200);
    assert_eq!(
        response.body,
        Body::Merged {
            message: String::from("Successfully merged 2 images"),
            download_url: format!("/download/{}", id),
        }
    );
    assert_eq!(locate(&config, &id), Some(written.clone()));
    assert_eq!(retrieve(&config, &id, true), Retrieval::Serve { path: written });
}

#[test]
fn upload_of_one_text_file() {
    let config = Config::default();
    let mut upload = Upload::begin(String::from("/tmp/batch"));
    assert_eq!(upload.step(&config, part("notes.txt")), Action::Skip);
    let action = upload.step(&config, Event::BodyEnded);
    assert_eq!(
        action,
        Action::Finish { discard: None, response: error(400, "No ORF files uploaded") }
    );
    assert_eq!(upload.phase(), Phase::NoValidFiles);
}

#[test]
fn upload_with_one_accepted_file_among_others_succeeds() {
    let config = Config::default();
    let mut upload = Upload::begin(String::from("/tmp/batch"));
    upload.step(&config, part("cover.jpg"));
    upload.step(&config, part("IMG_0001.ORF"));
    upload.step(&config, part("notes.txt"));
    upload.step(&config, Event::BodyEnded);
    upload.step(&config, Event::ToolEnded { exit: ToolExit::Success });
    match upload.step(&config, Event::Published) {
        Action::Finish { discard, response } => {
            assert_eq!(discard, None);
            assert_eq!(response.status, 200);
            match response.body {
                Body::Merged { message, download_url } => {
                    assert_eq!(message, "Successfully merged 1 images");
                    assert_eq!(download_url, format!("/download/{}", upload.identifier()));
                }
                other => panic!("unexpected body {:?}", other),
            }
        }
        other => panic!("unexpected action {:?}", other),
    }
}

#[test]
fn failed_merge_is_never_published() {
    let config = Config::default();
    let mut upload = Upload::begin(String::from("/tmp/batch"));
    let id = upload.identifier().to_string();
    let mut actions: Vec<Action> = Vec::new();
    actions.push(upload.step(&config, part("a.orf")));
    actions.push(upload.step(&config, Event::BodyEnded));
    actions.push(upload.step(&config, Event::ToolEnded { exit: ToolExit::Failure }));
    actions.push(upload.step(&config, Event::Published));
    assert!(actions.iter().all(|a| !matches!(a, Action::Publish { .. })));
    match &actions[2] {
        Action::Finish { discard: Some(partial), response } => {
            assert_eq!(response.status, 500);
            assert_ne!(Some(partial.clone()), locate(&config, &id));
        }
        other => panic!("unexpected action {:?}", other),
    }
    assert_eq!(retrieve(&config, &id, false), Retrieval::NotFound);
}

#[test]
fn part_without_a_name_is_never_staged() {
    let config = Config::default();
    let mut upload = started();
    let name = merge_pipeline::ingest::part_name(None);
    assert_eq!(upload.step(&config, Event::PartOpened { name }), Action::Skip);
    assert!(upload.staged().is_empty());
}

#[test]
fn uploads_get_identifiers_of_their_own() {
    let config = Config::default();
    let mut urls: Vec<String> = Vec::new();
    for _ in 0..50 {
        let mut upload = Upload::begin(String::from("/tmp/batch"));
        upload.step(&config, part("a.orf"));
        upload.step(&config, Event::BodyEnded);
        upload.step(&config, Event::ToolEnded { exit: ToolExit::Success });
        match upload.step(&config, Event::Published) {
            Action::Finish { discard: _, response } => match response.body {
                Body::Merged { message: _, download_url } => {
                    assert!(!urls.contains(&download_url));
                    urls.push(download_url);
                }
                other => panic!("unexpected body {:?}", other),
            },
            other => panic!("unexpected action {:?}", other),
        }
    }
    assert_eq!(urls.len(), 50);
}
