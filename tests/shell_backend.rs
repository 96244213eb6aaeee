use std::collections::HashMap;

use mdbook_plantuml::shell_backend::join_args;
use mdbook_plantuml::{PlantUMLShell, RenderAction, RenderError, RenderEvent, RenderStage};

const DIAGRAM: &str = "@startuml\nA--|>B\n@enduml";

/// A runner that fails, succeeds without output, or copies the source
/// file named by its last argument to the matching `.svg` file.
struct FakeCommandExecutor {
    error: bool,
    create_file: bool,
}

/// Files kept in memory, with switches that make writes or copies fail.
#[derive(Default)]
struct FakeDisk {
    files: HashMap<String, Vec<u8>>,
    fail_writes: bool,
    fail_copies: bool,
}

fn execute(
    executor: &FakeCommandExecutor,
    disk: &mut FakeDisk,
    args: &Vec<String>,
) -> Result<(), String> {
    if executor.error {
        return Err(String::from("Whoops"));
    }
    if executor.create_file {
        let source_path = args.last().unwrap();
        let source = disk.files.get(source_path).cloned().ok_or("no source")?;
        let stem = source_path.strip_suffix(".puml").unwrap();
        disk.files.insert(format!("{}.svg", stem), source);
    }
    Ok(())
}

/// Runs one render to its end; also returns how often the runner was called.
fn render(
    shell: &PlantUMLShell,
    code: &str,
    executor: &FakeCommandExecutor,
    disk: &mut FakeDisk,
) -> (Result<String, RenderError>, usize) {
    let (mut session, mut action) = shell.start_render(&String::from(code));
    let mut runs: usize = 0;
    loop {
        let event = match action {
            RenderAction::CheckExists { path } => RenderEvent::Exists(disk.files.contains_key(&path)),
            RenderAction::WriteFile { path, contents } => {
                if disk.fail_writes {
                    RenderEvent::Completed(Err(String::from("disk full")))
                } else {
                    disk.files.insert(path, contents.into_bytes());
                    RenderEvent::Completed(Ok(()))
                }
            }
            RenderAction::Execute { args } => {
                runs += 1;
                RenderEvent::Completed(execute(executor, disk, &args))
            }
            RenderAction::CopyFile { from, to } => {
                if disk.fail_copies {
                    RenderEvent::Completed(Err(String::from("read-only")))
                } else {
                    let bytes = disk.files.get(&from).cloned().unwrap();
                    disk.files.insert(to, bytes);
                    RenderEvent::Completed(Ok(()))
                }
            }
            RenderAction::Finish { result } => {
                assert_eq!(session.stage, RenderStage::Done);
                return (result, runs);
            }
        };
        assert!(session.accepts_event(&event));
        action = session.step(event);
    }
}

fn shell(img_root: &str, generation_dir: &str) -> PlantUMLShell {
    PlantUMLShell::new(
        String::from(""),
        String::from(img_root),
        String::from(generation_dir),
        String::from("svg"),
    )
}

#[test]
fn shell_command_line_arguments() {
    let shell = PlantUMLShell::new(
        String::from("plantumlcmd"),
        String::from(""),
        String::from("/tmp/gen"),
        String::from("svg"),
    );
    let file = String::from("froboz.puml");
    assert_eq!(
        vec![
            String::from("plantumlcmd"),
            String::from("-tsome_supported_extension"),
            String::from("-nometadata"),
            String::from("froboz.puml")
        ],
        shell.get_cmd_arguments(&file, &String::from("some_supported_extension"))
    );
}

#[test]
fn command_failure() {
    let shell = shell("/tmp/out", "/tmp/out");
    let executor = FakeCommandExecutor { error: true, create_file: false };
    let mut disk = FakeDisk::default();
    match render(&shell, DIAGRAM, &executor, &mut disk).0 {
        Ok(_svg) => assert!(false, "Expected the command to fail"),
        Err(e) => assert!(
            e.to_string().contains("Failed to render inline diagram"),
            "Wrong error returned"
        ),
    };
}

#[test]
fn no_image_file_created() {
    let shell = shell("/tmp/out", "/tmp/out");
    let executor = FakeCommandExecutor { error: false, create_file: false };
    let mut disk = FakeDisk::default();
    match render(&shell, DIAGRAM, &executor, &mut disk).0 {
        Ok(_svg) => assert!(false, "Expected the command to fail"),
        Err(e) => assert!(
            e.to_string().contains("PlantUML did not generate an image"),
            "Wrong error returned"
        ),
    };
}

#[test]
fn returns_image_file_path_on_success() {
    let shell = shell("/tmp/out", "/tmp/gen");
    let executor = FakeCommandExecutor { error: false, create_file: true };
    let mut disk = FakeDisk::default();
    let source = String::from(DIAGRAM);
    match render(&shell, &source, &executor, &mut disk).0 {
        Ok(img_path) => {
            let raw_source = disk.files.get(&img_path).unwrap();
            let copied_source = String::from_utf8_lossy(raw_source);
            assert_eq!(source, copied_source)
        }
        Err(e) => assert!(false, "{}", e.to_string()),
    };
}

#[test]
fn cached_image_skips_the_command() {
    let shell = shell("/tmp/out", "/tmp/gen");
    let executor = FakeCommandExecutor { error: false, create_file: true };
    let mut disk = FakeDisk::default();
    let (first, runs) = render(&shell, DIAGRAM, &executor, &mut disk);
    assert_eq!(runs, 1);
    let files_after_first = disk.files.len();
    let (second, runs) = render(&shell, DIAGRAM, &executor, &mut disk);
    assert_eq!(runs, 0);
    assert_eq!(first.ok(), second.ok());
    assert_eq!(disk.files.len(), files_after_first);
}

#[test]
fn cache_hit_even_with_failing_runner() {
    let shell = shell("/tmp/out", "/tmp/gen");
    let mut disk = FakeDisk::default();
    let target = mdbook_plantuml::get_image_filename("/tmp/out", DIAGRAM, "svg");
    disk.files.insert(target.clone(), b"cached".to_vec());
    let executor = FakeCommandExecutor { error: true, create_file: false };
    let (result, runs) = render(&shell, DIAGRAM, &executor, &mut disk);
    assert_eq!(runs, 0);
    assert_eq!(result.ok(), Some(target));
}

#[test]
fn different_diagrams_keep_their_own_images() {
    let shell = shell("/tmp/out", "/tmp/gen");
    let executor = FakeCommandExecutor { error: false, create_file: true };
    let mut disk = FakeDisk::default();
    let first_text = "@startuml\nA->B\n@enduml";
    let second_text = "@startuml\nB->A\n@enduml";
    let first = render(&shell, first_text, &executor, &mut disk).0.ok().unwrap();
    let second = render(&shell, second_text, &executor, &mut disk).0.ok().unwrap();
    assert_ne!(first, second);
    assert_eq!(disk.files.get(&first).unwrap(), first_text.as_bytes());
    assert_eq!(disk.files.get(&second).unwrap(), second_text.as_bytes());
}

#[test]
fn scratch_write_failure_is_reported() {
    let shell = shell("/tmp/out", "/tmp/gen");
    let executor = FakeCommandExecutor { error: false, create_file: true };
    let mut disk = FakeDisk { fail_writes: true, ..FakeDisk::default() };
    let (result, runs) = render(&shell, DIAGRAM, &executor, &mut disk);
    assert_eq!(runs, 0);
    match result {
        Err(RenderError::ScratchWriteFailed(reason)) => assert_eq!(reason, "disk full"),
        _ => panic!("expected a scratch write failure"),
    }
}

#[test]
fn copy_failure_is_reported() {
    let shell = shell("/tmp/out", "/tmp/gen");
    let executor = FakeCommandExecutor { error: false, create_file: true };
    let mut disk = FakeDisk { fail_copies: true, ..FakeDisk::default() };
    let (result, _) = render(&shell, DIAGRAM, &executor, &mut disk);
    let e = result.err().unwrap();
    match &e {
        RenderError::CopyFailed { from, to, reason } => {
            assert!(from.starts_with("/tmp/gen/"));
            assert!(to.starts_with("/tmp/out/"));
            assert_eq!(reason, "read-only");
            assert_eq!(
                e.to_string(),
                format!("Error copying the generated PlantUML image {} to {} (read-only).", from, to)
            );
        }
        _ => panic!("expected a copy failure"),
    }
}

#[test]
fn no_output_error_names_the_command_line() {
    let shell = PlantUMLShell::new(
        String::from("plantuml"),
        String::from("out"),
        String::from("gen/"),
        String::from("png"),
    );
    let executor = FakeCommandExecutor { error: false, create_file: false };
    let mut disk = FakeDisk::default();
    let e = render(&shell, "Hello World!", &executor, &mut disk).0.err().unwrap();
    assert_eq!(
        e.to_string(),
        "PlantUML did not generate an image, did you forget the @startuml, @enduml block \
         (plantuml -tpng -nometadata gen/2ef7bde608ce5404e97d5f042f95f89f1c232871.puml)?"
    );
}

#[test]
fn command_failure_message_wraps_reason() {
    let e = RenderError::CommandFailed(String::from("exit 3"));
    assert_eq!(e.to_string(), "Failed to render inline diagram (exit 3).");
    let e = RenderError::ScratchWriteFailed(String::from("no space"));
    assert_eq!(
        e.to_string(),
        "Failed to create temp file for inline diagram (no space)."
    );
}

#[test]
fn join_args_uses_single_spaces() {
    assert_eq!(join_args(&vec![]), "");
    assert_eq!(join_args(&vec![String::from("a")]), "a");
    assert_eq!(
        join_args(&vec![String::from("a"), String::from("b c"), String::from("d")]),
        "a b c d"
    );
}

#[test]
fn scratch_file_names_share_the_digest() {
    let shell = shell("/tmp/out", "/tmp/gen");
    let (src, img) = shell.get_filenames(&String::from("Hello World!"));
    assert_eq!(src, "/tmp/gen/2ef7bde608ce5404e97d5f042f95f89f1c232871.puml");
    assert_eq!(img, "/tmp/gen/2ef7bde608ce5404e97d5f042f95f89f1c232871.svg");
}

#[test]
fn step_rejects_events_out_of_turn() {
    let shell = shell("/tmp/out", "/tmp/gen");
    let (session, _) = shell.start_render(&String::from(DIAGRAM));
    assert!(session.accepts_event(&RenderEvent::Exists(false)));
    assert!(!session.accepts_event(&RenderEvent::Completed(Ok(()))));
}
