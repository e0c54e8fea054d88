use container_provision::exchange::Call;
use container_provision::image::{plan_build, progress_line, BuildOptions, PreconditionError, ProgressEvent};
use container_provision::report::{Notice, Outcome};

#[test]
fn notices_are_worded_for_the_container() {
    assert_eq!(
        Notice::NoneFound.message("python-container"),
        "No existing container found. Proceeding..."
    );
    assert_eq!(
        Notice::Stopping.message("python-container"),
        "Stopping existing container 'python-container'..."
    );
    assert_eq!(
        Notice::Removing.message("python-container"),
        "Removing existing container 'python-container'..."
    );
    assert_eq!(Notice::Created.message("python-container"), "Container created successfully.");
    assert_eq!(Notice::Started.message("python-container"), "Container started successfully.");
    assert_eq!(Notice::Stopping.message(""), "Stopping existing container ''...");
}

#[test]
fn outcomes_are_worded_with_the_engine_message() {
    assert_eq!(Outcome::Attached.message(), "Attached to container.");
    assert!(Outcome::Attached.is_attached());
    let failed = |call: Call| Outcome::Failed { call, error: "conflict".to_string() };
    assert_eq!(failed(Call::Create).message(), "Failed to create container: conflict");
    assert_eq!(failed(Call::Start).message(), "Failed to start container: conflict");
    assert_eq!(failed(Call::Attach).message(), "Failed to attach to container: conflict");
    assert_eq!(failed(Call::Inspect).message(), "Failed to inspect container: conflict");
    assert_eq!(failed(Call::Stop).message(), "Failed to stop container: conflict");
    assert_eq!(failed(Call::Remove).message(), "Failed to remove container: conflict");
    assert!(!failed(Call::Create).is_attached());
    assert_eq!(
        Outcome::Failed { call: Call::Start, error: String::new() }.message(),
        "Failed to start container: "
    );
}

#[test]
fn build_is_planned_when_the_recipe_is_found() {
    let plan = plan_build(true, "my-python-app:latest".to_string(), "Dockerfile".to_string());
    assert_eq!(
        plan,
        Ok(BuildOptions {
            tag: "my-python-app:latest".to_string(),
            dockerfile: "Dockerfile".to_string(),
            remove_intermediate: true,
            force_remove: true,
        })
    );
}

#[test]
fn build_is_refused_without_the_recipe() {
    let plan = plan_build(false, "my-python-app:latest".to_string(), "Dockerfile".to_string());
    assert_eq!(
        plan,
        Err(PreconditionError::MissingBuildContext { path: "Dockerfile".to_string() })
    );
    assert_eq!(plan.unwrap_err().message(), "Error: Dockerfile not found!");
}

#[test]
fn progress_is_printed_as_it_comes() {
    assert_eq!(
        progress_line(ProgressEvent::Update { status: Some("Pulling from library/python".to_string()) }),
        Some("Pulling from library/python".to_string())
    );
    assert_eq!(progress_line(ProgressEvent::Update { status: Some(String::new()) }), Some(String::new()));
    assert_eq!(progress_line(ProgressEvent::Update { status: None }), None);
}

#[test]
fn faults_in_the_feed_are_reported_and_the_feed_goes_on() {
    let feed = vec![
        ProgressEvent::Update { status: Some("Step 1/3".to_string()) },
        ProgressEvent::Fault { error: "malformed event".to_string() },
        ProgressEvent::Update { status: None },
        ProgressEvent::Update { status: Some("Step 2/3".to_string()) },
    ];
    let lines: Vec<Option<String>> = feed.into_iter().map(progress_line).collect();
    assert_eq!(
        lines,
        vec![
            Some("Step 1/3".to_string()),
            Some("Error: malformed event".to_string()),
            None,
            Some("Step 2/3".to_string()),
        ]
    );
}
