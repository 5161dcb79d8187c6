use dockertest_dockerfile::chunk::BuildChunk;
use dockertest_dockerfile::chunk::ErrorDetail;
use dockertest_dockerfile::chunk::ProgressDetail;
use dockertest_dockerfile::chunk::progress_log;
use dockertest_dockerfile::BuildAction;
use dockertest_dockerfile::DockerfileError;
use dockertest_dockerfile::DockerfileImage;
use dockertest_dockerfile::StreamEvent;

#[test]
fn defaults_fill_missing_parts() {
    let img = DockerfileImage::with_dockerfile(
        "dockertest-dockerfile/hello",
        None,
        Some("./dockerfiles/hello.dockerfile"),
        None,
    );
    assert_eq!(img.repository, "dockertest-dockerfile/hello");
    assert_eq!(img.tag, "latest");
    assert_eq!(img.path, "./dockerfiles/hello.dockerfile");
    assert_eq!(img.name, "Dockerfile");
}

#[test]
fn build_options_carry_the_tag() {
    let img = DockerfileImage::with_dockerfile(
        "dockertest-dockerfile/hello",
        None,
        Some("./dockerfiles/hello.dockerfile"),
        None,
    );
    let options = img.build_options();
    assert_eq!(options.dockerfile, "Dockerfile");
    assert_eq!(options.t, "dockertest-dockerfile/hello:latest");
    assert!(options.rm);
    assert!(
        options.t.contains("dockertest-dockerfile")
            && options.t.contains("hello")
            && options.t.contains("latest"),
        "failure checking build image request contains tag"
    );
}

#[test]
fn build_options_carry_a_custom_tag() {
    let img = DockerfileImage::with_dockerfile(
        "dockertest-dockerfile/hello",
        Some("stable"),
        Some("./dockerfiles/hello.dockerfile"),
        None,
    );
    let options = img.build_options();
    assert_eq!(options.t, "dockertest-dockerfile/hello:stable");
    assert!(
        options.t.contains("dockertest-dockerfile")
            && options.t.contains("hello")
            && options.t.contains("stable"),
        "failure checking build image request contains tag"
    );
}

#[test]
fn image_tag_joins_repository_and_tag() {
    let img = DockerfileImage::with_dockerfile("repo", Some("v1"), None, None);
    assert_eq!(img.image_tag(), "repo:v1");
}

#[test]
fn describe_names_all_fields() {
    let img = DockerfileImage::with_dockerfile("repo", Some("v1"), Some("./ctx"), Some("Other"));
    assert_eq!(
        img.describe(),
        "repository: repo, tag: v1, path: ./ctx, name: Other"
    );
}

#[test]
fn error_chunk_ends_the_build() {
    let img = DockerfileImage::with_dockerfile("repo", Some("v1"), None, None);
    let chunk = BuildChunk {
        id: Some("step-3".to_string()),
        error: Some("compile failed".to_string()),
        error_detail: Some(ErrorDetail {
            code: Some(1),
            message: Some("compile failed hard".to_string()),
        }),
        status: Some("ignored".to_string()),
        progress: None,
        progress_detail: None,
    };
    match img.build_step(StreamEvent::Chunk(chunk)) {
        BuildAction::Fail(DockerfileError::BuildImage { error, dockerfile_image }) => {
            assert_eq!(error, "compile failed");
            assert_eq!(dockerfile_image.repository, "repo");
            assert_eq!(dockerfile_image.tag, "v1");
        }
        BuildAction::Log(_) => panic!("a daemon-reported error must end the build"),
    }
}

#[test]
fn progress_chunk_defaults_missing_fields() {
    let chunk = BuildChunk {
        id: None,
        error: None,
        error_detail: None,
        status: Some("Downloading".to_string()),
        progress: None,
        progress_detail: Some(ProgressDetail { current: Some(10), total: Some(100) }),
    };
    let log = progress_log(&chunk);
    assert_eq!(log.status, "Downloading");
    assert_eq!(log.id, "");
    assert_eq!(log.progress, "");
    assert_eq!(log.detail.current, Some(10));
    assert_eq!(log.detail.total, Some(100));
}

#[test]
fn stream_failure_becomes_typed_error() {
    let img = DockerfileImage::with_dockerfile("repo", Some("v1"), Some("./ctx"), None);
    let action = img.build_step(StreamEvent::Failed("connection reset".to_string()));
    match action {
        BuildAction::Fail(DockerfileError::BuildImage { error, dockerfile_image }) => {
            assert_eq!(error, "connection reset");
            assert_eq!(dockerfile_image.repository, "repo");
            assert_eq!(dockerfile_image.tag, "v1");
        }
        BuildAction::Log(_) => panic!("a stream failure must end the build"),
    }
}

#[test]
fn error_message_names_the_descriptor() {
    let img = DockerfileImage::with_dockerfile("repo", Some("v1"), Some("./ctx"), None);
    let action = img.build_step(StreamEvent::Failed("connection reset".to_string()));
    match action {
        BuildAction::Fail(e) => assert_eq!(
            e.message(),
            "Building image via Docker API failed: DockerfileImage: \
             repository: repo, tag: v1, path: ./ctx, name: Dockerfile"
        ),
        BuildAction::Log(_) => panic!("a stream failure must end the build"),
    }
}

#[test]
fn progress_chunk_is_logged_not_fatal() {
    let img = DockerfileImage::with_dockerfile("repo", None, None, None);
    let chunk = BuildChunk {
        id: None,
        error: None,
        error_detail: None,
        status: None,
        progress: None,
        progress_detail: None,
    };
    match img.build_step(StreamEvent::Chunk(chunk)) {
        BuildAction::Log(log) => {
            assert_eq!(log.status, "");
            assert_eq!(log.id, "");
            assert_eq!(log.progress, "");
            assert_eq!(log.detail.current, None);
            assert_eq!(log.detail.total, None);
        }
        BuildAction::Fail(_) => panic!("an error-free chunk is logged as progress"),
    }
}
