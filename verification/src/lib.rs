//! Builds Docker images from a local Dockerfile or directory context.
//!
//! The library packages a build context into a compressed tar archive and
//! decides, chunk by chunk, how the daemon's build progress stream is
//! handled: progress is logged, and an error — reported by the daemon or
//! raised by the stream itself — ends the build as a typed error. The
//! network call itself is left to the caller.

pub mod archive;
pub mod chunk;

use vstd::prelude::*;

verus! {

use crate::chunk::BuildChunk;
use crate::chunk::ProgressLog;
use crate::chunk::is_progress_log;
use crate::chunk::progress_log;
use vstd::string::StringExecFns;

/// Describes one image build: the repository and tag the image is built
/// under, the filesystem path of the build context, and the name of the
/// Dockerfile inside it.
pub struct DockerfileImage {
    pub repository: String,
    pub tag: String,
    pub path: String,
    pub name: String,
}

impl DockerfileImage {
    /// Builds a descriptor from a repository name and optional tag, context
    /// path and Dockerfile name; the missing parts get their usual defaults.
    pub fn with_dockerfile(
        repository: &str,
        tag: Option<&str>,
        path: Option<&str>,
        name: Option<&str>,
    ) -> (img: DockerfileImage)
        ensures
            img.repository@ == repository@,
            img.tag@ == (match tag {
                Some(t) => t@,
                None => "latest"@,
            }),
            img.path@ == (match path {
                Some(p) => p@,
                None => "./dockerfile"@,
            }),
            img.name@ == (match name {
                Some(n) => n@,
                None => "Dockerfile"@,
            }),
    {
        DockerfileImage {
            repository: repository.to_owned(),
            tag: match tag {
                Some(t) => t.to_owned(),
                None => "latest".to_owned(),
            },
            path: match path {
                Some(p) => p.to_owned(),
                None => "./dockerfile".to_owned(),
            },
            name: match name {
                Some(n) => n.to_owned(),
                None => "Dockerfile".to_owned(),
            },
        }
    }

    /// The name the image is built under, `repository:tag`.
    pub fn image_tag(&self) -> (r: String)
        ensures
            r@ == image_tag_text(*self),
    {
        self.repository.clone().concat(":").concat(self.tag.as_str())
    }

    /// A one-line account of the descriptor's four fields.
    pub fn describe(&self) -> (r: String)
        ensures
            r@ == describe_text(*self),
    {
        String::from_str("repository: ").concat(self.repository.as_str()).concat(
            ", tag: ",
        ).concat(self.tag.as_str()).concat(", path: ").concat(self.path.as_str()).concat(
            ", name: ",
        ).concat(self.name.as_str())
    }

    /// The options of the build request this descriptor stands for: the
    /// Dockerfile name, the full image tag, and removal of intermediate
    /// containers.
    pub fn build_options(&self) -> (r: BuildOptions)
        ensures
            r.dockerfile@ == self.name@,
            r.t@ == image_tag_text(*self),
            r.rm == true,
    {
        BuildOptions { dockerfile: self.name.clone(), t: self.image_tag(), rm: true }
    }

    /// Decides how one event of the daemon's build stream is handled: a
    /// progress chunk is logged; a chunk that reports an error, like a
    /// failure of the stream itself, ends the build with the typed error
    /// carrying this descriptor.
    pub fn build_step(&self, event: StreamEvent) -> (action: BuildAction)
        ensures
            is_build_step(*self, event, action),
    {
        match event {
            StreamEvent::Chunk(c) => match c.error {
                Some(error) => BuildAction::Fail(
                    DockerfileError::BuildImage { error, dockerfile_image: self.clone() },
                ),
                None => BuildAction::Log(progress_log(&c)),
            },
            StreamEvent::Failed(msg) => BuildAction::Fail(
                DockerfileError::BuildImage { error: msg, dockerfile_image: self.clone() },
            ),
        }
    }
}

/// What `build_step` decides for an event: a chunk without an error is
/// logged as its progress line; a chunk whose `error` is set, like a failure
/// of the stream itself, ends the build with that text wrapped in the typed
/// error holding the image's descriptor.
pub open spec fn is_build_step(
    img: DockerfileImage,
    event: StreamEvent,
    action: BuildAction,
) -> bool {
    match event {
        StreamEvent::Chunk(c) => match c.error {
            Some(e) => action matches BuildAction::Fail(
                DockerfileError::BuildImage { error, dockerfile_image },
            ) && error@ == e@ && dockerfile_image == img,
            None => action matches BuildAction::Log(log) && is_progress_log(c, log),
        },
        StreamEvent::Failed(msg) => action matches BuildAction::Fail(
            DockerfileError::BuildImage { error, dockerfile_image },
        ) && error@ == msg@ && dockerfile_image == img,
    }
}

impl Clone for DockerfileImage {
    /// A clone keeps all four fields.
    fn clone(&self) -> (r: Self)
        ensures
            r == *self,
    {
        DockerfileImage {
            repository: self.repository.clone(),
            tag: self.tag.clone(),
            path: self.path.clone(),
            name: self.name.clone(),
        }
    }
}

/// The text of `image_tag`: the repository and tag joined by a colon.
pub open spec fn image_tag_text(img: DockerfileImage) -> Seq<char> {
    img.repository@ + ":"@ + img.tag@
}

/// The text of `describe`: the four fields, each under its label.
pub open spec fn describe_text(img: DockerfileImage) -> Seq<char> {
    "repository: "@ + img.repository@ + ", tag: "@ + img.tag@ + ", path: "@ + img.path@
        + ", name: "@ + img.name@
}

/// The options of a build request: the Dockerfile's name inside the context,
/// the full image tag, and whether intermediate containers are removed.
pub struct BuildOptions {
    pub dockerfile: String,
    pub t: String,
    pub rm: bool,
}

/// Building an image failed: the daemon's error text, with the descriptor of
/// the image whose build it ended.
pub enum DockerfileError {
    BuildImage { error: String, dockerfile_image: DockerfileImage },
}

impl DockerfileError {
    /// The error's display text, naming the image descriptor it concerns.
    pub fn message(&self) -> (r: String)
        ensures
            r@ == error_text(*self),
    {
        match self {
            DockerfileError::BuildImage { error: _, dockerfile_image } => String::from_str(
                "Building image via Docker API failed: DockerfileImage: ",
            ).concat(dockerfile_image.describe().as_str()),
        }
    }
}

/// The text of `DockerfileError::message`.
pub open spec fn error_text(e: DockerfileError) -> Seq<char> {
    match e {
        DockerfileError::BuildImage { error, dockerfile_image } =>
            "Building image via Docker API failed: DockerfileImage: "@ + describe_text(
            dockerfile_image,
        ),
    }
}

/// One event of the daemon's build stream, as the caller hands it over: a
/// decoded progress chunk, or the text of the error that ended the stream.
pub enum StreamEvent {
    Chunk(BuildChunk),
    Failed(String),
}

/// What a stream event calls for: log a progress line and read on, or stop
/// with the typed build error.
pub enum BuildAction {
    Log(ProgressLog),
    Fail(DockerfileError),
}

} // verus!
