//! The errors of the service and of one proving job.
use vstd::prelude::*;

verus! {

/// An error of the service, or of one job (then reported in its outcome).
#[derive(Clone, Debug)]
pub enum ServiceError {
    /// The message broker failed (connect, acknowledge, publish).
    PubSub(String),
    /// The proving engine failed, with its message.
    ProofGeneration(String),
    /// A message could not be encoded or decoded.
    Serialization(String),
    /// An input/output operation failed.
    Io(String),
    /// The configuration is missing or invalid.
    Config(String),
    /// The job ran past its deadline.
    Timeout(String),
    /// The process was asked to stop.
    Shutdown,
    /// The job's workspace could not be made.
    WorkspaceCreation(String),
    /// The shared setup artifacts are absent.
    SetupMissing(String),
    /// The engine's output lacks an artifact; holds the artifact's name.
    ArtifactMissing(String),
    /// The engine's output could not be read as a document.
    ArtifactParse(String),
}

/// The name of the kind of an error, as reported in a job's outcome.
pub open spec fn error_type_name(e: ServiceError) -> Seq<char> {
    match e {
        ServiceError::PubSub(_) => "PubSubError"@,
        ServiceError::ProofGeneration(_) => "ProofGenerationError"@,
        ServiceError::Serialization(_) => "SerializationError"@,
        ServiceError::Io(_) => "IoError"@,
        ServiceError::Config(_) => "ConfigError"@,
        ServiceError::Timeout(_) => "TimeoutError"@,
        ServiceError::Shutdown => "ShutdownError"@,
        ServiceError::WorkspaceCreation(_) => "WorkspaceError"@,
        ServiceError::SetupMissing(_) => "SetupMissingError"@,
        ServiceError::ArtifactMissing(_) => "ArtifactError"@,
        ServiceError::ArtifactParse(_) => "ArtifactError"@,
    }
}

/// The human-readable text of an error.
pub open spec fn error_text(e: ServiceError) -> Seq<char> {
    match e {
        ServiceError::PubSub(m) => "Pub/Sub error: "@ + m@,
        ServiceError::ProofGeneration(m) => "Proof generation failed: "@ + m@,
        ServiceError::Serialization(m) => "Serialization error: "@ + m@,
        ServiceError::Io(m) => "IO error: "@ + m@,
        ServiceError::Config(m) => "Configuration error: "@ + m@,
        ServiceError::Timeout(m) => "Timeout error: "@ + m@,
        ServiceError::Shutdown => "Shutdown signal received"@,
        ServiceError::WorkspaceCreation(m) => "Workspace creation failed: "@ + m@,
        ServiceError::SetupMissing(m) => "Setup artifacts missing: "@ + m@,
        ServiceError::ArtifactMissing(m) => "Artifact missing: "@ + m@,
        ServiceError::ArtifactParse(m) => "Artifact parse error: "@ + m@,
    }
}

impl ServiceError {
    /// The name of this error's kind.
    pub fn error_type(&self) -> (r: String)
        ensures
            r@ == error_type_name(*self),
    {
        let name = match self {
            ServiceError::PubSub(_) => "PubSubError",
            ServiceError::ProofGeneration(_) => "ProofGenerationError",
            ServiceError::Serialization(_) => "SerializationError",
            ServiceError::Io(_) => "IoError",
            ServiceError::Config(_) => "ConfigError",
            ServiceError::Timeout(_) => "TimeoutError",
            ServiceError::Shutdown => "ShutdownError",
            ServiceError::WorkspaceCreation(_) => "WorkspaceError",
            ServiceError::SetupMissing(_) => "SetupMissingError",
            ServiceError::ArtifactMissing(_) => "ArtifactError",
            ServiceError::ArtifactParse(_) => "ArtifactError",
        };
        String::from_str(name)
    }

    /// The text of this error.
    pub fn message(&self) -> (r: String)
        ensures
            r@ == error_text(*self),
    {
        match self {
            ServiceError::PubSub(m) => String::from_str("Pub/Sub error: ").concat(m.as_str()),
            ServiceError::ProofGeneration(m) => String::from_str("Proof generation failed: ").concat(
                m.as_str(),
            ),
            ServiceError::Serialization(m) => String::from_str("Serialization error: ").concat(
                m.as_str(),
            ),
            ServiceError::Io(m) => String::from_str("IO error: ").concat(m.as_str()),
            ServiceError::Config(m) => String::from_str("Configuration error: ").concat(m.as_str()),
            ServiceError::Timeout(m) => String::from_str("Timeout error: ").concat(m.as_str()),
            ServiceError::Shutdown => String::from_str("Shutdown signal received"),
            ServiceError::WorkspaceCreation(m) => String::from_str(
                "Workspace creation failed: ",
            ).concat(m.as_str()),
            ServiceError::SetupMissing(m) => String::from_str("Setup artifacts missing: ").concat(
                m.as_str(),
            ),
            ServiceError::ArtifactMissing(m) => String::from_str("Artifact missing: ").concat(
                m.as_str(),
            ),
            ServiceError::ArtifactParse(m) => String::from_str("Artifact parse error: ").concat(
                m.as_str(),
            ),
        }
    }
}

} // verus!
