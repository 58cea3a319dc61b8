use vstd::prelude::*;

verus! {

/// The closed set of failures that the pipeline surfaces to its caller.
/// Each variant carries a human-readable detail.
#[derive(Debug, Clone, PartialEq, Eq)]
pub enum PipelineError {
    /// The model download failed, including a non-success HTTP status.
    Network(String),
    /// The cache directory or a temporary file could not be read or written.
    Filesystem(String),
    /// An external executable could not be started.
    ProcessSpawn(String),
    /// An external executable exited with a failure status; carries its
    /// captured standard error verbatim.
    ProcessExecution(String),
    /// The audio does not meet the inference engine's input contract.
    FormatValidation(String),
    /// The inference engine could not be initialised from the model file.
    ModelLoad(String),
    /// The inference engine failed while or after running.
    Inference(String),
}

/// The label that names the kind of a failure.
pub open spec fn kind_label(e: PipelineError) -> Seq<char> {
    match e {
        PipelineError::Network(_) => "network error"@,
        PipelineError::Filesystem(_) => "filesystem error"@,
        PipelineError::ProcessSpawn(_) => "process spawn error"@,
        PipelineError::ProcessExecution(_) => "process execution error"@,
        PipelineError::FormatValidation(_) => "format validation error"@,
        PipelineError::ModelLoad(_) => "model load error"@,
        PipelineError::Inference(_) => "inference error"@,
    }
}

/// The detail that a failure carries.
pub open spec fn detail_of(e: PipelineError) -> Seq<char> {
    match e {
        PipelineError::Network(m) => m@,
        PipelineError::Filesystem(m) => m@,
        PipelineError::ProcessSpawn(m) => m@,
        PipelineError::ProcessExecution(m) => m@,
        PipelineError::FormatValidation(m) => m@,
        PipelineError::ModelLoad(m) => m@,
        PipelineError::Inference(m) => m@,
    }
}

impl PipelineError {
    /// The kind of the failure, as text.
    pub fn kind(&self) -> (r: &'static str)
        ensures
            r@ == kind_label(*self),
    {
        match self {
            PipelineError::Network(_) => "network error",
            PipelineError::Filesystem(_) => "filesystem error",
            PipelineError::ProcessSpawn(_) => "process spawn error",
            PipelineError::ProcessExecution(_) => "process execution error",
            PipelineError::FormatValidation(_) => "format validation error",
            PipelineError::ModelLoad(_) => "model load error",
            PipelineError::Inference(_) => "inference error",
        }
    }

    /// The detail that the failure carries.
    pub fn detail(&self) -> (r: &str)
        ensures
            r@ == detail_of(*self),
    {
        match self {
            PipelineError::Network(m) => m.as_str(),
            PipelineError::Filesystem(m) => m.as_str(),
            PipelineError::ProcessSpawn(m) => m.as_str(),
            PipelineError::ProcessExecution(m) => m.as_str(),
            PipelineError::FormatValidation(m) => m.as_str(),
            PipelineError::ModelLoad(m) => m.as_str(),
            PipelineError::Inference(m) => m.as_str(),
        }
    }

    /// The failure as one line of text: its kind, a colon, and its detail.
    pub fn describe(&self) -> (r: String)
        ensures
            r@ == kind_label(*self) + ": "@ + detail_of(*self),
    {
        let mut r = String::from_str(self.kind());
        r.append(": ");
        r.append(self.detail());
        r
    }
}

} // verus!
