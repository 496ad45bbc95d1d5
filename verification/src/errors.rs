use vstd::prelude::*;

verus! {

/// A failed render call. Every failure mode of the render protocol is a
/// distinct variant, so callers can tell a syntax error from a missing
/// export from a guest exception.
#[derive(Debug, Clone, PartialEq, Eq)]
pub enum RenderError {
    /// The source text is not syntactically valid as an ES module.
    CompileError,
    /// The module graph could not be resolved; the module is not
    /// self-contained (no external module resolution is supported).
    InstantiateError,
    /// An exception was thrown while running the module's top-level code;
    /// holds the guest exception's message text.
    EvaluationError(String),
    /// The module's exported namespace has no property named `default`.
    MissingExportError,
    /// The `default` export exists but is not invocable.
    NotCallableError,
    /// An exception was thrown while calling the render function; holds the
    /// guest exception's message text.
    InvocationError(String),
}

impl RenderError {
    /// The human-readable message carried to the caller. For the two
    /// exception-carrying variants this is the guest exception's message
    /// text itself, not a generic string form of the thrown object.
    pub open spec fn message_spec(self) -> Seq<char> {
        match self {
            RenderError::CompileError => "no runnable script"@,
            RenderError::InstantiateError => "failed to instantiate module"@,
            RenderError::EvaluationError(m) => m@,
            RenderError::MissingExportError => "module has no callable default export"@,
            RenderError::NotCallableError => "default export is not a function"@,
            RenderError::InvocationError(m) => m@,
        }
    }

    pub fn message(&self) -> (r: String)
        ensures
            r@ == self.message_spec(),
    {
        match self {
            RenderError::CompileError => "no runnable script".to_owned(),
            RenderError::InstantiateError => "failed to instantiate module".to_owned(),
            RenderError::EvaluationError(m) => m.clone(),
            RenderError::MissingExportError => "module has no callable default export".to_owned(),
            RenderError::NotCallableError => "default export is not a function".to_owned(),
            RenderError::InvocationError(m) => m.clone(),
        }
    }
}

} // verus!
