//! The error taxonomy: a closed set of failure kinds spanning the task
//! lifecycle, the embedded interpreter, the binding layer, I/O,
//! serialization, process lifecycle, OS errors, the message channel and
//! configuration. Each kind carries plain data, maps to a stable numeric
//! code for cross-boundary reporting, and is classified along two
//! independent axes: retryable (transient) and fatal (non-recoverable).
use vstd::prelude::*;
use vstd::string::StringExecFns;

use crate::digits::{i64_to_string, spec_dec, spec_dec_signed, u64_to_string};

verus! {

#[derive(Debug, Clone)]
pub enum PyRunnerError {
    TaskExecutionFailed { message: String },
    TaskTimeout { task_id: u64 },
    TaskCancelled { task_id: u64 },
    JoinError { message: String },
    PythonError(String),
    PythonVariableNotFound { variable: String },
    PythonModuleImportFailed { module: String },
    JniError { message: String },
    JniStringConversionFailed,
    IoError { message: String },
    FileNotFound { path: String },
    PermissionDenied { path: String },
    JsonError { message: String },
    ProcessCreationFailed(String),
    ProcessExecutionFailed { code: i32 },
    NixError { errno: i32 },
    EnvVarError { message: String },
    MessageSendError(String),
    MessageReceiveError(String),
    ChannelClosed,
    ConfigError { message: String },
    InvalidParameter { parameter: String, value: String },
    InternalError { message: String },
    UnsupportedOperation { operation: String },
    ResourceExhausted { resource: String },
    Timeout { operation: String },
    Other { message: String },
}

/// The stable numeric code of each error kind.
pub open spec fn spec_error_code(e: &PyRunnerError) -> i32 {
    match e {
        PyRunnerError::TaskExecutionFailed { .. } => 1001,
        PyRunnerError::TaskTimeout { .. } => 1002,
        PyRunnerError::TaskCancelled { .. } => 1003,
        PyRunnerError::JoinError { .. } => 1004,
        PyRunnerError::PythonError(..) => 2001,
        PyRunnerError::PythonVariableNotFound { .. } => 2002,
        PyRunnerError::PythonModuleImportFailed { .. } => 2003,
        PyRunnerError::JniError { .. } => 3001,
        PyRunnerError::JniStringConversionFailed => 3002,
        PyRunnerError::IoError { .. } => 4001,
        PyRunnerError::FileNotFound { .. } => 4002,
        PyRunnerError::PermissionDenied { .. } => 4003,
        PyRunnerError::JsonError { .. } => 5001,
        PyRunnerError::ProcessCreationFailed(..) => 6001,
        PyRunnerError::ProcessExecutionFailed { .. } => 6002,
        PyRunnerError::NixError { .. } => 7001,
        PyRunnerError::EnvVarError { .. } => 7002,
        PyRunnerError::MessageSendError(..) => 8001,
        PyRunnerError::MessageReceiveError(..) => 8002,
        PyRunnerError::ChannelClosed => 8003,
        PyRunnerError::ConfigError { .. } => 9001,
        PyRunnerError::InvalidParameter { .. } => 9002,
        PyRunnerError::InternalError { .. } => 9999,
        PyRunnerError::UnsupportedOperation { .. } => 9003,
        PyRunnerError::ResourceExhausted { .. } => 9004,
        PyRunnerError::Timeout { .. } => 9005,
        PyRunnerError::Other { .. } => 9998,
    }
}

/// Transient failures, worth retrying.
pub open spec fn spec_is_retryable(e: &PyRunnerError) -> bool {
    match e {
        PyRunnerError::TaskTimeout { .. } => true,
        PyRunnerError::IoError { .. } => true,
        PyRunnerError::MessageSendError(..) => true,
        PyRunnerError::MessageReceiveError(..) => true,
        PyRunnerError::ResourceExhausted { .. } => true,
        PyRunnerError::Timeout { .. } => true,
        _ => false,
    }
}

/// Non-recoverable failures.
pub open spec fn spec_is_fatal(e: &PyRunnerError) -> bool {
    match e {
        PyRunnerError::TaskCancelled { .. } => true,
        PyRunnerError::PermissionDenied { .. } => true,
        PyRunnerError::UnsupportedOperation { .. } => true,
        PyRunnerError::ConfigError { .. } => true,
        _ => false,
    }
}

/// The human-readable text of each error kind. Kinds wrapping a foreign
/// message carry it verbatim; the others prefix their payload with a fixed
/// description.
pub open spec fn spec_message_text(e: &PyRunnerError) -> Seq<char> {
    match e {
        PyRunnerError::TaskExecutionFailed { message } => message@,
        PyRunnerError::TaskTimeout { task_id } => "task timed out: "@ + spec_dec(*task_id as int),
        PyRunnerError::TaskCancelled { task_id } => "task cancelled: "@ + spec_dec(
            *task_id as int,
        ),
        PyRunnerError::JoinError { message } => message@,
        PyRunnerError::PythonError(m) => m@,
        PyRunnerError::PythonVariableNotFound { variable } => "python variable not found: "@
            + variable@,
        PyRunnerError::PythonModuleImportFailed { module } => "python module import failed: "@
            + module@,
        PyRunnerError::JniError { message } => message@,
        PyRunnerError::JniStringConversionFailed => "jni string conversion failed"@,
        PyRunnerError::IoError { message } => message@,
        PyRunnerError::FileNotFound { path } => "file not found: "@ + path@,
        PyRunnerError::PermissionDenied { path } => "permission denied: "@ + path@,
        PyRunnerError::JsonError { message } => message@,
        PyRunnerError::ProcessCreationFailed(m) => "process creation failed: "@ + m@,
        PyRunnerError::ProcessExecutionFailed { code } => "process execution failed with exit status "@
            + spec_dec_signed(*code as int),
        PyRunnerError::NixError { errno } => "os error "@ + spec_dec_signed(*errno as int),
        PyRunnerError::EnvVarError { message } => message@,
        PyRunnerError::MessageSendError(m) => "message send failed: "@ + m@,
        PyRunnerError::MessageReceiveError(m) => "message receive failed: "@ + m@,
        PyRunnerError::ChannelClosed => "channel closed"@,
        PyRunnerError::ConfigError { message } => "configuration error: "@ + message@,
        PyRunnerError::InvalidParameter { parameter, value } => "invalid parameter: "@ + parameter@
            + " = "@ + value@,
        PyRunnerError::InternalError { message } => "internal error: "@ + message@,
        PyRunnerError::UnsupportedOperation { operation } => "unsupported operation: "@
            + operation@,
        PyRunnerError::ResourceExhausted { resource } => "resource exhausted: "@ + resource@,
        PyRunnerError::Timeout { operation } => "timeout: "@ + operation@,
        PyRunnerError::Other { message } => message@,
    }
}

impl PyRunnerError {
    pub fn task_execution_failed(message: String) -> (r: Self)
        ensures
            r == (PyRunnerError::TaskExecutionFailed { message }),
    {
        Self::TaskExecutionFailed { message }
    }

    pub fn task_timeout(task_id: u64) -> (r: Self)
        ensures
            r == (PyRunnerError::TaskTimeout { task_id }),
    {
        Self::TaskTimeout { task_id }
    }

    pub fn python_error(message: String) -> (r: Self)
        ensures
            r == PyRunnerError::PythonError(message),
    {
        Self::PythonError(message)
    }

    pub fn python_variable_not_found(variable: String) -> (r: Self)
        ensures
            r == (PyRunnerError::PythonVariableNotFound { variable }),
    {
        Self::PythonVariableNotFound { variable }
    }

    pub fn file_not_found(path: String) -> (r: Self)
        ensures
            r == (PyRunnerError::FileNotFound { path }),
    {
        Self::FileNotFound { path }
    }

    pub fn permission_denied(path: String) -> (r: Self)
        ensures
            r == (PyRunnerError::PermissionDenied { path }),
    {
        Self::PermissionDenied { path }
    }

    pub fn config_error(message: String) -> (r: Self)
        ensures
            r == (PyRunnerError::ConfigError { message }),
    {
        Self::ConfigError { message }
    }

    pub fn internal_error(message: String) -> (r: Self)
        ensures
            r == (PyRunnerError::InternalError { message }),
    {
        Self::InternalError { message }
    }

    pub fn error_code(&self) -> (r: i32)
        ensures
            r == spec_error_code(self),
    {
        match self {
            Self::TaskExecutionFailed { .. } => 1001,
            Self::TaskTimeout { .. } => 1002,
            Self::TaskCancelled { .. } => 1003,
            Self::JoinError { .. } => 1004,
            Self::PythonError(..) => 2001,
            Self::PythonVariableNotFound { .. } => 2002,
            Self::PythonModuleImportFailed { .. } => 2003,
            Self::JniError { .. } => 3001,
            Self::JniStringConversionFailed => 3002,
            Self::IoError { .. } => 4001,
            Self::FileNotFound { .. } => 4002,
            Self::PermissionDenied { .. } => 4003,
            Self::JsonError { .. } => 5001,
            Self::ProcessCreationFailed(..) => 6001,
            Self::ProcessExecutionFailed { .. } => 6002,
            Self::NixError { .. } => 7001,
            Self::EnvVarError { .. } => 7002,
            Self::MessageSendError(..) => 8001,
            Self::MessageReceiveError(..) => 8002,
            Self::ChannelClosed => 8003,
            Self::ConfigError { .. } => 9001,
            Self::InvalidParameter { .. } => 9002,
            Self::InternalError { .. } => 9999,
            Self::UnsupportedOperation { .. } => 9003,
            Self::ResourceExhausted { .. } => 9004,
            Self::Timeout { .. } => 9005,
            Self::Other { .. } => 9998,
        }
    }

    pub fn is_retryable(&self) -> (r: bool)
        ensures
            r == spec_is_retryable(self),
    {
        match self {
            Self::TaskTimeout { .. }
            | Self::IoError { .. }
            | Self::MessageSendError(..)
            | Self::MessageReceiveError(..)
            | Self::ResourceExhausted { .. }
            | Self::Timeout { .. } => true,
            _ => false,
        }
    }

    pub fn is_fatal(&self) -> (r: bool)
        ensures
            r == spec_is_fatal(self),
    {
        match self {
            Self::TaskCancelled { .. }
            | Self::PermissionDenied { .. }
            | Self::UnsupportedOperation { .. }
            | Self::ConfigError { .. } => true,
            _ => false,
        }
    }

    /// The human-readable text; `spec_message_text` pins it exactly.
    pub fn message_text(&self) -> (r: String)
        ensures
            r@ == spec_message_text(self),
    {
        proof {
            reveal_strlit("task timed out: ");
            reveal_strlit("task cancelled: ");
            reveal_strlit("python variable not found: ");
            reveal_strlit("python module import failed: ");
            reveal_strlit("jni string conversion failed");
            reveal_strlit("file not found: ");
            reveal_strlit("permission denied: ");
            reveal_strlit("process creation failed: ");
            reveal_strlit("process execution failed with exit status ");
            reveal_strlit("os error ");
            reveal_strlit("message send failed: ");
            reveal_strlit("message receive failed: ");
            reveal_strlit("channel closed");
            reveal_strlit("configuration error: ");
            reveal_strlit("invalid parameter: ");
            reveal_strlit(" = ");
            reveal_strlit("internal error: ");
            reveal_strlit("unsupported operation: ");
            reveal_strlit("resource exhausted: ");
            reveal_strlit("timeout: ");
        }
        match self {
            Self::TaskExecutionFailed { message } => message.clone(),
            Self::TaskTimeout { task_id } => {
                let mut s = String::from_str("task timed out: ");
                s.append(u64_to_string(*task_id).as_str());
                s
            },
            Self::TaskCancelled { task_id } => {
                let mut s = String::from_str("task cancelled: ");
                s.append(u64_to_string(*task_id).as_str());
                s
            },
            Self::JoinError { message } => message.clone(),
            Self::PythonError(m) => m.clone(),
            Self::PythonVariableNotFound { variable } => {
                let mut s = String::from_str("python variable not found: ");
                s.append(variable.as_str());
                s
            },
            Self::PythonModuleImportFailed { module } => {
                let mut s = String::from_str("python module import failed: ");
                s.append(module.as_str());
                s
            },
            Self::JniError { message } => message.clone(),
            Self::JniStringConversionFailed => String::from_str("jni string conversion failed"),
            Self::IoError { message } => message.clone(),
            Self::FileNotFound { path } => {
                let mut s = String::from_str("file not found: ");
                s.append(path.as_str());
                s
            },
            Self::PermissionDenied { path } => {
                let mut s = String::from_str("permission denied: ");
                s.append(path.as_str());
                s
            },
            Self::JsonError { message } => message.clone(),
            Self::ProcessCreationFailed(m) => {
                let mut s = String::from_str("process creation failed: ");
                s.append(m.as_str());
                s
            },
            Self::ProcessExecutionFailed { code } => {
                let mut s = String::from_str("process execution failed with exit status ");
                s.append(i64_to_string(*code as i64).as_str());
                s
            },
            Self::NixError { errno } => {
                let mut s = String::from_str("os error ");
                s.append(i64_to_string(*errno as i64).as_str());
                s
            },
            Self::EnvVarError { message } => message.clone(),
            Self::MessageSendError(m) => {
                let mut s = String::from_str("message send failed: ");
                s.append(m.as_str());
                s
            },
            Self::MessageReceiveError(m) => {
                let mut s = String::from_str("message receive failed: ");
                s.append(m.as_str());
                s
            },
            Self::ChannelClosed => String::from_str("channel closed"),
            Self::ConfigError { message } => {
                let mut s = String::from_str("configuration error: ");
                s.append(message.as_str());
                s
            },
            Self::InvalidParameter { parameter, value } => {
                let mut s = String::from_str("invalid parameter: ");
                s.append(parameter.as_str());
                s.append(" = ");
                s.append(value.as_str());
                s
            },
            Self::InternalError { message } => {
                let mut s = String::from_str("internal error: ");
                s.append(message.as_str());
                s
            },
            Self::UnsupportedOperation { operation } => {
                let mut s = String::from_str("unsupported operation: ");
                s.append(operation.as_str());
                s
            },
            Self::ResourceExhausted { resource } => {
                let mut s = String::from_str("resource exhausted: ");
                s.append(resource.as_str());
                s
            },
            Self::Timeout { operation } => {
                let mut s = String::from_str("timeout: ");
                s.append(operation.as_str());
                s
            },
            Self::Other { message } => message.clone(),
        }
    }
}

/// Context attached to a failure at the call site: the operation under way,
/// and optionally the file, the line and further key-value details. Built
/// fluently; later entries with the same key shadow earlier ones.
#[derive(Debug, Clone)]
pub struct ErrorContext {
    pub operation: String,
    pub file: Option<String>,
    pub line: Option<u32>,
    pub additional_info: Vec<(String, String)>,
}

impl ErrorContext {
    pub fn new(operation: String) -> (r: Self)
        ensures
            r.operation == operation,
            r.file is None,
            r.line is None,
            r.additional_info@ == Seq::<(String, String)>::empty(),
    {
        Self { operation, file: None, line: None, additional_info: Vec::new() }
    }

    pub fn with_file(self, file: String) -> (r: Self)
        ensures
            r.operation == self.operation,
            r.file == Some(file),
            r.line == self.line,
            r.additional_info == self.additional_info,
    {
        Self { file: Some(file), ..self }
    }

    pub fn with_line(self, line: u32) -> (r: Self)
        ensures
            r.operation == self.operation,
            r.file == self.file,
            r.line == Some(line),
            r.additional_info == self.additional_info,
    {
        Self { line: Some(line), ..self }
    }

    pub fn with_info(self, key: String, value: String) -> (r: Self)
        ensures
            r.operation == self.operation,
            r.file == self.file,
            r.line == self.line,
            r.additional_info@ == self.additional_info@.push((key, value)),
    {
        let mut info = self.additional_info;
        info.push((key, value));
        Self { additional_info: info, ..self }
    }
}

/// A failure together with the context it arose in.
#[derive(Debug)]
pub struct ContextualError {
    pub error: PyRunnerError,
    pub context: ErrorContext,
}

/// Context-attaching combinators on a fallible outcome: a success passes
/// through untouched, a failure is wrapped with the context the given
/// builder produces.
pub trait ResultExt<T>: Sized {
    spec fn as_spec(self) -> Result<T, PyRunnerError>;

    fn with_context<F: FnOnce() -> ErrorContext>(self, f: F) -> (r: Result<T, ContextualError>)
        requires
            call_requires(f, ()),
        ensures
            match self.as_spec() {
                Ok(v) => r matches Ok(rv) && rv == v,
                Err(e) => r matches Err(ce) && ce.error == e && call_ensures(f, (), ce.context),
            },
    ;

    fn with_operation(self, operation: String) -> (r: Result<T, ContextualError>)
        ensures
            match self.as_spec() {
                Ok(v) => r matches Ok(rv) && rv == v,
                Err(e) => r matches Err(ce) && ce.error == e && ce.context.operation == operation
                    && ce.context.file is None && ce.context.line is None
                    && ce.context.additional_info@.len() == 0,
            },
    ;
}

impl<T> ResultExt<T> for Result<T, PyRunnerError> {
    open spec fn as_spec(self) -> Result<T, PyRunnerError> {
        self
    }

    fn with_context<F: FnOnce() -> ErrorContext>(self, f: F) -> (r: Result<T, ContextualError>) {
        match self {
            Ok(v) => Ok(v),
            Err(error) => Err(ContextualError { error, context: f() }),
        }
    }

    fn with_operation(self, operation: String) -> (r: Result<T, ContextualError>) {
        match self {
            Ok(v) => Ok(v),
            Err(error) => Err(ContextualError { error, context: ErrorContext::new(operation) }),
        }
    }
}

} // verus!
