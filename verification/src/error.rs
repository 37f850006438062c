//! The error taxonomy: one error type for the whole engine, with a
//! machine-checkable category, severity and retryability for every error,
//! and a collector that counts errors by both.

use crate::performance::last_entries;
use crate::text::{decimal, decimal_string, join_strings, joined};
use std::time::SystemTime;
use vstd::prelude::*;
use vstd::string::StringExecFns;

verus! {

/// A point in time of the wall clock.
#[verifier::external_type_specification]
#[verifier::external_body]
pub struct ExSystemTime(SystemTime);

/// `SystemTime::now` reads the clock: nothing is known of what it returns.
pub assume_specification[ SystemTime::now ]() -> (now: SystemTime);

/// Everything that can go wrong in the engine.
#[derive(Debug)]
pub enum ImageError {
    /// The bytes carry no known signature, or not the declared one.
    InvalidFormat { format: String },
    /// The format is known but not handled.
    UnsupportedFormat { format: String, supported: Vec<String> },
    /// Format detection could not run.
    FormatDetectionFailed { reason: String },
    /// The codec rejected the payload.
    DecodeError { format: String, message: String },
    /// The codec could not write the image.
    EncodeError { format: String, message: String },
    /// A codec could not be set up.
    CodecInitializationFailed { format: String, details: String },
    /// A parameter is out of range or inconsistent.
    InvalidParameters { details: String },
    /// The dimensions are not usable.
    InvalidDimensions { width: u32, height: u32, reason: String },
    /// The pixel format is not the expected one.
    InvalidPixelFormat { expected: String, actual: String },
    /// A configuration value is not usable.
    ConfigurationError { setting: String, value: String, reason: String },
    /// Not enough memory.
    MemoryError { requested: u64, available: u64 },
    /// A resource ran out.
    ResourceExhausted { resource: String },
    /// A system limit was exceeded.
    SystemLimitExceeded { limit_type: String, current: u64, limit: u64 },
    /// The operation is not offered.
    UnsupportedOperation { operation: String },
    /// The operation was cancelled.
    OperationCancelled { operation: String, reason: String },
    /// The operation ran out of time.
    OperationTimeout { operation: String, timeout_ms: u64 },
    /// A batch stopped at its first failing item.
    BatchProcessingFailed { successful_count: usize, failed_count: usize, first_error: Box<ImageError> },
    /// Items of a parallel batch failed.
    ParallelProcessingError { details: String, failed_task_indices: Vec<usize> },
    /// Telemetry could not be recorded.
    PerformanceError { details: String },
    /// A quality metric could not be computed.
    QualityAssessmentFailed { metric: String, reason: String },
    /// Reading or writing failed.
    IoError { operation: String },
    /// A library underneath failed.
    ExternalLibraryError { library: String, message: String },
    /// The binding layer failed.
    WasmBindingError { details: String },
    /// A call across the binding layer failed.
    JsInteropError { operation: String, reason: String },
}

/// How serious an error is, from least to most.
#[derive(Debug, Clone, Copy, PartialEq, Eq, PartialOrd, Ord, Hash, Structural)]
pub enum ErrorSeverity {
    /// Recoverable.
    Low,
    /// Needs the caller's attention.
    Medium,
    /// May affect the stability of the system.
    High,
    /// Must be handled at once.
    Critical,
}

/// What an error is about.
#[derive(Debug, Clone, Copy, PartialEq, Eq, Hash, Structural)]
pub enum ErrorCategory {
    Format,
    Codec,
    Parameter,
    Resource,
    Operation,
    Batch,
    Performance,
    Io,
    System,
    Wasm,
}

/// The number of error categories.
pub const CATEGORY_COUNT: usize = 10;

/// The number of severities.
pub const SEVERITY_COUNT: usize = 4;

/// How many error timestamps a collector keeps.
pub const MAX_RECENT_TIMESTAMPS: usize = 100;

impl ErrorSeverity {
    /// The rank of the severity: 0 for `Low` up to 3 for `Critical`.
    pub open spec fn rank(self) -> nat {
        match self {
            ErrorSeverity::Low => 0,
            ErrorSeverity::Medium => 1,
            ErrorSeverity::High => 2,
            ErrorSeverity::Critical => 3,
        }
    }

    /// The rank of the severity as a slot number.
    pub fn index(self) -> (i: usize)
        ensures
            i == self.rank(),
            i < SEVERITY_COUNT,
    {
        match self {
            ErrorSeverity::Low => 0,
            ErrorSeverity::Medium => 1,
            ErrorSeverity::High => 2,
            ErrorSeverity::Critical => 3,
        }
    }
}

impl ErrorCategory {
    /// The position of the category in the list of categories.
    pub open spec fn rank(self) -> nat {
        match self {
            ErrorCategory::Format => 0,
            ErrorCategory::Codec => 1,
            ErrorCategory::Parameter => 2,
            ErrorCategory::Resource => 3,
            ErrorCategory::Operation => 4,
            ErrorCategory::Batch => 5,
            ErrorCategory::Performance => 6,
            ErrorCategory::Io => 7,
            ErrorCategory::System => 8,
            ErrorCategory::Wasm => 9,
        }
    }

    /// The position of the category as a slot number.
    pub fn index(self) -> (i: usize)
        ensures
            i == self.rank(),
            i < CATEGORY_COUNT,
    {
        match self {
            ErrorCategory::Format => 0,
            ErrorCategory::Codec => 1,
            ErrorCategory::Parameter => 2,
            ErrorCategory::Resource => 3,
            ErrorCategory::Operation => 4,
            ErrorCategory::Batch => 5,
            ErrorCategory::Performance => 6,
            ErrorCategory::Io => 7,
            ErrorCategory::System => 8,
            ErrorCategory::Wasm => 9,
        }
    }
}

impl ImageError {
    /// The category of each error.
    pub open spec fn spec_category(self) -> ErrorCategory {
        match self {
            ImageError::InvalidFormat { .. }
            | ImageError::UnsupportedFormat { .. }
            | ImageError::FormatDetectionFailed { .. } => ErrorCategory::Format,
            ImageError::DecodeError { .. }
            | ImageError::EncodeError { .. }
            | ImageError::CodecInitializationFailed { .. } => ErrorCategory::Codec,
            ImageError::InvalidParameters { .. }
            | ImageError::InvalidDimensions { .. }
            | ImageError::InvalidPixelFormat { .. }
            | ImageError::ConfigurationError { .. } => ErrorCategory::Parameter,
            ImageError::MemoryError { .. }
            | ImageError::ResourceExhausted { .. }
            | ImageError::SystemLimitExceeded { .. } => ErrorCategory::Resource,
            ImageError::UnsupportedOperation { .. }
            | ImageError::OperationCancelled { .. }
            | ImageError::OperationTimeout { .. } => ErrorCategory::Operation,
            ImageError::BatchProcessingFailed { .. }
            | ImageError::ParallelProcessingError { .. } => ErrorCategory::Batch,
            ImageError::PerformanceError { .. }
            | ImageError::QualityAssessmentFailed { .. } => ErrorCategory::Performance,
            ImageError::IoError { .. } => ErrorCategory::Io,
            ImageError::ExternalLibraryError { .. } => ErrorCategory::System,
            ImageError::WasmBindingError { .. } | ImageError::JsInteropError { .. } => ErrorCategory::Wasm,
        }
    }

    /// The severity of each error.
    pub open spec fn spec_severity(self) -> ErrorSeverity {
        match self {
            ImageError::InvalidParameters { .. }
            | ImageError::ConfigurationError { .. }
            | ImageError::PerformanceError { .. } => ErrorSeverity::Low,
            ImageError::MemoryError { .. }
            | ImageError::ResourceExhausted { .. }
            | ImageError::BatchProcessingFailed { .. }
            | ImageError::ParallelProcessingError { .. }
            | ImageError::OperationTimeout { .. }
            | ImageError::CodecInitializationFailed { .. }
            | ImageError::IoError { .. }
            | ImageError::ExternalLibraryError { .. } => ErrorSeverity::High,
            ImageError::SystemLimitExceeded { .. } => ErrorSeverity::Critical,
            _ => ErrorSeverity::Medium,
        }
    }

    /// Whether trying again may help: true of timeouts, of memory and
    /// resource exhaustion, and of failures underneath the engine.
    pub open spec fn spec_is_retryable(self) -> bool {
        self is OperationTimeout || self is MemoryError || self is ResourceExhausted
            || self is IoError || self is ExternalLibraryError
    }

    /// The severity of the error.
    pub fn severity(&self) -> (s: ErrorSeverity)
        ensures
            s == self.spec_severity(),
    {
        match self {
            ImageError::InvalidParameters { .. }
            | ImageError::ConfigurationError { .. }
            | ImageError::PerformanceError { .. } => ErrorSeverity::Low,
            ImageError::InvalidFormat { .. }
            | ImageError::UnsupportedFormat { .. }
            | ImageError::DecodeError { .. }
            | ImageError::EncodeError { .. }
            | ImageError::InvalidDimensions { .. }
            | ImageError::InvalidPixelFormat { .. }
            | ImageError::UnsupportedOperation { .. }
            | ImageError::OperationCancelled { .. }
            | ImageError::FormatDetectionFailed { .. }
            | ImageError::QualityAssessmentFailed { .. }
            | ImageError::WasmBindingError { .. }
            | ImageError::JsInteropError { .. } => ErrorSeverity::Medium,
            ImageError::MemoryError { .. }
            | ImageError::ResourceExhausted { .. }
            | ImageError::BatchProcessingFailed { .. }
            | ImageError::ParallelProcessingError { .. }
            | ImageError::OperationTimeout { .. }
            | ImageError::CodecInitializationFailed { .. }
            | ImageError::IoError { .. }
            | ImageError::ExternalLibraryError { .. } => ErrorSeverity::High,
            ImageError::SystemLimitExceeded { .. } => ErrorSeverity::Critical,
        }
    }

    /// The category of the error.
    pub fn category(&self) -> (c: ErrorCategory)
        ensures
            c == self.spec_category(),
    {
        match self {
            ImageError::InvalidFormat { .. }
            | ImageError::UnsupportedFormat { .. }
            | ImageError::FormatDetectionFailed { .. } => ErrorCategory::Format,
            ImageError::DecodeError { .. }
            | ImageError::EncodeError { .. }
            | ImageError::CodecInitializationFailed { .. } => ErrorCategory::Codec,
            ImageError::InvalidParameters { .. }
            | ImageError::InvalidDimensions { .. }
            | ImageError::InvalidPixelFormat { .. }
            | ImageError::ConfigurationError { .. } => ErrorCategory::Parameter,
            ImageError::MemoryError { .. }
            | ImageError::ResourceExhausted { .. }
            | ImageError::SystemLimitExceeded { .. } => ErrorCategory::Resource,
            ImageError::UnsupportedOperation { .. }
            | ImageError::OperationCancelled { .. }
            | ImageError::OperationTimeout { .. } => ErrorCategory::Operation,
            ImageError::BatchProcessingFailed { .. }
            | ImageError::ParallelProcessingError { .. } => ErrorCategory::Batch,
            ImageError::PerformanceError { .. }
            | ImageError::QualityAssessmentFailed { .. } => ErrorCategory::Performance,
            ImageError::IoError { .. } => ErrorCategory::Io,
            ImageError::ExternalLibraryError { .. } => ErrorCategory::System,
            ImageError::WasmBindingError { .. } | ImageError::JsInteropError { .. } => ErrorCategory::Wasm,
        }
    }

    /// Whether the caller may try the operation again.
    pub fn is_retryable(&self) -> (b: bool)
        ensures
            b == self.spec_is_retryable(),
    {
        match self {
            ImageError::OperationTimeout { .. }
            | ImageError::MemoryError { .. }
            | ImageError::ResourceExhausted { .. }
            | ImageError::IoError { .. }
            | ImageError::ExternalLibraryError { .. } => true,
            _ => false,
        }
    }

    /// An `InvalidFormat` error that names `format`.
    pub fn invalid_format(format: &str) -> (e: Self)
        ensures
            e matches ImageError::InvalidFormat { format: f } && f@ == format@,
    {
        ImageError::InvalidFormat { format: format.to_owned() }
    }

    /// An `InvalidParameters` error with the given details.
    pub fn invalid_parameters(details: &str) -> (e: Self)
        ensures
            e matches ImageError::InvalidParameters { details: d } && d@ == details@,
    {
        ImageError::InvalidParameters { details: details.to_owned() }
    }

    /// An `UnsupportedOperation` error that names `operation`.
    pub fn unsupported_operation(operation: &str) -> (e: Self)
        ensures
            e matches ImageError::UnsupportedOperation { operation: o } && o@ == operation@,
    {
        ImageError::UnsupportedOperation { operation: operation.to_owned() }
    }

    /// A `ResourceExhausted` error that names `resource`.
    pub fn resource_exhausted(resource: &str) -> (e: Self)
        ensures
            e matches ImageError::ResourceExhausted { resource: r } && r@ == resource@,
    {
        ImageError::ResourceExhausted { resource: resource.to_owned() }
    }

    /// The message of the error, for people to read.
    pub open spec fn spec_message(self) -> Seq<char> {
        match self {
            ImageError::InvalidFormat { format, .. } => "Invalid image format: "@ + format@,
            ImageError::UnsupportedFormat { format, supported, .. } => "Unsupported image format: "@ + format@ + " (supported formats: "@ + joined(supported@, ", "@) + ")"@,
            ImageError::FormatDetectionFailed { reason, .. } => "Format detection failed: "@ + reason@,
            ImageError::DecodeError { format, message, .. } => "Image decode failed for format "@ + format@ + ": "@ + message@,
            ImageError::EncodeError { format, message, .. } => "Image encode failed for format "@ + format@ + ": "@ + message@,
            ImageError::CodecInitializationFailed { format, details, .. } => "Codec initialization failed for "@ + format@ + ": "@ + details@,
            ImageError::InvalidParameters { details, .. } => "Invalid parameters: "@ + details@,
            ImageError::InvalidDimensions { width, height, reason, .. } => "Invalid image dimensions: "@ + decimal(width as nat) + "×"@ + decimal(height as nat) + " (reason: "@ + reason@ + ")"@,
            ImageError::InvalidPixelFormat { expected, actual, .. } => "Invalid pixel format: expected "@ + expected@ + ", got "@ + actual@,
            ImageError::ConfigurationError { setting, value, reason, .. } => "Configuration error: "@ + setting@ + " = "@ + value@ + " ("@ + reason@ + ")"@,
            ImageError::MemoryError { requested, available, .. } => "Memory allocation failed: requested "@ + decimal(requested as nat) + " bytes, available "@ + decimal(available as nat) + " bytes"@,
            ImageError::ResourceExhausted { resource, .. } => "Resource exhausted: "@ + resource@,
            ImageError::SystemLimitExceeded { limit_type, current, limit, .. } => "System limit exceeded: "@ + limit_type@ + " (current: "@ + decimal(current as nat) + ", limit: "@ + decimal(limit as nat) + ")"@,
            ImageError::UnsupportedOperation { operation, .. } => "Unsupported operation: "@ + operation@,
            ImageError::OperationCancelled { operation, reason, .. } => "Operation cancelled: "@ + operation@ + " (reason: "@ + reason@ + ")"@,
            ImageError::OperationTimeout { operation, timeout_ms, .. } => "Operation timeout: "@ + operation@ + " exceeded "@ + decimal(timeout_ms as nat) + "ms"@,
            ImageError::BatchProcessingFailed { successful_count, .. } => "Batch processing failed: "@ + decimal(successful_count as nat) + " successful"@,
            ImageError::ParallelProcessingError { details, .. } => "Parallel processing error: "@ + details@,
            ImageError::PerformanceError { details, .. } => "Performance monitoring error: "@ + details@,
            ImageError::QualityAssessmentFailed { metric, reason, .. } => "Quality assessment failed: "@ + metric@ + " calculation error - "@ + reason@,
            ImageError::IoError { operation, .. } => "I/O error: "@ + operation@,
            ImageError::ExternalLibraryError { library, message, .. } => "External library error in "@ + library@ + ": "@ + message@,
            ImageError::WasmBindingError { details, .. } => "WebAssembly binding error: "@ + details@,
            ImageError::JsInteropError { operation, reason, .. } => "JavaScript interop error: "@ + operation@ + " failed - "@ + reason@,
        }
    }

    /// The message of the error, for people to read.
    pub fn message(&self) -> (text: String)
        ensures
            text@ == self.spec_message(),
    {
        match self {
            ImageError::InvalidFormat { format, .. } => "Invalid image format: ".to_owned().concat(format.as_str()),
            ImageError::UnsupportedFormat { format, supported, .. } => "Unsupported image format: ".to_owned().concat(format.as_str()).concat(" (supported formats: ").concat(join_strings(supported, ", ").as_str()).concat(")"),
            ImageError::FormatDetectionFailed { reason, .. } => "Format detection failed: ".to_owned().concat(reason.as_str()),
            ImageError::DecodeError { format, message, .. } => "Image decode failed for format ".to_owned().concat(format.as_str()).concat(": ").concat(message.as_str()),
            ImageError::EncodeError { format, message, .. } => "Image encode failed for format ".to_owned().concat(format.as_str()).concat(": ").concat(message.as_str()),
            ImageError::CodecInitializationFailed { format, details, .. } => "Codec initialization failed for ".to_owned().concat(format.as_str()).concat(": ").concat(details.as_str()),
            ImageError::InvalidParameters { details, .. } => "Invalid parameters: ".to_owned().concat(details.as_str()),
            ImageError::InvalidDimensions { width, height, reason, .. } => "Invalid image dimensions: ".to_owned().concat(decimal_string(*width as u64).as_str()).concat("×").concat(decimal_string(*height as u64).as_str()).concat(" (reason: ").concat(reason.as_str()).concat(")"),
            ImageError::InvalidPixelFormat { expected, actual, .. } => "Invalid pixel format: expected ".to_owned().concat(expected.as_str()).concat(", got ").concat(actual.as_str()),
            ImageError::ConfigurationError { setting, value, reason, .. } => "Configuration error: ".to_owned().concat(setting.as_str()).concat(" = ").concat(value.as_str()).concat(" (").concat(reason.as_str()).concat(")"),
            ImageError::MemoryError { requested, available, .. } => "Memory allocation failed: requested ".to_owned().concat(decimal_string(*requested as u64).as_str()).concat(" bytes, available ").concat(decimal_string(*available as u64).as_str()).concat(" bytes"),
            ImageError::ResourceExhausted { resource, .. } => "Resource exhausted: ".to_owned().concat(resource.as_str()),
            ImageError::SystemLimitExceeded { limit_type, current, limit, .. } => "System limit exceeded: ".to_owned().concat(limit_type.as_str()).concat(" (current: ").concat(decimal_string(*current as u64).as_str()).concat(", limit: ").concat(decimal_string(*limit as u64).as_str()).concat(")"),
            ImageError::UnsupportedOperation { operation, .. } => "Unsupported operation: ".to_owned().concat(operation.as_str()),
            ImageError::OperationCancelled { operation, reason, .. } => "Operation cancelled: ".to_owned().concat(operation.as_str()).concat(" (reason: ").concat(reason.as_str()).concat(")"),
            ImageError::OperationTimeout { operation, timeout_ms, .. } => "Operation timeout: ".to_owned().concat(operation.as_str()).concat(" exceeded ").concat(decimal_string(*timeout_ms as u64).as_str()).concat("ms"),
            ImageError::BatchProcessingFailed { successful_count, .. } => "Batch processing failed: ".to_owned().concat(decimal_string(*successful_count as u64).as_str()).concat(" successful"),
            ImageError::ParallelProcessingError { details, .. } => "Parallel processing error: ".to_owned().concat(details.as_str()),
            ImageError::PerformanceError { details, .. } => "Performance monitoring error: ".to_owned().concat(details.as_str()),
            ImageError::QualityAssessmentFailed { metric, reason, .. } => "Quality assessment failed: ".to_owned().concat(metric.as_str()).concat(" calculation error - ").concat(reason.as_str()),
            ImageError::IoError { operation, .. } => "I/O error: ".to_owned().concat(operation.as_str()),
            ImageError::ExternalLibraryError { library, message, .. } => "External library error in ".to_owned().concat(library.as_str()).concat(": ").concat(message.as_str()),
            ImageError::WasmBindingError { details, .. } => "WebAssembly binding error: ".to_owned().concat(details.as_str()),
            ImageError::JsInteropError { operation, reason, .. } => "JavaScript interop error: ".to_owned().concat(operation.as_str()).concat(" failed - ").concat(reason.as_str()),
        }
    }

    /// The messages of the error and of every error beneath it, from the
    /// top down.
    pub open spec fn spec_error_chain(self) -> Seq<Seq<char>>
        decreases self,
    {
        match self {
            ImageError::BatchProcessingFailed { first_error, .. } => seq![self.spec_message()]
                + first_error.spec_error_chain(),
            _ => seq![self.spec_message()],
        }
    }

    /// The messages of the error and of every error beneath it, from the
    /// top down.
    pub fn error_chain(&self) -> (chain: Vec<String>)
        ensures
            chain@.len() == self.depth() + 1,
            chain@.len() == self.spec_error_chain().len(),
            forall|i: int| 0 <= i < chain@.len() ==> #[trigger] chain@[i]@ == self.spec_error_chain()[i],
        decreases self,
    {
        let mut chain: Vec<String> = Vec::new();
        chain.push(self.message());
        match self {
            ImageError::BatchProcessingFailed { first_error, .. } => {
                let mut below = first_error.error_chain();
                let ghost rest = below@;
                chain.append(&mut below);
                assert forall|i: int| 0 <= i < chain@.len() implies #[trigger] chain@[i]@
                    == self.spec_error_chain()[i] by {
                    if i > 0 {
                        assert(chain@[i] == rest[i - 1]);
                    }
                }
            },
            _ => {},
        }
        chain
    }

    /// Whether the error is an `InvalidParameters` whose details hold the
    /// text `expected_details`.
    pub fn is_invalid_parameters(&self, expected_details: &str) -> (b: bool)
        ensures
            b == (*self matches ImageError::InvalidParameters { details } && text_occurs_in(
                details@,
                expected_details@,
            )),
    {
        match self {
            ImageError::InvalidParameters { details } => str_contains(
                details.as_str(),
                expected_details,
            ),
            _ => false,
        }
    }

    /// Whether the error is an `UnsupportedOperation` whose operation holds
    /// the text `expected_operation`.
    pub fn is_unsupported_operation(&self, expected_operation: &str) -> (b: bool)
        ensures
            b == (*self matches ImageError::UnsupportedOperation { operation } && text_occurs_in(
                operation@,
                expected_operation@,
            )),
    {
        match self {
            ImageError::UnsupportedOperation { operation } => str_contains(
                operation.as_str(),
                expected_operation,
            ),
            _ => false,
        }
    }

    /// What the caller may do about the error, for the errors of which
    /// something is known to help.
    pub open spec fn spec_suggested_solution(self) -> Option<Seq<char>> {
        match self {
            ImageError::InvalidFormat { .. } => Some(
                "请检查图像文件是否损坏，或尝试使用支持的图像格式"@,
            ),
            ImageError::UnsupportedFormat { supported, .. } => Some(
                "请使用支持的格式之一: "@ + joined(supported@, ", "@),
            ),
            ImageError::MemoryError { requested, available } => Some(
                "请减少图像尺寸或释放内存。当前需要 "@ + decimal(
                    (requested / 1024 / 1024) as nat,
                ) + "MB，可用 "@ + decimal((available / 1024 / 1024) as nat) + "MB"@,
            ),
            ImageError::InvalidParameters { .. } => Some(
                "请检查输入参数是否正确，参考文档了解正确的参数范围"@,
            ),
            ImageError::OperationTimeout { .. } => Some(
                "操作超时，请尝试减少图像尺寸或增加超时时间"@,
            ),
            _ => None,
        }
    }

    /// What the caller may do about the error, if anything is known to
    /// help.
    pub fn suggested_solution(&self) -> (r: Option<String>)
        ensures
            match r {
                Some(text) => self.spec_suggested_solution() == Some(text@),
                None => self.spec_suggested_solution() is None,
            },
    {
        match self {
            ImageError::InvalidFormat { .. } => Some(
                "请检查图像文件是否损坏，或尝试使用支持的图像格式".to_owned(),
            ),
            ImageError::UnsupportedFormat { supported, .. } => {
                let list = join_strings(supported, ", ");
                Some("请使用支持的格式之一: ".to_owned().concat(list.as_str()))
            },
            ImageError::MemoryError { requested, available } => {
                let needed = decimal_string(*requested / 1024 / 1024);
                let free = decimal_string(*available / 1024 / 1024);
                Some(
                    "请减少图像尺寸或释放内存。当前需要 ".to_owned().concat(needed.as_str()).concat(
                        "MB，可用 ",
                    ).concat(free.as_str()).concat("MB"),
                )
            },
            ImageError::InvalidParameters { .. } => Some(
                "请检查输入参数是否正确，参考文档了解正确的参数范围".to_owned(),
            ),
            ImageError::OperationTimeout { .. } => Some(
                "操作超时，请尝试减少图像尺寸或增加超时时间".to_owned(),
            ),
            _ => None,
        }
    }

    /// `after` is `self` with `context` put before its message: a decode
    /// or encode error gets it before its message and a parameter error
    /// before its details, each followed by a colon and a space; any other
    /// error stays as it is.
    pub open spec fn is_with_context(self, context: Seq<char>, after: ImageError) -> bool {
        match self {
            ImageError::DecodeError { format, message } => after matches ImageError::DecodeError {
                format: f,
                message: m,
            } && f@ == format@ && m@ == context + ": "@ + message@,
            ImageError::EncodeError { format, message } => after matches ImageError::EncodeError {
                format: f,
                message: m,
            } && f@ == format@ && m@ == context + ": "@ + message@,
            ImageError::InvalidParameters { details } => after matches ImageError::InvalidParameters {
                details: d,
            } && d@ == context + ": "@ + details@,
            _ => after == self,
        }
    }

    /// Whether context is put before the message of the error.
    pub open spec fn takes_context(self) -> bool {
        self is DecodeError || self is EncodeError || self is InvalidParameters
    }

    /// The error with `context` put before its message.
    pub fn with_context(self, context: &str) -> (e: ImageError)
        ensures
            self.is_with_context(context@, e),
            e.spec_category() == self.spec_category(),
            e.spec_severity() == self.spec_severity(),
    {
        match self {
            ImageError::DecodeError { format, message } => ImageError::DecodeError {
                format,
                message: context.to_owned().concat(": ").concat(message.as_str()),
            },
            ImageError::EncodeError { format, message } => ImageError::EncodeError {
                format,
                message: context.to_owned().concat(": ").concat(message.as_str()),
            },
            ImageError::InvalidParameters { details } => ImageError::InvalidParameters {
                details: context.to_owned().concat(": ").concat(details.as_str()),
            },
            other => other,
        }
    }

    /// How many errors lie beneath this one: the first error of a failed
    /// batch, and what lies beneath that.
    pub open spec fn depth(self) -> nat
        decreases self,
    {
        match self {
            ImageError::BatchProcessingFailed { first_error, .. } => 1 + first_error.depth(),
            _ => 0,
        }
    }

    /// The error beneath all others: the error itself, unless it is a
    /// failed batch, whose cause is that of its first error.
    pub open spec fn spec_root_cause(self) -> ImageError
        decreases self,
    {
        match self {
            ImageError::BatchProcessingFailed { first_error, .. } => first_error.spec_root_cause(),
            _ => self,
        }
    }

    /// The error beneath all others.
    pub fn root_cause(&self) -> (root: &ImageError)
        ensures
            *root == self.spec_root_cause(),
            !(root is BatchProcessingFailed),
        decreases self,
    {
        match self {
            ImageError::BatchProcessingFailed { first_error, .. } => first_error.root_cause(),
            _ => self,
        }
    }

    /// Whether the error is an `InvalidFormat` naming exactly `expected_format`.
    pub fn is_invalid_format(&self, expected_format: &str) -> (b: bool)
        ensures
            b == (*self matches ImageError::InvalidFormat { format } && format@ == expected_format@),
    {
        match self {
            ImageError::InvalidFormat { format } => str_eq(format.as_str(), expected_format),
            _ => false,
        }
    }
}

/// Whether `needle` occurs in `haystack` at position `at`.
pub open spec fn occurs_at(haystack: Seq<u8>, needle: Seq<u8>, at: int) -> bool {
    &&& 0 <= at
    &&& at + needle.len() <= haystack.len()
    &&& forall|i: int| 0 <= i < needle.len() ==> haystack[at + i] == #[trigger] needle[i]
}

/// Whether `needle` occurs somewhere in `haystack`.
pub open spec fn occurs_in(haystack: Seq<u8>, needle: Seq<u8>) -> bool {
    exists|at: int| occurs_at(haystack, needle, at)
}

/// Whether the text `needle` occurs in the text `haystack`, both taken
/// as the bytes that encode them.
pub open spec fn text_occurs_in(haystack: Seq<char>, needle: Seq<char>) -> bool {
    occurs_in(vstd::utf8::encode_utf8(haystack), vstd::utf8::encode_utf8(needle))
}

/// Whether the bytes of `needle` occur in those of `haystack`.
pub fn contains_bytes(haystack: &[u8], needle: &[u8]) -> (found: bool)
    ensures
        found == occurs_in(haystack@, needle@),
{
    if needle.len() > haystack.len() {
        assert forall|at: int| !occurs_at(haystack@, needle@, at) by {}
        return false;
    }
    let last = haystack.len() - needle.len();
    let mut at: usize = 0;
    while at <= last
        invariant
            at <= last + 1,
            last == haystack@.len() - needle@.len(),
            haystack@.len() <= usize::MAX,
            forall|k: int| 0 <= k < at ==> !occurs_at(haystack@, needle@, k),
        decreases last + 1 - at,
    {
        let mut i: usize = 0;
        let mut same = true;
        while i < needle.len() && same
            invariant
                i <= needle@.len(),
                at <= last,
                last == haystack@.len() - needle@.len(),
                haystack@.len() <= usize::MAX,
                same ==> forall|k: int| 0 <= k < i ==> haystack@[at + k] == #[trigger] needle@[k],
                !same ==> !occurs_at(haystack@, needle@, at as int),
            decreases needle@.len() - i + (if same {
                1int
            } else {
                0int
            }),
        {
            if haystack[at + i] != needle[i] {
                same = false;
                assert(haystack@[at + i] != needle@[i as int]);
            } else {
                i += 1;
            }
        }
        if same {
            assert(occurs_at(haystack@, needle@, at as int));
            return true;
        }
        if at == last {
            assert forall|k: int| !occurs_at(haystack@, needle@, k) by {}
            return false;
        }
        at += 1;
    }
    assert forall|k: int| !occurs_at(haystack@, needle@, k) by {}
    false
}

/// Whether the text of `needle` occurs in that of `haystack`.
pub fn str_contains(haystack: &str, needle: &str) -> (found: bool)
    ensures
        found == text_occurs_in(haystack@, needle@),
{
    contains_bytes(haystack.as_bytes(), needle.as_bytes())
}

/// Whether two string slices hold the same text.
pub fn str_eq(a: &str, b: &str) -> (eq: bool)
    ensures
        eq == (a@ == b@),
{
    let x = a.to_owned();
    let y = b.to_owned();
    x == y
}

/// Counts of the errors seen.
#[derive(Debug, Clone)]
pub struct ErrorStatistics {
    /// The errors of each category, at the rank of the category.
    pub error_counts_by_category: Vec<u64>,
    /// The errors of each severity, at the rank of the severity.
    pub error_counts_by_severity: Vec<u64>,
    pub total_errors: u64,
    pub most_common_errors: Vec<(String, u64)>,
    /// When the latest errors were seen, oldest first.
    pub recent_error_timestamps: Vec<SystemTime>,
}

impl ErrorStatistics {
    /// The invariant of the statistics: one counter for each category and
    /// for each severity, none above the total, and no more timestamps
    /// than are kept.
    pub open spec fn wf(&self) -> bool {
        &&& self.error_counts_by_category@.len() == CATEGORY_COUNT
        &&& self.error_counts_by_severity@.len() == SEVERITY_COUNT
        &&& forall|i: int|
            0 <= i < CATEGORY_COUNT ==> self.error_counts_by_category@[i] <= self.total_errors
        &&& forall|i: int|
            0 <= i < SEVERITY_COUNT ==> self.error_counts_by_severity@[i] <= self.total_errors
        &&& self.recent_error_timestamps@.len() <= MAX_RECENT_TIMESTAMPS
    }

    /// No error has been seen.
    pub open spec fn is_initial(&self) -> bool {
        &&& self.wf()
        &&& self.total_errors == 0
        &&& self.most_common_errors@.len() == 0
        &&& self.recent_error_timestamps@.len() == 0
    }

    /// `self` is `before` with one more error of category `category` and
    /// severity `severity`, seen at `now`.
    pub open spec fn is_next(
        &self,
        before: &Self,
        category: ErrorCategory,
        severity: ErrorSeverity,
        now: SystemTime,
    ) -> bool {
        &&& self.total_errors == before.total_errors + 1
        &&& self.error_counts_by_category@ == before.error_counts_by_category@.update(
            category.rank() as int,
            (before.error_counts_by_category@[category.rank() as int] + 1) as u64,
        )
        &&& self.error_counts_by_severity@ == before.error_counts_by_severity@.update(
            severity.rank() as int,
            (before.error_counts_by_severity@[severity.rank() as int] + 1) as u64,
        )
        &&& self.most_common_errors == before.most_common_errors
        &&& self.recent_error_timestamps@ == last_entries(
            before.recent_error_timestamps@.push(now),
            MAX_RECENT_TIMESTAMPS as int,
        )
    }

    /// Statistics of no error.
    pub fn new() -> (stats: Self)
        ensures
            stats.is_initial(),
    {
        let mut by_category: Vec<u64> = Vec::new();
        let mut i: usize = 0;
        while i < CATEGORY_COUNT
            invariant
                i <= CATEGORY_COUNT,
                by_category@.len() == i,
                forall|k: int| 0 <= k < i ==> by_category@[k] == 0,
            decreases CATEGORY_COUNT - i,
        {
            by_category.push(0);
            i += 1;
        }
        let mut by_severity: Vec<u64> = Vec::new();
        let mut j: usize = 0;
        while j < SEVERITY_COUNT
            invariant
                j <= SEVERITY_COUNT,
                by_severity@.len() == j,
                forall|k: int| 0 <= k < j ==> by_severity@[k] == 0,
            decreases SEVERITY_COUNT - j,
        {
            by_severity.push(0);
            j += 1;
        }
        ErrorStatistics {
            error_counts_by_category: by_category,
            error_counts_by_severity: by_severity,
            total_errors: 0,
            most_common_errors: Vec::new(),
            recent_error_timestamps: Vec::new(),
        }
    }

    /// How many errors of `category` were seen.
    pub fn count_by_category(&self, category: ErrorCategory) -> (count: u64)
        requires
            self.wf(),
        ensures
            count == self.error_counts_by_category@[category.rank() as int],
            count <= self.total_errors,
    {
        self.error_counts_by_category[category.index()]
    }

    /// How many errors of `severity` were seen.
    pub fn count_by_severity(&self, severity: ErrorSeverity) -> (count: u64)
        requires
            self.wf(),
        ensures
            count == self.error_counts_by_severity@[severity.rank() as int],
            count <= self.total_errors,
    {
        self.error_counts_by_severity[severity.index()]
    }
}

/// Counts errors by category and by severity, and keeps the times of the
/// latest ones.
#[derive(Debug)]
pub struct ErrorCollector {
    statistics: ErrorStatistics,
    enabled: bool,
}

impl ErrorCollector {
    /// The statistics of the collector.
    pub closed spec fn statistics(&self) -> ErrorStatistics {
        self.statistics
    }

    /// Whether the collector records.
    pub closed spec fn is_enabled(&self) -> bool {
        self.enabled
    }

    /// The invariant of a collector: its statistics are consistent.
    pub open spec fn wf(&self) -> bool {
        self.statistics().wf()
    }

    /// A collector that has seen no error.
    pub fn new(enabled: bool) -> (collector: Self)
        ensures
            collector.wf(),
            collector.is_enabled() == enabled,
            collector.statistics().is_initial(),
    {
        ErrorCollector { statistics: ErrorStatistics::new(), enabled }
    }

    /// Records `error`, where the collector is enabled: the total and the
    /// counters of the error's category and severity go up by one, and the
    /// time joins the latest hundred. Once the total has reached the
    /// largest `u64`, nothing more is recorded.
    pub fn record_error(&mut self, error: &ImageError)
        requires
            old(self).wf(),
        ensures
            final(self).wf(),
            final(self).is_enabled() == old(self).is_enabled(),
            !old(self).is_enabled() || old(self).statistics().total_errors == u64::MAX ==> final(self).statistics() == old(self).statistics(),
            old(self).is_enabled() && old(self).statistics().total_errors < u64::MAX ==> exists|now: SystemTime| #[trigger]
                final(self).statistics().is_next(
                    &old(self).statistics(),
                    error.spec_category(),
                    error.spec_severity(),
                    now,
                ),
    {
        if !self.enabled || self.statistics.total_errors == u64::MAX {
            return ;
        }
        let category = error.category().index();
        let severity = error.severity().index();
        let by_category = self.statistics.error_counts_by_category[category];
        let by_severity = self.statistics.error_counts_by_severity[severity];
        self.statistics.total_errors = self.statistics.total_errors + 1;
        self.statistics.error_counts_by_category.set(category, by_category + 1);
        self.statistics.error_counts_by_severity.set(severity, by_severity + 1);
        let now = SystemTime::now();
        let ghost seen = now;
        self.statistics.recent_error_timestamps.push(now);
        let ghost full = self.statistics.recent_error_timestamps@;
        if self.statistics.recent_error_timestamps.len() > MAX_RECENT_TIMESTAMPS {
            self.statistics.recent_error_timestamps.remove(0);
        }
        proof {
            assert(self.statistics.recent_error_timestamps@ =~= last_entries(
                full,
                MAX_RECENT_TIMESTAMPS as int,
            ));
            assert(self.statistics().is_next(
                &old(self).statistics(),
                error.spec_category(),
                error.spec_severity(),
                seen,
            ));
        }
    }

    /// The statistics of the collector.
    pub fn get_statistics(&self) -> (stats: &ErrorStatistics)
        ensures
            *stats == self.statistics(),
    {
        &self.statistics
    }

    /// Forgets every error seen.
    pub fn reset(&mut self)
        ensures
            final(self).wf(),
            final(self).is_enabled() == old(self).is_enabled(),
            final(self).statistics().is_initial(),
    {
        self.statistics = ErrorStatistics::new();
    }
}

/// Adds context to the error of a result.
pub trait ErrorContext<T>: Sized {
    /// The result, with what `f` returns put before the message of its
    /// error. `f` is called only where the message takes context.
    fn with_context<F: FnOnce() -> String>(self, f: F) -> (r: Result<T, ImageError>)
        requires
            f.requires(()),
    ;

    /// The result, with the two formats of a conversion named before the
    /// message of its error.
    fn with_format_context(self, from: &str, to: &str) -> (r: Result<T, ImageError>);

    /// The result, with an operation named before the message of its error.
    fn with_operation_context(self, operation: &str) -> (r: Result<T, ImageError>);

    /// The result, with a file named before the message of its error.
    fn with_file_context(self, filename: &str) -> (r: Result<T, ImageError>);
}

/// `r` is `before` with `context` put before the message of its error.
pub open spec fn is_result_with_context<T>(
    before: Result<T, ImageError>,
    context: Seq<char>,
    r: Result<T, ImageError>,
) -> bool {
    match before {
        Ok(value) => r == Ok::<T, ImageError>(value),
        Err(e) => r matches Err(after) && e.is_with_context(context, after),
    }
}

impl<T> ErrorContext<T> for Result<T, ImageError> {
    fn with_context<F: FnOnce() -> String>(self, f: F) -> (r: Result<T, ImageError>)
        ensures
            match self {
                Ok(value) => r == Ok::<T, ImageError>(value),
                Err(e) => if e.takes_context() {
                    exists|context: String|
                        f.ensures((), context) && #[trigger] is_result_with_context(
                            self,
                            context@,
                            r,
                        )
                } else {
                    r == self
                },
            },
    {
        match self {
            Ok(value) => Ok(value),
            Err(e) => {
                let takes = match &e {
                    ImageError::DecodeError { .. }
                    | ImageError::EncodeError { .. }
                    | ImageError::InvalidParameters { .. } => true,
                    _ => false,
                };
                if takes {
                    let context = f();
                    let r = Err(e.with_context(context.as_str()));
                    assert(is_result_with_context(self, context@, r));
                    r
                } else {
                    Err(e)
                }
            },
        }
    }

    fn with_format_context(self, from: &str, to: &str) -> (r: Result<T, ImageError>)
        ensures
            is_result_with_context(self, "Converting from "@ + from@ + " to "@ + to@, r),
    {
        match self {
            Ok(value) => Ok(value),
            Err(e) => {
                let context = "Converting from ".to_owned().concat(from).concat(" to ").concat(to);
                Err(e.with_context(context.as_str()))
            },
        }
    }

    fn with_operation_context(self, operation: &str) -> (r: Result<T, ImageError>)
        ensures
            is_result_with_context(self, "During operation: "@ + operation@, r),
    {
        match self {
            Ok(value) => Ok(value),
            Err(e) => {
                let context = "During operation: ".to_owned().concat(operation);
                Err(e.with_context(context.as_str()))
            },
        }
    }

    fn with_file_context(self, filename: &str) -> (r: Result<T, ImageError>)
        ensures
            is_result_with_context(self, "Processing file: "@ + filename@, r),
    {
        match self {
            Ok(value) => Ok(value),
            Err(e) => {
                let context = "Processing file: ".to_owned().concat(filename);
                Err(e.with_context(context.as_str()))
            },
        }
    }
}

/// Follows an error down to its cause.
pub trait ErrorChain {
    /// The messages of the error and of every error beneath it, from the
    /// top down.
    fn error_chain(&self) -> (chain: Vec<String>);

    /// The error beneath all others.
    fn root_cause(&self) -> (root: &ImageError);
}

impl ErrorChain for ImageError {
    fn error_chain(&self) -> (chain: Vec<String>)
        ensures
            chain@.len() == self.spec_error_chain().len(),
            forall|i: int| 0 <= i < chain@.len() ==> #[trigger] chain@[i]@ == self.spec_error_chain()[i],
    {
        ImageError::error_chain(self)
    }

    fn root_cause(&self) -> (root: &ImageError)
        ensures
            *root == self.spec_root_cause(),
    {
        ImageError::root_cause(self)
    }
}

/// Context changes neither the category, nor the severity, nor whether an
/// error may be tried again.
pub proof fn lemma_context_keeps_class(e: ImageError, context: Seq<char>, after: ImageError)
    requires
        e.is_with_context(context, after),
    ensures
        after.spec_category() == e.spec_category(),
        after.spec_severity() == e.spec_severity(),
        after.spec_is_retryable() == e.spec_is_retryable(),
{
}

/// Retryable errors are all of high severity.
pub proof fn lemma_retryable_is_high(e: ImageError)
    requires
        e.spec_is_retryable(),
    ensures
        e.spec_severity() == ErrorSeverity::High,
{
}

/// Format and parameter errors are never retryable.
pub proof fn lemma_validation_errors_not_retryable(e: ImageError)
    requires
        e.spec_category() == ErrorCategory::Format || e.spec_category() == ErrorCategory::Parameter,
    ensures
        !e.spec_is_retryable(),
{
}

/// A failed quality assessment is never of high or critical severity.
pub proof fn lemma_quality_failure_not_fatal(e: ImageError)
    requires
        e is QualityAssessmentFailed,
    ensures
        e.spec_severity().rank() < ErrorSeverity::High.rank(),
        e.spec_category() == ErrorCategory::Performance,
{
}

} // verus!
