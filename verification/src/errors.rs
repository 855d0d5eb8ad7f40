//! The library's error type.  Every variant carries the diagnostic text of
//! the failure it reports; the variants that arise at the process edges are
//! built there from the underlying error's rendering.

use vstd::prelude::*;
use vstd::string::*;

verus! {

#[derive(Debug, Clone)]
pub enum AppError {
    RocketError(String),
    ConfigError(String),
    RabbitMQClientError(String),
    RabbitMQProducerCreateError(String),
    GitCloneError(String),
    TempDirCreationError(String),
    RabbitMQConsumerCreateError(String),
    RabbitMQConsumerCloseError(String),
    RabbitMQConsumerConsumeError(String),
}

/// The diagnostic prefix each variant is reported under.
pub open spec fn spec_error_prefix(e: AppError) -> Seq<char> {
    match e {
        AppError::RocketError(_) => "Error launching rocket: "@,
        AppError::ConfigError(_) => "Error parsing configuration: "@,
        AppError::RabbitMQClientError(_) => "RabbitMQ client error: "@,
        AppError::RabbitMQProducerCreateError(_) => "Error creating producer: "@,
        AppError::GitCloneError(_) => "Error cloning git repository: "@,
        AppError::TempDirCreationError(_) => "Error creating temporary directory: "@,
        AppError::RabbitMQConsumerCreateError(_) => "Error creating consumer: "@,
        AppError::RabbitMQConsumerCloseError(_) => "Error closing consumer: "@,
        AppError::RabbitMQConsumerConsumeError(_) => "Error consuming message: "@,
    }
}

/// The text an error variant carries.
pub open spec fn spec_error_detail(e: AppError) -> Seq<char> {
    match e {
        AppError::RocketError(s) => s@,
        AppError::ConfigError(s) => s@,
        AppError::RabbitMQClientError(s) => s@,
        AppError::RabbitMQProducerCreateError(s) => s@,
        AppError::GitCloneError(s) => s@,
        AppError::TempDirCreationError(s) => s@,
        AppError::RabbitMQConsumerCreateError(s) => s@,
        AppError::RabbitMQConsumerCloseError(s) => s@,
        AppError::RabbitMQConsumerConsumeError(s) => s@,
    }
}

impl AppError {
    /// The full diagnostic line for this error.
    pub fn message(&self) -> (r: String)
        ensures
            r@ == spec_error_prefix(*self) + spec_error_detail(*self),
    {
        let (mut m, detail): (String, &String) = match self {
            AppError::RocketError(s) => ("Error launching rocket: ".to_owned(), s),
            AppError::ConfigError(s) => ("Error parsing configuration: ".to_owned(), s),
            AppError::RabbitMQClientError(s) => ("RabbitMQ client error: ".to_owned(), s),
            AppError::RabbitMQProducerCreateError(s) => ("Error creating producer: ".to_owned(), s),
            AppError::GitCloneError(s) => ("Error cloning git repository: ".to_owned(), s),
            AppError::TempDirCreationError(s) => (
                "Error creating temporary directory: ".to_owned(),
                s,
            ),
            AppError::RabbitMQConsumerCreateError(s) => ("Error creating consumer: ".to_owned(), s),
            AppError::RabbitMQConsumerCloseError(s) => ("Error closing consumer: ".to_owned(), s),
            AppError::RabbitMQConsumerConsumeError(s) => (
                "Error consuming message: ".to_owned(),
                s,
            ),
        };
        m.append(detail.as_str());
        m
    }
}

} // verus!
