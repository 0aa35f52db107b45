//! Static evaluation of learner code submissions.
//!
//! A submission is checked against a small declarative rule set: detection of
//! an unfinished-code placeholder, required snippets that must occur in the
//! code, and forbidden snippets that must not. The engine produces an ordered
//! report of named pass/fail results together with an aggregate success flag.

pub mod engine;
pub mod model;
pub mod text;

pub use engine::evaluate;
pub use engine::handle_run;
pub use engine::validate;

pub use model::Checks;
pub use model::RunError;
pub use model::RunRequest;
pub use model::RunResult;
pub use model::TestResult;
pub use text::contains_snippet;
pub use text::is_blank;
