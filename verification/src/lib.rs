//! Core of a form-driven front end for command-line tools.
//!
//! A neutral schema description of a tool's arguments is classified into
//! editable per-argument state, that state is serialized back into an
//! argument vector, and the output of the launched tool is aggregated
//! line by line while it runs.

pub mod arg_state;
pub mod child_app;
pub mod error;
pub mod schema;

pub use arg_state::ArgKind;
pub use arg_state::ArgState;
pub use arg_state::ChooseState;
pub use child_app::ChildApp;
pub use child_app::StdinType;
pub use child_app::StreamEvent;
pub use error::ExecuteError;
pub use error::ValidationErrorInfo;
pub use schema::ArgDef;
pub use schema::HintKind;
