//! Verified core of a JNI bridge between an Android host and a storage-access
//! collaborator.
//!
//! The host reaches native code through four exported symbols. What each of
//! them decides lives here, as functions on plain values that carry the name of
//! the symbol they serve; the pointers, the process-wide state, the logging
//! sink and the calls into the host stay with the embedding program.
//!
//! * [`lifecycle`]: the record of the runtime handle and of the platform
//!   context, and what the load, acquire and release hooks do to it.
//! * [`script`]: the scripted exercise of the storage collaborator, as a
//!   machine that is told how the last operation ended and names the next one.
//! * [`report`]: the log record of the failure hook.
//! * [`platform`]: what is taken on trust from the `jni` crate.

pub mod lifecycle;
pub mod platform;
pub mod report;
pub mod script;

pub use lifecycle::{
    get_jvm, reported_version, ContextEffect, JNI_OnLoad,
    Java_one_rachelt_rust_1saf_MainActivity_initializeContext,
    Java_one_rachelt_rust_1saf_MainActivity_releaseContext, Lifecycle, LifecycleView, Loaded,
    INVALID_JNI_VERSION,
};
pub use report::{decimal_text, panic_message};
pub use script::{
    Fault, Java_one_rachelt_rust_1saf_MainActivity_listUriFiles, Operation, Outcome, Stage, Target,
    DIRECTORY_NAME, FILE_CONTENT, FILE_MIME, FILE_NAME, READ_MODE, SCRIPT_LENGTH, WRITE_MODE,
};
