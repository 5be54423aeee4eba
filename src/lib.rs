//! Data logging for a small device that writes timestamped counter records to
//! a file on an SD card: the retry policy of the bring-up, the order of its
//! stages, the steady-state logging session, and the record format.

pub mod filename;
pub mod pipeline;
pub mod record;
pub mod retry;
pub mod session;
pub mod time_source;

pub use filename::{filename_from, generate_random_filename, name_char};
pub use pipeline::{
    advance, law_failed_stage_gates_the_rest, law_file_only_after_full_bring_up, law_header_failure_drops_file, next_phase, trace,
    Phase, HEADER,
};
pub use record::{csv_line, decimal, format_csv_line, overlay};
pub use retry::{
    law_exhaustion_gives_nothing, law_success_stops_retrying, next_step, retry_run, Retry,
    RetryRun, RetryStep, StepKind, MAX_RETRIES, RETRY_DELAY_MS,
};
pub use session::{
    flush_due, flush_due_spec, iterate, law_flush_points, law_no_file_no_storage, next_count,
    Session, FLUSH_EVERY, LOOP_PERIOD_MS, RECORD_CAPACITY,
};
pub use time_source::{DummyTimeSource, Timestamp};
