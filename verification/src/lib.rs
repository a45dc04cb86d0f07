//! Request statistics, recorded off the request path: a timing middleware
//! measures each request, builds one record, and submits it over an
//! unbounded FIFO queue to a single background consumer that serializes
//! records as CSV rows and forwards them to a pluggable sink.

pub mod clock;
pub mod codec;
pub mod digits;
pub mod logger;
pub mod record;
pub mod sink;
