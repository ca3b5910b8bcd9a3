//! The verified core of a local HTTP debugging reverse proxy: the transaction
//! recorder with its body analysis, the configuration and its updates, the admin
//! token gate and router, the decisions of the forwarding pipeline, and the
//! validation of the upstream target.

pub mod text;
pub mod body;
pub mod recorder;
pub mod config;
pub mod target;
pub mod admin;
pub mod proxy;
pub mod supervisor;

pub use body::{analyze_body, BodyRecord, HeaderPair};
pub use config::{ConfigUpdate, ProxyConfig};
pub use recorder::{
    HttpTransaction, HttpVersion, RequestInfo, RequestRecord, RequestRecorder, ResponseInfo,
    ResponseRecord,
};
pub use target::{parse_upstream_target, TargetError};
pub use admin::{route_admin, AdminRoute};
pub use proxy::{finish_exchange, ClientReply, UpstreamOutcome, UpstreamResponse};
