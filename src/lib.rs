//! Permission and foreground-service mediation for a microphone-recording
//! application: one request/check/service-control contract over platforms
//! whose permission and service models differ.
pub mod consent;
pub mod error;
pub mod facade;
pub mod models;
pub mod platform;
pub mod service;
pub mod status;

pub use consent::{ConsentAction, ConsentBridge, ConsentEvent, ConsentPhase};
pub use error::{Error, ErrorKind};
pub use facade::{AudioPermissions, FacadeView};
pub use models::{
    NotificationUpdate, PermissionRequest, PermissionResponse, PermissionType, ServiceResponse,
    ServiceStatusResponse,
};
pub use platform::Platform;
pub use service::{ServiceState, ServiceView};
pub use status::{check_microphone_permission, PermissionStatus};
