//! Data types and text rendering for a PLATO construct command line:
//! status dashboards, room inspection, deployment and debug tracing.
pub mod debug;
pub mod deploy;
pub mod equality;
pub mod error;
pub mod inspect;
pub mod laws;
pub mod panel_laws;
pub mod section_laws;
pub mod bits;
pub mod render;
pub mod status;
pub mod text;

pub use debug::{ConservationReport, ConstructDebug, TraceStep};
pub use deploy::{ConstructDeployer, Deployment, EnsignProfile, RoomManifest};
pub use error::DeployError;
pub use inspect::{
    CircuitState, CircuitStatus, ConstructInspector, DeadbandStatus, PenroseCorrelation,
    ProvenanceEntry, RoomConfig, RoomInspection, Tile,
};
pub use render::Render;
pub use status::{
    ConservationStatus, ConstructStatus, EnsignState, PortStatus, ProviderStatus, RoomStatus,
};
