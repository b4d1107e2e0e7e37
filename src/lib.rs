//! Adaptive video bitrate control for a streaming session, with the page flow
//! of the first-run setup wizard.

pub mod bitrate;
pub mod history;
pub mod setup_wizard;

pub use bitrate::VideoBitrateManager;
pub use history::SampleHistory;
pub use setup_wizard::{SetupWizard, SetupWizardRequest};
