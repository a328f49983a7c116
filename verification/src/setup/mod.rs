//! Setup Wizard / Setup repair seam: system prerequisites and setup status.

pub mod prerequisites;
pub mod status;
