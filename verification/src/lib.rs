//! Decision logic for a small desktop-shell application: a focus tracker that
//! remembers which external window held keyboard focus, a planner for handing
//! focus back, a tray-menu and tray-click dispatcher, and an idempotent
//! provisioner for a secondary "overlay" window. The host framework and the
//! operating system are driven from a thin unverified layer that feeds plain
//! values into these functions and carries their decisions out.

pub mod focus;
pub mod overlay;
pub mod text;
pub mod tray;
