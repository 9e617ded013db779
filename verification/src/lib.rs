//! Logic of a tray applet that controls a local data-science stack: the
//! view-model that the indicator must display for each run state, the
//! controller's state machine, and the text handling around the cluster
//! shell (status parsing, service-IP extraction, URL composition).

pub mod control;
pub mod ip;
pub mod status;
pub mod url;
pub mod view;
