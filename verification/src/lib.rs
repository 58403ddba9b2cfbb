//! Peregrine core library: configuration model, validation, migration,
//! material-runtime helpers, SVG path grammar and telemetry text handling.

pub mod rng;
pub mod text;
pub mod schema;
pub mod material;
pub mod key_state;
pub mod telemetry;
pub mod order;
pub mod report_code;
pub mod svg_path;
pub mod window;
pub mod float_bits;
pub mod error;
pub mod crosshair;
pub mod layer;
pub mod settings;
pub mod config;
pub mod migration;
pub mod storage;
pub mod locale;
pub mod commands;
pub mod updates;
pub mod pending;
pub mod reporting;
pub mod telemetry_off;
pub mod ui_labels;
pub mod element;
pub mod material_error;
pub mod watcher;
pub mod registry;
pub mod notifier;
pub mod fingerprint;
pub mod overlay_plan;
pub mod overlay_loop;
pub mod tray;
pub mod report_event;
pub mod png_image;
pub mod dsn;
pub mod desktop_shell;
pub mod script;
