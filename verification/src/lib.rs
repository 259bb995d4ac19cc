pub mod text;
pub mod adif;
pub mod adif_report;
pub mod adif_round_trip;
pub mod awards;
pub mod boot;
pub mod clublog;
pub mod config;
pub mod cty;
pub mod datetime;
pub mod entry;
pub mod eqsl;
pub mod dxcc_table;
pub mod export;
pub mod freq;
pub mod hrdlog;
pub mod ids;
pub mod keyer;
pub mod lotw;
pub mod import;
pub mod qrz;
pub mod qsl_view;
pub mod qso;
pub mod queries;
pub mod repository;
pub mod rig;
pub mod selection;
pub mod service;
pub mod service_record;
pub mod service_state;
pub mod sessions;
pub mod so2r;
pub mod spots;
pub mod station;
pub mod station_pane;
pub mod storage;
pub mod summary;
pub mod sync;
pub mod ui;
pub mod value;
pub mod view_state;
pub mod wpx;
