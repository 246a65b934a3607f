//! Verified core of a terminal dashboard for the mihomo proxy kernel.
pub mod text;
pub mod github;
pub mod message;
pub mod sort;
pub mod key;
pub mod columns;
pub mod columns_setting;
pub mod url_support;
pub mod config;
pub mod schema;
pub mod connections_setting;
pub mod runtime;
pub mod snapshot;
pub mod config_text;
pub mod tabs;
pub mod root;
pub mod shortcut;
pub mod highlight;
pub mod proxy_setting;
pub mod proxies;
pub mod input;
pub mod navigator;
pub mod pairs;
pub mod source_ip_alias;
pub mod settings_dialog;
pub mod column_layout;
pub mod scroller;
pub mod action;
pub mod detail;
pub mod dns;
pub mod logs;
pub mod core_config;
pub mod updates;
pub mod providers;
pub mod connections_view;
pub mod proxy_detail;
pub mod card_views;
pub mod terminate;
pub mod filter;
pub mod cli;
pub mod rules;
pub mod connections;
pub mod stream;
