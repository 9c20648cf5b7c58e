pub mod baijimu_cli;
pub mod baijimu_laws;
pub mod child_process;
pub mod cli;
pub mod cli_laws;
pub mod codex_path;
pub mod codex_workspace;
pub mod codex_workspace_activation;
pub mod codex_workspace_laws;
pub mod codex_workspace_switch_laws;
pub mod credential;
pub mod desktop;
pub mod digest;
pub mod duplicate;
pub mod environment;
pub mod environment_laws;
pub mod ids;
pub mod json_compat;
pub mod legacy_auth_cleanup;
pub mod order_laws;
pub mod product_config;
pub mod ranking;
pub mod setup;
pub mod system_compatibility;
pub mod text;
pub mod text_laws;
pub mod text_map;
pub mod toml_document;
pub mod user_environment;
pub mod version_laws;
