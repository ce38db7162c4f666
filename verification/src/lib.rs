//! Pure domain rules of a multi-agent platform: validated claims and
//! evidence, startup lifecycle, autonomy and budget policies, coding and
//! architecture agent profiles, review workflows and transport sessions.
pub mod text;
pub mod digest;
pub mod ids;
pub mod error;
pub mod autonomy;
pub mod budget;
pub mod agent;
pub mod lifecycle;
pub mod claim_evidence;
pub mod task_mapping;
pub mod coding_profile;
pub mod architecture_profile;
pub mod ci_status_integration;
pub mod mcp_transport;
pub mod fix_review_workflow;
pub mod improvement_observation;
pub mod improvement_candidate;
pub mod automatic_rollback;
pub mod automatic_skill_rollout;
pub mod automated_evaluation;
pub mod agent_configuration_proposal;
pub mod updater;
pub mod skill_bridge;
pub mod memory;
pub mod memory_policy;
pub mod project_bridge;
pub mod embedding;
pub mod improvement_scoring;
pub mod moderator_policy;
pub mod group_budget;
pub mod group_entity;
pub mod group_session;
pub mod words;
pub mod dedupe;
pub mod mention_parser;
pub mod keyword;
pub mod workflow_bridge;
pub mod session_bridge;
pub mod memory_bridge;
pub mod provider_settings;
pub mod scheduler_bridge;
pub mod chat_bridge;
pub mod platform_store;
pub mod agent_bridge;
pub mod confirmation_bridge;
pub mod chat_turn;
pub mod oauth_ledger;
pub mod skill_records;
pub mod http_transport;
pub mod notification_permission;
pub mod credential_rules;
pub mod provider_facade;
pub mod skill_parser;
pub mod stream_bridge;
pub mod invocation_graph;
pub mod cycle_detection;
pub mod depth_limit;
pub mod parallel_batch;
