//! The agent-orchestration service: its settings and the plain data it
//! exchanges.

pub mod config;
pub mod connection;
pub mod types;

pub use config::OrchestrateConfig;
pub use connection::OrchestrateConnection;
pub use types::{
    Agent, AssistantStatus, AuthConfig, AuthType, CollectionStatus, CreateCollectionRequest,
    DocumentCollection, DocumentType, IndexType, Message, MessageRole, ParameterType,
    SimilarityMetric, SkillType, ThreadInfo, ToolType, VectorIndexConfig,
};
