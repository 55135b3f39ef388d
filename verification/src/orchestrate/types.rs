//! Plain data exchanged with the orchestration service.

use std::collections::HashMap;
use std::time::SystemTime;
use vstd::prelude::*;

verus! {

/// `std::time::SystemTime`: a point in time, carried and never looked into.
#[verifier::external_type_specification]
#[verifier::external_body]
pub struct ExSystemTime(SystemTime);

/// An agent as the service lists it.
#[derive(Clone, Debug)]
pub struct Agent {
    /// Identifier of the agent.
    pub agent_id: String,
    /// Display name of the agent.
    pub name: String,
}

/// State of a custom assistant.
#[derive(Clone, Debug)]
pub enum AssistantStatus {
    /// Ready to answer.
    Active,
    /// Switched off.
    Inactive,
    /// Being trained.
    Training,
    /// Broken.
    Error,
    /// Being deployed.
    Deploying,
}

/// Kind of a skill.
#[derive(Clone, Debug)]
pub enum SkillType {
    /// Text processing.
    TextProcessing,
    /// Code generation.
    CodeGeneration,
    /// Data analysis.
    DataAnalysis,
    /// Document processing.
    DocumentProcessing,
    /// Any other kind, by name.
    Custom(String),
}

/// Type of a skill parameter.
#[derive(Clone, Debug)]
pub enum ParameterType {
    /// Text.
    String,
    /// Whole number.
    Integer,
    /// Number with a fraction.
    Float,
    /// Truth value.
    Boolean,
    /// List.
    Array,
    /// Keyed record.
    Object,
    /// File.
    File,
}

/// Kind of a tool.
#[derive(Clone, Debug)]
pub enum ToolType {
    /// Remote API.
    Api,
    /// Database.
    Database,
    /// File system.
    FileSystem,
    /// Web scraping.
    WebScraping,
    /// Any other kind, by name.
    Custom(String),
}

/// Way a tool authenticates.
#[derive(Clone, Debug)]
pub enum AuthType {
    /// API key.
    ApiKey,
    /// Bearer token.
    Bearer,
    /// User name and password.
    Basic,
    /// OAuth.
    OAuth,
    /// No authentication.
    NoAuth,
}

/// Credentials of a tool.
#[derive(Clone, Debug)]
pub struct AuthConfig {
    /// Way the tool authenticates.
    pub auth_type: AuthType,
    /// Named credential values.
    pub credentials: HashMap<String, String>,
}

/// State of a document collection.
#[derive(Clone, Debug)]
pub enum CollectionStatus {
    /// Ready to be searched.
    Active,
    /// Switched off.
    Inactive,
    /// Being indexed.
    Processing,
    /// Broken.
    Error,
}

/// Layout of a vector index.
#[derive(Clone, Debug)]
pub enum IndexType {
    /// Hierarchical navigable small world graph.
    Hnsw,
    /// Inverted file.
    Ivf,
    /// Exhaustive search.
    Flat,
}

/// Measure by which vectors are compared.
#[derive(Clone, Debug)]
pub enum SimilarityMetric {
    /// Cosine of the angle.
    Cosine,
    /// Euclidean distance.
    Euclidean,
    /// Inner product.
    InnerProduct,
}

/// Settings of the vector index of a collection.
#[derive(Clone, Debug)]
pub struct VectorIndexConfig {
    /// Identifier of the index.
    pub id: String,
    /// Model that computes the embeddings.
    pub embedding_model: String,
    /// Number of dimensions of a vector.
    pub dimensions: u32,
    /// Layout of the index.
    pub index_type: IndexType,
    /// Measure by which vectors are compared.
    pub similarity_metric: SimilarityMetric,
}

/// A collection of documents that agents can search.
#[derive(Clone, Debug)]
pub struct DocumentCollection {
    /// Identifier of the collection.
    pub id: String,
    /// Name of the collection.
    pub name: String,
    /// What the collection is about.
    pub description: Option<String>,
    /// State of the collection.
    pub status: CollectionStatus,
    /// When the collection was created.
    pub created_at: Option<SystemTime>,
    /// When the collection was last changed.
    pub updated_at: Option<SystemTime>,
    /// Number of documents in the collection.
    pub document_count: u32,
    /// Settings of its vector index.
    pub vector_index: Option<VectorIndexConfig>,
}

/// Format of a document.
#[derive(Clone, Debug, PartialEq)]
pub enum DocumentType {
    /// Plain text.
    Text,
    /// PDF.
    Pdf,
    /// Markdown.
    Markdown,
    /// HTML.
    Html,
    /// JSON.
    Json,
    /// Comma-separated values.
    Csv,
}

/// One message of a conversation with an agent.
#[derive(Clone, Debug)]
pub struct Message {
    /// Who speaks: `user`, `assistant` or `system`.
    pub role: String,
    /// What is said.
    pub content: String,
}

/// A conversation thread as the service lists it.
#[derive(Clone, Debug)]
pub struct ThreadInfo {
    /// Identifier of the thread.
    pub thread_id: String,
    /// Agent that the thread belongs to.
    pub agent_id: Option<String>,
    /// Title or summary of the thread.
    pub title: Option<String>,
    /// When the thread was created.
    pub created_at: Option<String>,
    /// When the thread was last changed.
    pub updated_at: Option<String>,
    /// Number of messages in the thread.
    pub message_count: Option<u32>,
}

/// Who speaks in a chat session.
#[derive(Clone, Debug)]
pub enum MessageRole {
    /// The system prompt.
    System,
    /// The user.
    User,
    /// The assistant.
    Assistant,
    /// A tool.
    Tool,
}

/// Request to create a document collection.
#[derive(Clone, Debug)]
pub struct CreateCollectionRequest {
    /// Name of the collection.
    pub name: String,
    /// What the collection is about.
    pub description: Option<String>,
    /// Settings of its vector index.
    pub vector_index: Option<VectorIndexConfig>,
}

} // verus!
