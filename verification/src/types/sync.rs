//! The records exchanged with the synchronization server.

use vstd::prelude::*;

verus! {

/// The envelope of every answer of the server.
#[derive(Debug)]
pub struct ApiResponse<T> {
    pub success: bool,
    pub code: i32,
    pub message: String,
    pub data: Option<T>,
}

/// A group of websites.
#[derive(Debug)]
pub struct WebsiteGroupDto {
    pub uuid: String,
    pub name: String,
    pub description: Option<String>,
    pub sort_order: Option<i64>,
    /// 0 or 1.
    pub is_deleted: i64,
    pub rev: i64,
    /// An ISO 8601 time.
    pub updated_at: String,
}

/// A website; `group_uuid` names its group.
#[derive(Debug)]
pub struct WebsitesDto {
    pub uuid: String,
    pub group_uuid: String,
    pub title: String,
    pub url: String,
    pub url_lan: Option<String>,
    pub default_icon: Option<String>,
    pub local_icon_path: Option<String>,
    pub background_color: Option<String>,
    pub description: Option<String>,
    pub sort_order: Option<i64>,
    pub is_deleted: i64,
    pub rev: i64,
    pub updated_at: String,
}

/// A category of assets.
#[derive(Debug)]
pub struct AssetCategoryDto {
    pub uuid: String,
    pub name: String,
    pub is_default: i64,
    pub is_deleted: i64,
    pub rev: i64,
    pub updated_at: String,
}

/// A search engine.
#[derive(Debug)]
pub struct SearchEngineDto {
    pub uuid: String,
    pub name: String,
    pub url_template: String,
    pub default_icon: Option<String>,
    pub local_icon_path: Option<String>,
    pub is_default: i64,
    pub sort_order: Option<i64>,
    pub is_deleted: i64,
    pub rev: i64,
    pub updated_at: String,
}

/// What the client tells the server about itself.
#[derive(Debug)]
pub struct ClientInfoDto {
    pub app_version: String,
    pub username: String,
    pub token: String,
    pub server_address: String,
}

/// The version the server reports.
#[derive(Debug)]
pub struct VersionInfo {
    pub version: String,
    pub commit_hash: String,
    pub build_time: String,
    pub build_env: String,
}

/// The body of the request that opens a synchronization session.
#[derive(Debug)]
pub struct ClientSyncPayload {
    pub user_uuid: String,
    pub last_synced_rev: i64,
}

/// The server's answer to it.
#[derive(Debug)]
pub struct StartSyncResponse {
    pub session_id: String,
    pub suggested_chunk_size: Option<usize>,
}

/// What kind of records a chunk carries.
#[derive(Debug)]
pub enum DataType {
    WebsiteGroups,
    Websites,
    AssetCategories,
    Assets,
    SearchEngines,
    LocalIcons,
}

} // verus!
