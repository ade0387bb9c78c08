use vstd::prelude::*;

verus! {

// The user, company and key records the API serves. The decryption core
// reads none of them; they are the data the session carries for its
// callers, held here as plain values.

pub struct UserRole {
    pub id: String,
    pub name: String,
    pub global: String,
    pub company_id: String,
    pub time: String,
    pub editable: bool,
}

/// A device-pin delay arrives as either a number or a word.
pub enum PossibleDevicePinDelayOptions {
    Int(u64),
    Text(String),
}

pub struct SettingsMDM {
    pub mdm_access_calendar: bool,
    pub mdm_access_camera: bool,
    pub mdm_access_gps: bool,
    pub mdm_access_microphone: bool,
    pub mdm_access_storage_pictures: bool,
    pub mdm_access_storage_videos: bool,
    pub mdm_ability_copypaste: bool,
    pub mdm_ability_sharing: bool,
    pub mdm_ability_chat_history: bool,
    pub mdm_access_attachments: bool,
}

pub struct PasswordRestrictions {
    pub pw_restrictions: bool,
    pub pw_min_length: u16,
    pub pw_uppercase_lowercase: bool,
    pub pw_specialchars: bool,
    pub pw_numbers: bool,
}

pub struct AccessRestrictions {
    pub blacklisted: Vec<String>,
    pub whitelisted: Vec<String>,
}

pub struct UserSettings {
    pub device_pin: String,
    pub device_pin_delay: PossibleDevicePinDelayOptions,
    pub device_gps: String,
    pub device_encryption: String,
    pub file_export: bool,
    pub file_import: bool,
    pub share_links: bool,
    pub encryption: bool,
    pub open_channels: bool,
    pub autostart: bool,
    pub lockscreen_content: String,
    pub client_count: Option<u64>,
    pub email_validation: String,
    pub may_change_email: bool,
    pub may_change_password: bool,
    pub manual_account_creation: bool,
    pub ttl_content: Option<u64>,
    pub ttl_marked_content: Option<u64>,
    pub ttl_server_content: Option<u64>,
    pub can_delete_messages: bool,
    pub share_unencrypted_files_into_encrypted_chats: bool,
    pub force_device_notifications: bool,
    pub device_login_management: bool,
    pub self_deletion: bool,
    pub link_preview: bool,
    pub password_restrictions: PasswordRestrictions,
    pub mdm: SettingsMDM,
    pub can_block_users: bool,
    pub can_report_users: bool,
    pub can_report_messages: bool,
    pub access_restrictions: AccessRestrictions,
    pub translate_messages: bool,
}

pub struct UserInfo {
    pub id: String,
    pub first_name: String,
    pub last_name: String,
    pub socket_id: String,
    pub online: bool,
    pub status: Option<String>,
    pub user_status: Vec<String>,
    pub active: String,
    pub deleted: Option<String>,
    pub allows_voip_calls: bool,
    pub enter_is_newline: bool,
    pub mx_user_id: String,
    pub federated: bool,
    pub email: String,
    pub email_validated: String,
    pub notifications: bool,
    pub device_notifications: bool,
    pub last_login: String,
    pub language: String,
    pub image: String,
    pub quota: String,
    pub ldap_login: String,
    pub public_key: String,
    pub public_key_signature: String,
    pub public_signing_key: String,
    pub public_key_ca_signature: String,
    pub roles: Vec<UserRole>,
    pub permissions: Vec<String>,
    pub company_features: Vec<String>,
    pub notification_count: u32,
    pub device_id: String,
    pub app_name: String,
    pub push_service: Option<String>,
    pub push_id: Option<String>,
    pub ios_voip_push_id: Option<String>,
    pub settings: UserSettings,
    pub is_bot: bool,
    pub marketplace_modules: Vec<String>,
}

pub struct CompanyUsers {
    pub created: usize,
    pub active: usize,
}

pub struct CompanySettings {
    pub device_pin: String,
    pub device_pin_delay: String,
    pub device_gps: String,
    pub device_encryption: String,
    pub file_export: bool,
    pub file_import: bool,
    pub share_links: bool,
    pub encryption: bool,
    pub open_channels: bool,
    pub autostart: bool,
    pub lockscreen_content: String,
    pub client_count: usize,
    pub email_validation: String,
    pub may_change_email: bool,
    pub may_change_password: bool,
    pub manual_account_creation: bool,
    pub ttl_content: Option<u64>,
    pub ttl_marked_content: Option<u64>,
    pub ttl_server_content: Option<u64>,
    pub can_delete_messages: bool,
    pub share_unencrypted_files_into_encrypted_chats: bool,
    pub force_device_notifications: bool,
    pub device_login_management: bool,
    pub self_deletion: bool,
    pub language: String,
    pub mdm: SettingsMDM,
    pub membership_expired_notify_1: String,
    pub membership_expired_notify_2: String,
    pub membership_expired_notify_3: String,
    pub waiting_period_days: usize,
    pub ldapsync_enabled: bool,
    pub ldapsync_usersync_only: bool,
    pub link_preview: bool,
    pub password_restrictions: PasswordRestrictions,
    pub can_block_users: bool,
    pub can_report_users: bool,
    pub can_report_messages: bool,
    pub access_restrictions: AccessRestrictions,
}

pub struct Company {
    pub id: String,
    pub name: String,
    pub quota: String,
    pub max_users: Option<u64>,
    pub created: String,
    pub deleted: Option<String>,
    pub online_payment: String,
    pub freemium: String,
    pub logo: String,
    pub logo_url: String,
    pub users: CompanyUsers,
    pub features: Vec<String>,
    pub marketplace_modules: Vec<String>,
    pub provider: String,
    pub protected: bool,
    pub roles: Vec<UserRole>,
    pub permissions: Option<Vec<String>>,
    pub settings: CompanySettings,
    pub domains: Vec<String>,
    pub domain: Option<String>,
    pub time_joined: String,
    pub membership_expiry: Option<String>,
    pub deactivated: Option<String>,
    pub maps: Vec<String>,
    pub unread_messages: usize,
}

/// Another member's record, as the user directory serves it.
pub struct User {
    pub id: String,
    pub first_name: String,
    pub last_name: String,
    pub socket_id: String,
    pub online: bool,
    pub status: Option<String>,
    pub user_status: Vec<String>,
    pub active: String,
    pub deleted: Option<String>,
    pub allows_voip_calls: bool,
    pub enter_is_newline: bool,
    pub mx_user_id: String,
    pub federated: bool,
    pub email: Option<String>,
    pub email_validated: String,
    pub notifications: bool,
    pub device_notifications: bool,
    pub last_login: String,
    pub language: String,
    pub image: String,
    pub quota: String,
    pub ldap_login: String,
    pub public_key: String,
    pub public_key_signature: String,
    pub public_signing_key: String,
    pub public_key_ca_signature: String,
    pub company_features: Vec<String>,
}

/// The raw private-key record of the key endpoint.
pub struct PrivateKeyInfo {
    pub user_id: String,
    pub key_type: String,
    pub format: String,
    pub private_key: String,
    pub public_key: String,
    pub public_key_signature: String,
    pub time: String,
    pub deleted: Option<String>,
    pub version: u8,
}

} // verus!
