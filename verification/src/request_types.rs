use vstd::prelude::*;
use vstd::string::StringExecFns;
use crate::chats::{Channel, Conversation, spec_opt_str};
use crate::decryptor::Message;
use crate::errors::Errors;
use crate::records::{Company, User, UserInfo};
use crate::state::State;
use crate::strutil::{bool_to_string, join, spec_bool_str, spec_decimal, spec_join, usize_to_string};

verus! {

// The form-encoded request bodies the API takes, each built from the
// session's state. Every builder demands an authenticated session: without
// a client key it fails with `NotAuthenticated`, exactly as stated.

pub struct UserInfoRequest {
    pub client_key: String,
    pub device_id: String,
    pub withkey: String,
}

impl UserInfoRequest {
    pub fn new(state: &State, with_key: bool) -> (r: Result<Self, Errors>)
        ensures
            match state.client_key {
                None => r matches Err(e) && e is NotAuthenticated,
                Some(ck) => r matches Ok(v) && v.client_key@ == ck@ && v.device_id@
                    == state.device_id@ && v.withkey@ == spec_bool_str(with_key),
            },
    {
        Ok(
            Self {
                client_key: state.expect_client_key()?,
                device_id: state.get_device_id(),
                withkey: bool_to_string(with_key),
            },
        )
    }
}

pub struct UserInfoResponse {
    pub user: UserInfo,
}

pub struct CompanyRequest {
    pub client_key: String,
    pub device_id: String,
    pub no_cache: bool,
}

impl CompanyRequest {
    pub fn new(state: &State) -> (r: Result<Self, Errors>)
        ensures
            match state.client_key {
                None => r matches Err(e) && e is NotAuthenticated,
                Some(ck) => r matches Ok(v) && v.client_key@ == ck@ && v.device_id@
                    == state.device_id@ && v.no_cache == true,
            },
    {
        Ok(
            Self {
                client_key: state.expect_client_key()?,
                device_id: state.get_device_id(),
                no_cache: true,
            },
        )
    }
}

pub struct CompanyResponse {
    pub companies: Vec<Company>,
}

pub struct PrivateKeyRequest {
    pub client_key: String,
    pub device_id: String,
    pub format: String,
    pub key_type: String,
}

impl PrivateKeyRequest {
    pub fn new(state: &State, format: &str, key_type: &str) -> (r: Result<Self, Errors>)
        ensures
            match state.client_key {
                None => r matches Err(e) && e is NotAuthenticated,
                Some(ck) => r matches Ok(v) && v.client_key@ == ck@ && v.device_id@
                    == state.device_id@ && v.format@ == format@ && v.key_type@ == key_type@,
            },
    {
        Ok(
            Self {
                client_key: state.expect_client_key()?,
                device_id: state.get_device_id(),
                format: String::from_str(format),
                key_type: String::from_str(key_type),
            },
        )
    }
}

pub struct OtherUserInfoRequest {
    pub client_key: String,
    pub device_id: String,
    pub user_id: String,
    pub withkey: bool,
}

impl OtherUserInfoRequest {
    pub fn new(state: &State, user_id: String, with_key: bool) -> (r: Result<Self, Errors>)
        ensures
            match state.client_key {
                None => r matches Err(e) && e is NotAuthenticated,
                Some(ck) => r matches Ok(v) && v.client_key@ == ck@ && v.device_id@
                    == state.device_id@ && v.user_id@ == user_id@ && v.withkey == with_key,
            },
    {
        Ok(
            Self {
                client_key: state.expect_client_key()?,
                device_id: state.get_device_id(),
                user_id,
                withkey: with_key,
            },
        )
    }
}

pub struct OtherUserInfoResponse {
    pub user: User,
}

pub struct ConversationsRequest {
    pub client_key: String,
    pub device_id: String,
    pub limit: String,
    pub offset: String,
    pub archive: String,
    pub sorting: String,
}

impl ConversationsRequest {
    pub fn new(state: &State, limit: usize, offset: usize, archive: usize, sorting: Vec<String>) -> (r:
        Result<Self, Errors>)
        ensures
            match state.client_key {
                None => r matches Err(e) && e is NotAuthenticated,
                Some(ck) => r matches Ok(v) && v.client_key@ == ck@ && v.device_id@
                    == state.device_id@ && v.limit@ == spec_decimal(limit as nat) && v.offset@
                    == spec_decimal(offset as nat) && v.archive@ == spec_decimal(archive as nat)
                    && v.sorting@ == "["@ + spec_join(sorting.deep_view(), ","@) + "]"@,
            },
    {
        let joined = join(&sorting, ",");
        proof {
            assert(sorting@.map_values(|p: String| p@) =~= sorting.deep_view());
        }
        Ok(
            Self {
                client_key: state.expect_client_key()?,
                device_id: state.get_device_id(),
                limit: usize_to_string(limit),
                offset: usize_to_string(offset),
                archive: usize_to_string(archive),
                sorting: String::from_str("[").concat(joined.as_str()).concat("]"),
            },
        )
    }
}

pub struct ConversationResponse {
    pub conversations: Vec<Conversation>,
}

pub struct ChannelRequest {
    pub client_key: String,
    pub device_id: String,
    pub company: String,
}

impl ChannelRequest {
    pub fn new(state: &State, company_id: String) -> (r: Result<Self, Errors>)
        ensures
            match state.client_key {
                None => r matches Err(e) && e is NotAuthenticated,
                Some(ck) => r matches Ok(v) && v.client_key@ == ck@ && v.device_id@
                    == state.device_id@ && v.company@ == company_id@,
            },
    {
        Ok(
            Self {
                client_key: state.expect_client_key()?,
                device_id: state.get_device_id(),
                company: company_id,
            },
        )
    }
}

pub struct ChannelsResponse {
    pub channels: Vec<Channel>,
}

pub struct MessageRequest {
    pub client_key: String,
    pub device_id: String,
    pub channel_id: String,
    pub conversation_id: String,
    pub source: String,
    pub limit: String,
    pub offset: String,
}

impl MessageRequest {
    pub fn new(state: &State, id: String, source: String, limit: usize, offset: usize) -> (r:
        Result<Self, Errors>)
        ensures
            match state.client_key {
                None => r matches Err(e) && e is NotAuthenticated,
                Some(ck) => r matches Ok(v) && v.client_key@ == ck@ && v.device_id@
                    == state.device_id@ && v.channel_id@ == id@ && v.conversation_id@ == id@
                    && v.source@ == source@ && v.limit@ == spec_decimal(limit as nat) && v.offset@
                    == spec_decimal(offset as nat),
            },
    {
        Ok(
            Self {
                client_key: state.expect_client_key()?,
                device_id: state.get_device_id(),
                channel_id: id.clone(),
                conversation_id: id,
                source,
                limit: usize_to_string(limit),
                offset: usize_to_string(offset),
            },
        )
    }
}

pub struct MessageResponse {
    pub messages: Vec<Message>,
}

pub struct FileDownloadQuery {
    pub id: String,
}

/// The placeholder list the send endpoint takes for URLs: one `null` per
/// entry.
pub open spec fn spec_nulls(n: nat) -> Seq<char>
    decreases n,
{
    if n == 0 {
        Seq::empty()
    } else if n == 1 {
        "null"@
    } else {
        "null"@ + ","@ + spec_nulls((n - 1) as nat)
    }
}

fn nulls(n: usize) -> (r: String)
    ensures
        r@ == spec_nulls(n as nat),
    decreases n,
{
    if n == 0 {
        String::new()
    } else if n == 1 {
        String::from_str("null")
    } else {
        String::from_str("null").concat(",").concat(nulls(n - 1).as_str())
    }
}

pub struct SendMessageRequest {
    pub client_key: String,
    pub device_id: String,
    pub target: String,
    pub conversation_id: String,
    pub channel_id: String,
    pub text: String,
    pub files: String,
    pub url: String,
    pub encrypted: String,
    pub iv: Option<String>,
    pub verification: String,
    pub message_type: String,
    pub is_forwarded: String,
    pub metainfo: Option<String>,
}

impl SendMessageRequest {
    pub fn new(
        state: &State,
        target: String,
        chat_id: String,
        text: String,
        files: Vec<String>,
        url: Vec<Option<String>>,
        encrypted: bool,
        iv: Option<String>,
        verification: String,
        message_type: String,
        is_forwarded: bool,
        metainfo: Option<String>,
    ) -> (r: Result<SendMessageRequest, Errors>)
        ensures
            match state.client_key {
                None => r matches Err(e) && e is NotAuthenticated,
                Some(ck) => r matches Ok(v) && v.client_key@ == ck@ && v.device_id@
                    == state.device_id@ && v.target@ == target@ && v.conversation_id@ == chat_id@
                    && v.channel_id@ == chat_id@ && v.text@ == text@ && v.files@ == "["@
                    + spec_join(files.deep_view(), ","@) + "]"@ && v.url@ == "["@ + spec_nulls(
                    url@.len(),
                ) + "]"@ && v.encrypted@ == spec_bool_str(encrypted) && spec_opt_str(v.iv)
                    == spec_opt_str(iv) && v.verification@ == verification@ && v.message_type@
                    == message_type@ && v.is_forwarded@ == spec_bool_str(is_forwarded)
                    && spec_opt_str(v.metainfo) == spec_opt_str(metainfo),
            },
    {
        let joined_files = join(&files, ",");
        proof {
            assert(files@.map_values(|p: String| p@) =~= files.deep_view());
        }
        Ok(
            Self {
                client_key: state.expect_client_key()?,
                device_id: state.get_device_id(),
                target,
                conversation_id: chat_id.clone(),
                channel_id: chat_id,
                text,
                files: String::from_str("[").concat(joined_files.as_str()).concat("]"),
                url: String::from_str("[").concat(nulls(url.len()).as_str()).concat("]"),
                encrypted: bool_to_string(encrypted),
                iv,
                verification,
                message_type,
                is_forwarded: bool_to_string(is_forwarded),
                metainfo,
            },
        )
    }
}

pub struct EmailPasswordLogin {
    pub email: String,
    pub password: String,
    pub device_id: String,
    pub app_name: String,
    pub encrypted: String,
    pub callable: String,
    pub key_transfer_support: String,
}

impl EmailPasswordLogin {
    pub fn new(
        email: String,
        password: String,
        device_id: String,
        app_name: String,
        encrypted: bool,
        callable: bool,
        key_transfer_support: bool,
    ) -> (r: Self)
        ensures
            r.email@ == email@,
            r.password@ == password@,
            r.device_id@ == device_id@,
            r.app_name@ == app_name@,
            r.encrypted@ == spec_bool_str(encrypted),
            r.callable@ == spec_bool_str(callable),
            r.key_transfer_support@ == spec_bool_str(key_transfer_support),
    {
        Self {
            email,
            password,
            device_id,
            app_name,
            encrypted: bool_to_string(encrypted),
            callable: bool_to_string(callable),
            key_transfer_support: bool_to_string(key_transfer_support),
        }
    }
}

pub struct AuthOnlyRequest {
    pub client_key: String,
    pub device_id: String,
}

impl AuthOnlyRequest {
    pub fn new(state: &State) -> (r: Result<Self, Errors>)
        ensures
            match state.client_key {
                None => r matches Err(e) && e is NotAuthenticated,
                Some(ck) => r matches Ok(v) && v.client_key@ == ck@ && v.device_id@
                    == state.device_id@,
            },
    {
        Ok(
            Self { client_key: state.expect_client_key()?, device_id: state.get_device_id() },
        )
    }
}

} // verus!
