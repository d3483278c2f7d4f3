//! What a OneBot 11 connection does with each OneBot 12 action, message
//! segment and OneBot 11 response.
use vstd::prelude::*;

use crate::app::compat::text_eq;
use crate::interface::upload::{UploadError, UploadKind, UrlUpload};
use crate::interface::{Error, RespArgs};
use crate::model::{ActionDetail, RespStatus, RetCode};
use crate::outside::option_value;

verus! {

/// What converting an action gives: an OneBot 11 action to send, or a
/// response given right away.
#[derive(Debug, Clone)]
pub enum ActionConverted {
    Send(ActionDetail),
    Respond(RespArgs),
}

/// The response for a file that cannot be found.
pub fn mk_missing_file() -> (r: ActionConverted)
    ensures
        r matches ActionConverted::Respond(a) && a.status == RespStatus::Failed
            && a.retcode == RetCode::FilesystemError(33404) && a.data == option_value(None)
            && a.message@ == "cannot find specified file"@,
{
    ActionConverted::Respond(RespArgs::failed(RetCode::FilesystemError(33404), String::from_str("cannot find specified file")))
}

/// The last known status of the OneBot 11 bot.
#[derive(Debug, Clone, Copy, PartialEq, Eq, Structural)]
pub struct BotStatus {
    pub online: bool,
    pub good: bool,
}

impl BotStatus {
    /// A bot is taken to be online and good until told otherwise.
    pub fn new() -> (s: BotStatus)
        ensures
            s == (BotStatus { online: true, good: true }),
    {
        BotStatus { online: true, good: true }
    }

    /// Takes a reported status; tells whether it differs from the known one,
    /// in which case a status update event is due.
    pub fn update(&mut self, online: bool, good: bool) -> (changed: bool)
        ensures
            changed == (old(self).online != online || old(self).good != good),
            *final(self) == (BotStatus { online, good }),
    {
        let changed = self.online != online || self.good != good;
        self.online = online;
        self.good = good;
        changed
    }
}

/// How a OneBot 12 action is served.
#[derive(Debug, Clone, Copy, PartialEq, Eq, Structural)]
pub enum ActionPlan {
    /// `send_message`: convert the message segment by segment and send.
    ConvertMessage,
    /// `get_status`: answer with the known bot status.
    ReportStatus,
    /// Convert to the OneBot 11 action of the same meaning and send.
    ConvertDirect,
    /// `get_latest_events`: refused, events come by HTTP POST.
    RejectPolling,
    /// `get_supported_actions`: answer with the supported actions.
    ReportSupportedActions,
    /// `get_file`: answer from the file storage.
    GetFile,
    /// `get_file_fragmented`: answer from the file storage.
    GetFileFragmented,
    /// `upload_file`: store the file.
    UploadFile,
    /// `upload_file_fragmented`: store a fragment.
    UploadFileFragmented,
    /// A standard action without a OneBot 11 counterpart: refused.
    Unsupported,
    /// Any other action: passed on as an extension action.
    ForwardOther,
}

/// The plan for an action, by its name.
pub open spec fn spec_action_plan(name: Seq<char>) -> ActionPlan {
    if name == "send_message"@ {
        ActionPlan::ConvertMessage
    } else if name == "get_status"@ {
        ActionPlan::ReportStatus
    } else if name == "delete_message"@ || name == "set_group_name"@ || name == "get_version"@
        || name == "get_self_info"@ || name == "get_user_info"@ || name == "get_friend_list"@
        || name == "get_group_info"@ || name == "get_group_list"@ || name == "get_group_member_info"@
        || name == "get_group_member_list"@ || name == "leave_group"@ {
        ActionPlan::ConvertDirect
    } else if name == "get_latest_events"@ {
        ActionPlan::RejectPolling
    } else if name == "get_supported_actions"@ {
        ActionPlan::ReportSupportedActions
    } else if name == "get_file"@ {
        ActionPlan::GetFile
    } else if name == "get_file_fragmented"@ {
        ActionPlan::GetFileFragmented
    } else if name == "upload_file"@ {
        ActionPlan::UploadFile
    } else if name == "upload_file_fragmented"@ {
        ActionPlan::UploadFileFragmented
    } else if name == "get_guild_info"@ || name == "get_guild_list"@ || name == "set_guild_name"@
        || name == "get_guild_member_info"@ || name == "get_guild_member_list"@ || name == "leave_guild"@
        || name == "get_channel_info"@ || name == "get_channel_list"@ || name == "set_channel_name"@
        || name == "get_channel_member_info"@ || name == "get_channel_member_list"@ || name == "leave_channel"@ {
        ActionPlan::Unsupported
    } else {
        ActionPlan::ForwardOther
    }
}

/// Decides how an action is served, by its name.
pub fn plan_action(name: &str) -> (p: ActionPlan)
    ensures
        p == spec_action_plan(name@),
{
    if text_eq(name, "send_message") {
        ActionPlan::ConvertMessage
    } else if text_eq(name, "get_status") {
        ActionPlan::ReportStatus
    } else if text_eq(name, "delete_message") || text_eq(name, "set_group_name") || text_eq(name, "get_version")
        || text_eq(name, "get_self_info") || text_eq(name, "get_user_info") || text_eq(name, "get_friend_list")
        || text_eq(name, "get_group_info") || text_eq(name, "get_group_list") || text_eq(name, "get_group_member_info")
        || text_eq(name, "get_group_member_list") || text_eq(name, "leave_group") {
        ActionPlan::ConvertDirect
    } else if text_eq(name, "get_latest_events") {
        ActionPlan::RejectPolling
    } else if text_eq(name, "get_supported_actions") {
        ActionPlan::ReportSupportedActions
    } else if text_eq(name, "get_file") {
        ActionPlan::GetFile
    } else if text_eq(name, "get_file_fragmented") {
        ActionPlan::GetFileFragmented
    } else if text_eq(name, "upload_file") {
        ActionPlan::UploadFile
    } else if text_eq(name, "upload_file_fragmented") {
        ActionPlan::UploadFileFragmented
    } else if text_eq(name, "get_guild_info") || text_eq(name, "get_guild_list") || text_eq(name, "set_guild_name")
        || text_eq(name, "get_guild_member_info") || text_eq(name, "get_guild_member_list") || text_eq(name, "leave_guild")
        || text_eq(name, "get_channel_info") || text_eq(name, "get_channel_list") || text_eq(name, "set_channel_name")
        || text_eq(name, "get_channel_member_info") || text_eq(name, "get_channel_member_list") || text_eq(name, "leave_channel") {
        ActionPlan::Unsupported
    } else {
        ActionPlan::ForwardOther
    }
}

/// The error with which a refused action is answered; none for the others.
pub fn plan_refusal(plan: ActionPlan, name: &str) -> (r: Option<Error>)
    ensures
        plan == ActionPlan::RejectPolling ==> (r matches Some(Error::NotSupported(m)) && m@ == "please poll events with HTTP POST"@),
        plan == ActionPlan::Unsupported ==> (r matches Some(Error::NotSupported(m)) && m@ == "unsupported action: "@ + name@),
        plan != ActionPlan::RejectPolling && plan != ActionPlan::Unsupported ==> r is None,
{
    match plan {
        ActionPlan::RejectPolling => Some(Error::NotSupported(String::from_str("please poll events with HTTP POST"))),
        ActionPlan::Unsupported => {
            let mut m = String::from_str("unsupported action: ");
            m.append(name);
            Some(Error::NotSupported(m))
        },
        _ => None,
    }
}

/// How the data of a OneBot 11 response is turned into OneBot 12 data.
#[derive(Debug, Clone, Copy, PartialEq, Eq, Structural)]
pub enum RespConversion {
    /// A sent message's id.
    MessageResp,
    /// One user's information.
    UserInfo,
    /// A list of users' information.
    UserInfoList,
    /// One group's information.
    GroupInfo,
    /// A list of groups' information.
    GroupInfoList,
    /// Passed on as it is.
    Passthrough,
}

/// The conversion for the response to a OneBot 11 action, by its name.
pub open spec fn spec_resp_conversion(name: Seq<char>) -> RespConversion {
    if name == "send_group_msg"@ || name == "send_private_msg"@ || name == "send_msg"@ {
        RespConversion::MessageResp
    } else if name == "get_login_info"@ || name == "get_stranger_info"@ || name == "get_group_member_info"@ {
        RespConversion::UserInfo
    } else if name == "get_friend_list"@ || name == "get_group_member_list"@ {
        RespConversion::UserInfoList
    } else if name == "get_group_info"@ {
        RespConversion::GroupInfo
    } else if name == "get_group_list"@ {
        RespConversion::GroupInfoList
    } else {
        RespConversion::Passthrough
    }
}

/// Decides how a OneBot 11 response is converted, by its action's name.
pub fn resp_conversion(name: &str) -> (c: RespConversion)
    ensures
        c == spec_resp_conversion(name@),
{
    if text_eq(name, "send_group_msg") || text_eq(name, "send_private_msg") || text_eq(name, "send_msg") {
        RespConversion::MessageResp
    } else if text_eq(name, "get_login_info") || text_eq(name, "get_stranger_info") || text_eq(name, "get_group_member_info") {
        RespConversion::UserInfo
    } else if text_eq(name, "get_friend_list") || text_eq(name, "get_group_member_list") {
        RespConversion::UserInfoList
    } else if text_eq(name, "get_group_info") {
        RespConversion::GroupInfo
    } else if text_eq(name, "get_group_list") {
        RespConversion::GroupInfoList
    } else {
        RespConversion::Passthrough
    }
}

/// The kind of file a `get_file` action asks for.
#[derive(Debug, Clone)]
pub enum GetFileType {
    Url,
    Path,
    Data,
    Other(String),
}

/// The error for a `get_file` kind that is not known.
pub fn unknown_get_file_type(kind: &str) -> (e: Error)
    ensures
        e matches Error::Other(m) && m@ == "unknown `get_file` type: "@ + kind@,
{
    let mut m = String::from_str("unknown `get_file` type: ");
    m.append(kind);
    Error::Other(m)
}

/// A file as an `upload_file` action describes it.
#[derive(Debug, Clone)]
pub enum RequestUpload {
    Url { headers: Option<Vec<(String, String)>>, url: String },
    Path { path: String },
    Data { data: Vec<u8> },
    Other { kind: String },
}

/// What an `upload_file` action asks the storage to store.
pub fn upload_kind_from_request(req: RequestUpload) -> (r: Result<UploadKind, UploadError>)
    ensures
        match req {
            RequestUpload::Url { headers, url } => r matches Ok(UploadKind::Url(u)) && u.url == url && u.headers == headers,
            RequestUpload::Path { path } => r matches Ok(UploadKind::Path(p)) && p == path,
            RequestUpload::Data { data } => r matches Ok(UploadKind::Data(d)) && d == data,
            RequestUpload::Other { kind } => r matches Err(UploadError::Unsupported(m)) && m@ == "upload type `"@ + kind@ + "`"@,
        },
{
    match req {
        RequestUpload::Url { headers, url } => Ok(UploadKind::Url(UrlUpload { url, headers })),
        RequestUpload::Path { path } => Ok(UploadKind::Path(path)),
        RequestUpload::Data { data } => Ok(UploadKind::Data(data)),
        RequestUpload::Other { kind } => {
            let mut m = String::from_str("upload type `");
            m.append(kind.as_str());
            m.append("`");
            Err(UploadError::Unsupported(m))
        },
    }
}

/// What a OneBot 11 file segment is stored as: the file at its URL. A
/// segment without a URL would have to be sent, which is not supported.
pub fn trace_upload(url: Option<String>) -> (r: Result<UploadKind, UploadError>)
    ensures
        match url {
            Some(u) => r matches Ok(UploadKind::Url(up)) && up.url == u && up.headers is None,
            None => r matches Err(UploadError::Unsupported(m)) && m@ == "send file"@,
        },
{
    match url {
        Some(u) => Ok(UploadKind::Url(UrlUpload { url: u, headers: None })),
        None => Err(UploadError::Unsupported(String::from_str("send file"))),
    }
}

/// How a message segment is converted.
#[derive(Debug, Clone, Copy, PartialEq, Eq, Structural)]
pub enum SegPlan {
    /// Converted on its own.
    Direct,
    /// A OneBot 12 file segment: its file id is resolved to a URL or path.
    ResolveFile,
    /// A OneBot 11 file segment: its file is stored and referred to by id.
    TraceFile,
    /// A OneBot 11 reply: the replied message is fetched for its sender.
    FetchReply,
    /// Parsed as an extension segment.
    ParseExtension,
    /// Refused.
    Refuse,
}

/// The plan for a OneBot 12 segment, by its type.
pub open spec fn spec_ob12_seg_plan(kind: Seq<char>) -> SegPlan {
    if kind == "text"@ || kind == "mention"@ || kind == "mention_all"@ || kind == "location"@ || kind == "reply"@ {
        SegPlan::Direct
    } else if kind == "image"@ || kind == "voice"@ || kind == "audio"@ || kind == "video"@ {
        SegPlan::ResolveFile
    } else if kind == "file"@ {
        SegPlan::Refuse
    } else {
        SegPlan::ParseExtension
    }
}

/// Decides how a OneBot 12 segment becomes a OneBot 11 one.
pub fn ob12_seg_plan(kind: &str) -> (p: SegPlan)
    ensures
        p == spec_ob12_seg_plan(kind@),
{
    if text_eq(kind, "text") || text_eq(kind, "mention") || text_eq(kind, "mention_all") || text_eq(kind, "location")
        || text_eq(kind, "reply") {
        SegPlan::Direct
    } else if text_eq(kind, "image") || text_eq(kind, "voice") || text_eq(kind, "audio") || text_eq(kind, "video") {
        SegPlan::ResolveFile
    } else if text_eq(kind, "file") {
        SegPlan::Refuse
    } else {
        SegPlan::ParseExtension
    }
}

/// The error for a segment that cannot be converted.
pub fn file_seg_refused() -> (e: Error)
    ensures
        e matches Error::NotSupported(m) && m@ == "`file` message seg conversion not supported"@,
{
    Error::NotSupported(String::from_str("`file` message seg conversion not supported"))
}

/// The plan for a OneBot 11 segment, by its type; `None` for a type OneBot 11
/// does not have.
pub open spec fn spec_ob11_seg_plan(kind: Seq<char>) -> Option<SegPlan> {
    if kind == "image"@ || kind == "record"@ || kind == "video"@ {
        Some(SegPlan::TraceFile)
    } else if kind == "reply"@ {
        Some(SegPlan::FetchReply)
    } else if kind == "text"@ || kind == "face"@ || kind == "at"@ || kind == "rps"@ || kind == "dice"@
        || kind == "shake"@ || kind == "poke"@ || kind == "anonymous"@ || kind == "share"@ || kind == "contact"@
        || kind == "location"@ || kind == "music"@ || kind == "forward"@ || kind == "node"@ || kind == "xml"@
        || kind == "json"@ {
        Some(SegPlan::Direct)
    } else {
        None
    }
}

/// Decides how a OneBot 11 segment becomes a OneBot 12 one.
pub fn ob11_seg_plan(kind: &str) -> (p: Option<SegPlan>)
    ensures
        p == spec_ob11_seg_plan(kind@),
{
    if text_eq(kind, "image") || text_eq(kind, "record") || text_eq(kind, "video") {
        Some(SegPlan::TraceFile)
    } else if text_eq(kind, "reply") {
        Some(SegPlan::FetchReply)
    } else if text_eq(kind, "text") || text_eq(kind, "face") || text_eq(kind, "at") || text_eq(kind, "rps")
        || text_eq(kind, "dice") || text_eq(kind, "shake") || text_eq(kind, "poke") || text_eq(kind, "anonymous")
        || text_eq(kind, "share") || text_eq(kind, "contact") || text_eq(kind, "location") || text_eq(kind, "music")
        || text_eq(kind, "forward") || text_eq(kind, "node") || text_eq(kind, "xml") || text_eq(kind, "json") {
        Some(SegPlan::Direct)
    } else {
        None
    }
}

/// The standard OneBot 12 actions that have a OneBot 11 counterpart of the
/// same meaning.
pub open spec fn has_ob11_counterpart(name: Seq<char>) -> bool {
    ||| name == "delete_message"@
    ||| name == "set_group_name"@
    ||| name == "get_version"@
    ||| name == "get_self_info"@
    ||| name == "get_user_info"@
    ||| name == "get_friend_list"@
    ||| name == "get_group_info"@
    ||| name == "get_group_list"@
    ||| name == "get_group_member_info"@
    ||| name == "get_group_member_list"@
    ||| name == "leave_group"@
}

/// Every standard OneBot 12 action with a OneBot 11 counterpart is converted
/// to that counterpart and sent.
pub proof fn lemma_counterparts_converted(name: Seq<char>)
    requires
        has_ob11_counterpart(name),
    ensures
        spec_action_plan(name) == ActionPlan::ConvertDirect,
{
    reveal_strlit("delete_message");
    reveal_strlit("set_group_name");
    reveal_strlit("get_version");
    reveal_strlit("get_self_info");
    reveal_strlit("get_user_info");
    reveal_strlit("get_friend_list");
    reveal_strlit("get_group_info");
    reveal_strlit("get_group_list");
    reveal_strlit("get_group_member_info");
    reveal_strlit("get_group_member_list");
    reveal_strlit("leave_group");
    reveal_strlit("send_message");
    reveal_strlit("get_status");
    assert("send_message"@.len() == 12 && "get_status"@.len() == 10);
    assert(name.len() != 12 && name.len() != 10);
}

/// The actions the OneBot 12 standard defines.
pub open spec fn is_ob12_standard_action(name: Seq<char>) -> bool {
    ||| name == "get_latest_events"@
    ||| name == "get_supported_actions"@
    ||| name == "get_status"@
    ||| name == "get_version"@
    ||| name == "send_message"@
    ||| name == "delete_message"@
    ||| name == "get_self_info"@
    ||| name == "get_user_info"@
    ||| name == "get_friend_list"@
    ||| name == "get_group_info"@
    ||| name == "get_group_list"@
    ||| name == "get_group_member_info"@
    ||| name == "get_group_member_list"@
    ||| name == "set_group_name"@
    ||| name == "leave_group"@
    ||| name == "get_guild_info"@
    ||| name == "get_guild_list"@
    ||| name == "set_guild_name"@
    ||| name == "get_guild_member_info"@
    ||| name == "get_guild_member_list"@
    ||| name == "leave_guild"@
    ||| name == "get_channel_info"@
    ||| name == "get_channel_list"@
    ||| name == "set_channel_name"@
    ||| name == "get_channel_member_info"@
    ||| name == "get_channel_member_list"@
    ||| name == "leave_channel"@
    ||| name == "upload_file"@
    ||| name == "upload_file_fragmented"@
    ||| name == "get_file"@
    ||| name == "get_file_fragmented"@
}

/// A standard OneBot 12 action is never passed on as an extension action:
/// only names the standard does not define are forwarded as they are.
pub proof fn lemma_only_extensions_forwarded(name: Seq<char>)
    requires
        is_ob12_standard_action(name),
    ensures
        spec_action_plan(name) != ActionPlan::ForwardOther,
{
}

/// The segment types OneBot 11 defines.
pub open spec fn is_ob11_segment_type(kind: Seq<char>) -> bool {
    ||| kind == "text"@
    ||| kind == "face"@
    ||| kind == "image"@
    ||| kind == "record"@
    ||| kind == "video"@
    ||| kind == "at"@
    ||| kind == "rps"@
    ||| kind == "dice"@
    ||| kind == "shake"@
    ||| kind == "poke"@
    ||| kind == "anonymous"@
    ||| kind == "share"@
    ||| kind == "contact"@
    ||| kind == "location"@
    ||| kind == "music"@
    ||| kind == "reply"@
    ||| kind == "forward"@
    ||| kind == "node"@
    ||| kind == "xml"@
    ||| kind == "json"@
}

/// Every segment type OneBot 11 defines can be converted: files (image,
/// record, video) are stored and referred to by id, a reply fetches the
/// replied message, and every other type, `at` among them, is converted on
/// its own.
pub proof fn lemma_ob11_segments_planned(kind: Seq<char>)
    requires
        is_ob11_segment_type(kind),
    ensures
        spec_ob11_seg_plan(kind) is Some,
        (kind == "image"@ || kind == "record"@ || kind == "video"@) ==> spec_ob11_seg_plan(kind) == Some(SegPlan::TraceFile),
        kind == "reply"@ ==> spec_ob11_seg_plan(kind) == Some(SegPlan::FetchReply),
        !(kind == "image"@ || kind == "record"@ || kind == "video"@ || kind == "reply"@) ==> spec_ob11_seg_plan(kind) == Some(SegPlan::Direct),
{
    reveal_strlit("reply");
    reveal_strlit("image");
    reveal_strlit("record");
    reveal_strlit("video");
    if kind == "reply"@ {
        assert(kind.len() == 5 && "record"@.len() == 6);
        assert(kind != "image"@) by {
            if kind == "image"@ {
                assert(kind[0] == "image"@[0]);
            }
        }
        assert(kind != "video"@) by {
            if kind == "video"@ {
                assert(kind[0] == "video"@[0]);
            }
        }
    }
}

/// The OneBot 11 actions that return one user's information.
pub open spec fn returns_one_user(name: Seq<char>) -> bool {
    name == "get_login_info"@ || name == "get_stranger_info"@ || name == "get_group_member_info"@
}

/// The OneBot 11 actions whose response data differs from OneBot 12's: sent
/// messages, users and groups.
pub open spec fn response_needs_conversion(name: Seq<char>) -> bool {
    ||| name == "send_group_msg"@
    ||| name == "send_private_msg"@
    ||| name == "send_msg"@
    ||| returns_one_user(name)
    ||| name == "get_friend_list"@
    ||| name == "get_group_member_list"@
    ||| name == "get_group_info"@
    ||| name == "get_group_list"@
}

/// The response of an action that returns one user is converted to OneBot 12
/// user information, and no response whose data differs between the two
/// standards is passed on unconverted.
pub proof fn lemma_resp_conversions(name: Seq<char>)
    ensures
        returns_one_user(name) ==> spec_resp_conversion(name) == RespConversion::UserInfo,
        response_needs_conversion(name) ==> spec_resp_conversion(name) != RespConversion::Passthrough,
{
    reveal_strlit("get_login_info");
    reveal_strlit("get_stranger_info");
    reveal_strlit("get_group_member_info");
    reveal_strlit("send_group_msg");
    reveal_strlit("send_private_msg");
    reveal_strlit("send_msg");
    assert("get_login_info"@[0] != "send_group_msg"@[0]);
    assert("get_login_info"@.len() == 14 && "send_group_msg"@.len() == 14);
    assert("get_stranger_info"@.len() == 17 && "get_group_member_info"@.len() == 21);
    assert("send_private_msg"@.len() == 16 && "send_msg"@.len() == 8);
    if name == "get_login_info"@ {
        assert(name != "send_group_msg"@) by {
            if name == "send_group_msg"@ {
                assert(name[0] == "send_group_msg"@[0]);
            }
        }
    }
}

/// Two texts that differ at some position are different.
proof fn lemma_texts_differ(a: Seq<char>, b: Seq<char>, i: int)
    requires
        0 <= i < a.len(),
        0 <= i < b.len(),
        a[i] != b[i],
    ensures
        a != b,
{
}

/// How each standard OneBot 12 action is served: `send_message` converts the
/// message, `get_status` reports the known status, polling for events is
/// refused (events come by HTTP POST), the supported actions are reported,
/// the file actions go to the file storage, and the guild and channel actions,
/// which OneBot 11 lacks, are refused.
pub proof fn lemma_standard_action_plans(name: Seq<char>)
    ensures
        name == "send_message"@ ==> spec_action_plan(name) == ActionPlan::ConvertMessage,
        name == "get_status"@ ==> spec_action_plan(name) == ActionPlan::ReportStatus,
        name == "get_latest_events"@ ==> spec_action_plan(name) == ActionPlan::RejectPolling,
        name == "get_supported_actions"@ ==> spec_action_plan(name) == ActionPlan::ReportSupportedActions,
        name == "get_file"@ ==> spec_action_plan(name) == ActionPlan::GetFile,
        name == "get_file_fragmented"@ ==> spec_action_plan(name) == ActionPlan::GetFileFragmented,
        name == "upload_file"@ ==> spec_action_plan(name) == ActionPlan::UploadFile,
        name == "upload_file_fragmented"@ ==> spec_action_plan(name) == ActionPlan::UploadFileFragmented,
        is_ob12_standard_action(name) && !has_ob11_counterpart(name) && !(name == "send_message"@
            || name == "get_status"@ || name == "get_latest_events"@ || name == "get_supported_actions"@
            || name == "get_file"@ || name == "get_file_fragmented"@ || name == "upload_file"@
            || name == "upload_file_fragmented"@) ==> spec_action_plan(name) == ActionPlan::Unsupported,
{
    reveal_strlit("send_message");
    assert("send_message"@.len() == 12);
    reveal_strlit("get_status");
    assert("get_status"@.len() == 10);
    reveal_strlit("delete_message");
    assert("delete_message"@.len() == 14);
    reveal_strlit("set_group_name");
    assert("set_group_name"@.len() == 14);
    reveal_strlit("get_version");
    assert("get_version"@.len() == 11);
    reveal_strlit("get_self_info");
    assert("get_self_info"@.len() == 13);
    reveal_strlit("get_user_info");
    assert("get_user_info"@.len() == 13);
    reveal_strlit("get_friend_list");
    assert("get_friend_list"@.len() == 15);
    reveal_strlit("get_group_info");
    assert("get_group_info"@.len() == 14);
    reveal_strlit("get_group_list");
    assert("get_group_list"@.len() == 14);
    reveal_strlit("get_group_member_info");
    assert("get_group_member_info"@.len() == 21);
    reveal_strlit("get_group_member_list");
    assert("get_group_member_list"@.len() == 21);
    reveal_strlit("leave_group");
    assert("leave_group"@.len() == 11);
    reveal_strlit("get_latest_events");
    assert("get_latest_events"@.len() == 17);
    reveal_strlit("get_supported_actions");
    assert("get_supported_actions"@.len() == 21);
    reveal_strlit("get_file");
    assert("get_file"@.len() == 8);
    reveal_strlit("get_file_fragmented");
    assert("get_file_fragmented"@.len() == 19);
    reveal_strlit("upload_file");
    assert("upload_file"@.len() == 11);
    reveal_strlit("upload_file_fragmented");
    assert("upload_file_fragmented"@.len() == 22);
    reveal_strlit("get_guild_info");
    assert("get_guild_info"@.len() == 14);
    reveal_strlit("get_guild_list");
    assert("get_guild_list"@.len() == 14);
    reveal_strlit("set_guild_name");
    assert("set_guild_name"@.len() == 14);
    reveal_strlit("get_guild_member_info");
    assert("get_guild_member_info"@.len() == 21);
    reveal_strlit("get_guild_member_list");
    assert("get_guild_member_list"@.len() == 21);
    reveal_strlit("leave_guild");
    assert("leave_guild"@.len() == 11);
    reveal_strlit("get_channel_info");
    assert("get_channel_info"@.len() == 16);
    reveal_strlit("get_channel_list");
    assert("get_channel_list"@.len() == 16);
    reveal_strlit("set_channel_name");
    assert("set_channel_name"@.len() == 16);
    reveal_strlit("get_channel_member_info");
    assert("get_channel_member_info"@.len() == 23);
    reveal_strlit("get_channel_member_list");
    assert("get_channel_member_list"@.len() == 23);
    reveal_strlit("leave_channel");
    assert("leave_channel"@.len() == 13);
    lemma_texts_differ("get_supported_actions"@, "get_group_member_info"@, 4);
    lemma_texts_differ("get_supported_actions"@, "get_group_member_list"@, 4);
    lemma_texts_differ("upload_file"@, "get_version"@, 0);
    lemma_texts_differ("upload_file"@, "leave_group"@, 0);
    lemma_texts_differ("get_guild_info"@, "delete_message"@, 0);
    lemma_texts_differ("get_guild_info"@, "set_group_name"@, 0);
    lemma_texts_differ("get_guild_info"@, "get_group_info"@, 5);
    lemma_texts_differ("get_guild_info"@, "get_group_list"@, 5);
    lemma_texts_differ("get_guild_list"@, "delete_message"@, 0);
    lemma_texts_differ("get_guild_list"@, "set_group_name"@, 0);
    lemma_texts_differ("get_guild_list"@, "get_group_info"@, 5);
    lemma_texts_differ("get_guild_list"@, "get_group_list"@, 5);
    lemma_texts_differ("set_guild_name"@, "delete_message"@, 0);
    lemma_texts_differ("set_guild_name"@, "set_group_name"@, 5);
    lemma_texts_differ("set_guild_name"@, "get_group_info"@, 0);
    lemma_texts_differ("set_guild_name"@, "get_group_list"@, 0);
    lemma_texts_differ("get_guild_member_info"@, "get_group_member_info"@, 5);
    lemma_texts_differ("get_guild_member_info"@, "get_group_member_list"@, 5);
    lemma_texts_differ("get_guild_member_info"@, "get_supported_actions"@, 4);
    lemma_texts_differ("get_guild_member_list"@, "get_group_member_info"@, 5);
    lemma_texts_differ("get_guild_member_list"@, "get_group_member_list"@, 5);
    lemma_texts_differ("get_guild_member_list"@, "get_supported_actions"@, 4);
    lemma_texts_differ("leave_guild"@, "get_version"@, 0);
    lemma_texts_differ("leave_guild"@, "leave_group"@, 7);
    lemma_texts_differ("leave_guild"@, "upload_file"@, 0);
    lemma_texts_differ("leave_channel"@, "get_self_info"@, 0);
    lemma_texts_differ("leave_channel"@, "get_user_info"@, 0);
}

/// How each OneBot 12 segment type is converted: text, mentions, location
/// and reply on their own; image, voice, audio and video by resolving their
/// file id; a file segment is refused; any other type is read as an
/// extension segment.
pub proof fn lemma_ob12_segment_plans(kind: Seq<char>)
    ensures
        (kind == "text"@ || kind == "mention"@ || kind == "mention_all"@ || kind == "location"@ || kind == "reply"@)
            ==> spec_ob12_seg_plan(kind) == SegPlan::Direct,
        (kind == "image"@ || kind == "voice"@ || kind == "audio"@ || kind == "video"@)
            ==> spec_ob12_seg_plan(kind) == SegPlan::ResolveFile,
        kind == "file"@ ==> spec_ob12_seg_plan(kind) == SegPlan::Refuse,
{
    reveal_strlit("text");
    assert("text"@.len() == 4);
    reveal_strlit("mention");
    assert("mention"@.len() == 7);
    reveal_strlit("mention_all");
    assert("mention_all"@.len() == 11);
    reveal_strlit("location");
    assert("location"@.len() == 8);
    reveal_strlit("reply");
    assert("reply"@.len() == 5);
    reveal_strlit("image");
    assert("image"@.len() == 5);
    reveal_strlit("voice");
    assert("voice"@.len() == 5);
    reveal_strlit("audio");
    assert("audio"@.len() == 5);
    reveal_strlit("video");
    assert("video"@.len() == 5);
    reveal_strlit("file");
    assert("file"@.len() == 4);
    lemma_texts_differ("image"@, "reply"@, 0);
    lemma_texts_differ("voice"@, "reply"@, 0);
    lemma_texts_differ("audio"@, "reply"@, 0);
    lemma_texts_differ("video"@, "reply"@, 0);
    lemma_texts_differ("file"@, "text"@, 0);
}

/// How the response of each OneBot 11 action whose data differs from
/// OneBot 12's is converted: a sent message's id, lists of users, one group,
/// and a list of groups.
pub proof fn lemma_resp_conversion_kinds(name: Seq<char>)
    ensures
        (name == "send_group_msg"@ || name == "send_private_msg"@ || name == "send_msg"@)
            ==> spec_resp_conversion(name) == RespConversion::MessageResp,
        (name == "get_friend_list"@ || name == "get_group_member_list"@)
            ==> spec_resp_conversion(name) == RespConversion::UserInfoList,
        name == "get_group_info"@ ==> spec_resp_conversion(name) == RespConversion::GroupInfo,
        name == "get_group_list"@ ==> spec_resp_conversion(name) == RespConversion::GroupInfoList,
{
    reveal_strlit("send_group_msg");
    assert("send_group_msg"@.len() == 14);
    reveal_strlit("send_private_msg");
    assert("send_private_msg"@.len() == 16);
    reveal_strlit("send_msg");
    assert("send_msg"@.len() == 8);
    reveal_strlit("get_login_info");
    assert("get_login_info"@.len() == 14);
    reveal_strlit("get_stranger_info");
    assert("get_stranger_info"@.len() == 17);
    reveal_strlit("get_group_member_info");
    assert("get_group_member_info"@.len() == 21);
    reveal_strlit("get_friend_list");
    assert("get_friend_list"@.len() == 15);
    reveal_strlit("get_group_member_list");
    assert("get_group_member_list"@.len() == 21);
    reveal_strlit("get_group_info");
    assert("get_group_info"@.len() == 14);
    reveal_strlit("get_group_list");
    assert("get_group_list"@.len() == 14);
    lemma_texts_differ("get_login_info"@, "send_group_msg"@, 0);
    lemma_texts_differ("get_group_member_list"@, "get_group_member_info"@, 17);
    lemma_texts_differ("get_group_info"@, "send_group_msg"@, 0);
    lemma_texts_differ("get_group_info"@, "get_login_info"@, 4);
    lemma_texts_differ("get_group_list"@, "send_group_msg"@, 0);
    lemma_texts_differ("get_group_list"@, "get_login_info"@, 4);
    lemma_texts_differ("get_group_list"@, "get_group_info"@, 10);
}

} // verus!
