//! Messages as the messaging client hands them over, and their flattening
//! into the one record that the host sees.

use vstd::prelude::*;

use crate::account::opt_text;
use crate::bridge::{
    clone_strings, convert_reaction, reaction_code, reaction_emoji, ConversationData, Reaction,
    WrappedAttachment, WrappedMessage,
};
use crate::text::views;

verus! {

/// Where an attachment's data is.
#[derive(Debug)]
pub enum AttachmentType {
    /// In the message itself.
    Inline(Vec<u8>),
    /// In the content store, with this size in bytes.
    MMCS { size: usize },
}

/// An attachment of a message.
#[derive(Debug)]
pub struct Attachment {
    pub a_type: AttachmentType,
    pub mime: String,
    pub name: String,
    pub uti_type: String,
}

/// One part of a message.
#[derive(Debug)]
pub enum MessagePart {
    /// Text.
    Text(String),
    /// An attachment.
    Attachment(Attachment),
    /// A part of another kind, which the host does not see.
    Other,
}

/// The parts of a message, with the text that they make up.
#[derive(Debug)]
pub struct MessageParts {
    /// The text of the parts, as the messaging client joins it.
    pub raw_text: String,
    /// The parts, in order.
    pub parts: Vec<MessagePart>,
}

/// The image or the icon of a link preview: where its data is among the
/// attachments of the preview.
#[derive(Debug)]
pub struct RichLinkImageAttachmentSubstitute {
    pub mime_type: String,
    pub rich_link_image_attachment_substitute_index: u64,
}

/// What a link preview shows.
#[derive(Debug)]
pub struct LPLinkMetadata {
    pub original_url: String,
    pub url: Option<String>,
    pub title: Option<String>,
    pub summary: Option<String>,
    pub image: Option<RichLinkImageAttachmentSubstitute>,
    pub icon: Option<RichLinkImageAttachmentSubstitute>,
}

/// A link preview with the data of its pictures.
#[derive(Debug)]
pub struct LinkMeta {
    pub data: LPLinkMetadata,
    pub attachments: Vec<Vec<u8>>,
}

/// The service that carries a message.
#[derive(Clone, Copy, Debug, PartialEq, Eq, Structural)]
pub enum MessageType {
    IMessage,
    SMS,
}

/// An ordinary message.
#[derive(Debug)]
pub struct NormalMessage {
    pub parts: MessageParts,
    pub subject: Option<String>,
    pub reply_guid: Option<String>,
    pub reply_part: Option<String>,
    pub service: MessageType,
    pub link_meta: Option<LinkMeta>,
}

/// What a reaction message carries.
#[derive(Debug)]
pub enum ReactMessageType {
    /// A reaction that is set or removed.
    React { reaction: Reaction, enable: bool },
    /// A reaction of an extension, such as a sticker.
    Extension,
}

/// A reaction to a part of a message.
#[derive(Debug)]
pub struct ReactMessage {
    pub to_uuid: String,
    pub to_part: Option<u64>,
    pub reaction: ReactMessageType,
}

/// An edit of a part of a message.
#[derive(Debug)]
pub struct EditMessage {
    pub tuuid: String,
    pub edit_part: u64,
    pub new_parts: MessageParts,
}

/// The withdrawal of a part of a message.
#[derive(Debug)]
pub struct UnsendMessage {
    pub tuuid: String,
    pub edit_part: u64,
}

/// A failure to deliver a message.
#[derive(Debug)]
pub struct ErrorMessage {
    pub for_uuid: String,
    pub status: u64,
    pub status_str: String,
}

/// What a message is.
#[derive(Debug)]
pub enum Message {
    Message(NormalMessage),
    React(ReactMessage),
    Edit(EditMessage),
    Unsend(UnsendMessage),
    RenameMessage { new_name: String },
    ChangeParticipants { new_participants: Vec<String> },
    Typing(bool),
    Read,
    Delivered,
    Error(ErrorMessage),
    PeerCacheInvalidate,
    /// A message of another kind, of which the host sees only the envelope.
    Other,
}

/// A message with its envelope.
#[derive(Debug)]
pub struct MessageInst {
    pub id: String,
    pub sender: Option<String>,
    pub conversation: Option<ConversationData>,
    pub sent_timestamp: u64,
    pub send_delivered: bool,
    pub message: Message,
}

/// The mathematical model of a `WrappedAttachment`.
pub ghost struct AttachmentView {
    pub mime_type: Seq<char>,
    pub filename: Seq<char>,
    pub uti_type: Seq<char>,
    pub size: u64,
    pub is_inline: bool,
    pub inline_data: Option<Seq<u8>>,
}

impl View for WrappedAttachment {
    type V = AttachmentView;

    open spec fn view(&self) -> AttachmentView {
        AttachmentView {
            mime_type: self.mime_type@,
            filename: self.filename@,
            uti_type: self.uti_type@,
            size: self.size,
            is_inline: self.is_inline,
            inline_data: crate::account::opt_bytes(self.inline_data),
        }
    }
}

/// The mathematical model of a `WrappedMessage`.
pub ghost struct MessageView {
    pub uuid: Seq<char>,
    pub sender: Option<Seq<char>>,
    pub text: Option<Seq<char>>,
    pub subject: Option<Seq<char>>,
    pub participants: Seq<Seq<char>>,
    pub group_name: Option<Seq<char>>,
    pub timestamp_ms: u64,
    pub is_sms: bool,
    pub is_tapback: bool,
    pub tapback_type: Option<u32>,
    pub tapback_target_uuid: Option<Seq<char>>,
    pub tapback_target_part: Option<u64>,
    pub tapback_emoji: Option<Seq<char>>,
    pub tapback_remove: bool,
    pub is_edit: bool,
    pub edit_target_uuid: Option<Seq<char>>,
    pub edit_part: Option<u64>,
    pub edit_new_text: Option<Seq<char>>,
    pub is_unsend: bool,
    pub unsend_target_uuid: Option<Seq<char>>,
    pub unsend_edit_part: Option<u64>,
    pub is_rename: bool,
    pub new_chat_name: Option<Seq<char>>,
    pub is_participant_change: bool,
    pub new_participants: Seq<Seq<char>>,
    pub attachments: Seq<AttachmentView>,
    pub reply_guid: Option<Seq<char>>,
    pub reply_part: Option<Seq<char>>,
    pub is_typing: bool,
    pub is_read_receipt: bool,
    pub is_delivered: bool,
    pub is_error: bool,
    pub error_for_uuid: Option<Seq<char>>,
    pub error_status: Option<u64>,
    pub error_status_str: Option<Seq<char>>,
    pub is_peer_cache_invalidate: bool,
    pub send_delivered: bool,
}

impl View for WrappedMessage {
    type V = MessageView;

    open spec fn view(&self) -> MessageView {
        MessageView {
            uuid: self.uuid@,
            sender: opt_text(self.sender),
            text: opt_text(self.text),
            subject: opt_text(self.subject),
            participants: views(self.participants@),
            group_name: opt_text(self.group_name),
            timestamp_ms: self.timestamp_ms,
            is_sms: self.is_sms,
            is_tapback: self.is_tapback,
            tapback_type: self.tapback_type,
            tapback_target_uuid: opt_text(self.tapback_target_uuid),
            tapback_target_part: self.tapback_target_part,
            tapback_emoji: opt_text(self.tapback_emoji),
            tapback_remove: self.tapback_remove,
            is_edit: self.is_edit,
            edit_target_uuid: opt_text(self.edit_target_uuid),
            edit_part: self.edit_part,
            edit_new_text: opt_text(self.edit_new_text),
            is_unsend: self.is_unsend,
            unsend_target_uuid: opt_text(self.unsend_target_uuid),
            unsend_edit_part: self.unsend_edit_part,
            is_rename: self.is_rename,
            new_chat_name: opt_text(self.new_chat_name),
            is_participant_change: self.is_participant_change,
            new_participants: views(self.new_participants@),
            attachments: Seq::new(self.attachments@.len(), |i: int| self.attachments@[i]@),
            reply_guid: opt_text(self.reply_guid),
            reply_part: opt_text(self.reply_part),
            is_typing: self.is_typing,
            is_read_receipt: self.is_read_receipt,
            is_delivered: self.is_delivered,
            is_error: self.is_error,
            error_for_uuid: opt_text(self.error_for_uuid),
            error_status: self.error_status,
            error_status_str: opt_text(self.error_status_str),
            is_peer_cache_invalidate: self.is_peer_cache_invalidate,
            send_delivered: self.send_delivered,
        }
    }
}

/// An attachment as the host sees it: inline data comes along with its
/// length as the size, data in the content store is named by its size only.
pub open spec fn flat_attachment(att: Attachment) -> AttachmentView {
    match att.a_type {
        AttachmentType::Inline(data) => AttachmentView {
            mime_type: att.mime@,
            filename: att.name@,
            uti_type: att.uti_type@,
            size: data@.len() as u64,
            is_inline: true,
            inline_data: Some(data@),
        },
        AttachmentType::MMCS { size } => AttachmentView {
            mime_type: att.mime@,
            filename: att.name@,
            uti_type: att.uti_type@,
            size: size as u64,
            is_inline: false,
            inline_data: None,
        },
    }
}

/// The attachments among the parts of a message, in order.
pub open spec fn part_attachments(parts: Seq<MessagePart>) -> Seq<AttachmentView>
    decreases parts.len(),
{
    if parts.len() == 0 {
        Seq::empty()
    } else {
        let earlier = part_attachments(parts.drop_last());
        match parts.last() {
            MessagePart::Attachment(att) => earlier.push(flat_attachment(att)),
            _ => earlier,
        }
    }
}

/// The picture that a link preview shows: its image, or its icon where it
/// has no image.
pub open spec fn link_picture(data: LPLinkMetadata) -> Option<RichLinkImageAttachmentSubstitute> {
    match data.image {
        Some(image) => Some(image),
        None => data.icon,
    }
}

/// The text of an optional field, empty where there is none.
pub open spec fn text_or_empty(field: Option<String>) -> Seq<char> {
    match field {
        Some(text) => text@,
        None => Seq::empty(),
    }
}

/// The description of a link preview for the host: the address as given,
/// the address, the title, the summary and the type of the picture, each
/// separated from the next by the character with code 1.
pub open spec fn link_description(data: LPLinkMetadata) -> Seq<char> {
    data.original_url@ + "\x01"@ + text_or_empty(data.url) + "\x01"@ + text_or_empty(data.title)
        + "\x01"@ + text_or_empty(data.summary) + "\x01"@ + (match link_picture(data) {
        Some(picture) => picture.mime_type@,
        None => Seq::empty(),
    })
}

/// The data of the picture of a link preview, if the preview has a picture
/// and the picture's index lies among the preview's attachments.
pub open spec fn link_picture_data(link: LinkMeta) -> Option<Seq<u8>> {
    match link_picture(link.data) {
        Some(picture) => if picture.rich_link_image_attachment_substitute_index
            < link.attachments@.len() {
            Some(link.attachments@[picture.rich_link_image_attachment_substitute_index as int]@)
        } else {
            None
        },
        None => None,
    }
}

/// The attachments that stand for a link preview: its description under
/// the type "x-richlink/meta", and after it the data of its picture under
/// the type "x-richlink/image" where there is such data.
pub open spec fn link_attachments(link: Option<LinkMeta>) -> Seq<AttachmentView> {
    match link {
        None => Seq::empty(),
        Some(link) => {
            let description = AttachmentView {
                mime_type: "x-richlink/meta"@,
                filename: Seq::empty(),
                uti_type: Seq::empty(),
                size: 0,
                is_inline: true,
                inline_data: Some(vstd::utf8::encode_utf8(link_description(link.data))),
            };
            match link_picture_data(link) {
                Some(data) => seq![
                    description,
                    (AttachmentView {
                        mime_type: "x-richlink/image"@,
                        filename: Seq::empty(),
                        uti_type: Seq::empty(),
                        size: data.len() as u64,
                        is_inline: true,
                        inline_data: Some(data),
                    }),
                ],
                None => seq![description],
            }
        },
    }
}

/// The envelope of a message as the host sees it, with nothing said yet of
/// what the message is.
pub open spec fn flat_envelope(msg: MessageInst) -> MessageView {
    MessageView {
        uuid: msg.id@,
        sender: opt_text(msg.sender),
        text: None,
        subject: None,
        participants: match msg.conversation {
            Some(conversation) => views(conversation.participants@),
            None => Seq::empty(),
        },
        group_name: match msg.conversation {
            Some(conversation) => opt_text(conversation.cv_name),
            None => None,
        },
        timestamp_ms: msg.sent_timestamp,
        is_sms: false,
        is_tapback: false,
        tapback_type: None,
        tapback_target_uuid: None,
        tapback_target_part: None,
        tapback_emoji: None,
        tapback_remove: false,
        is_edit: false,
        edit_target_uuid: None,
        edit_part: None,
        edit_new_text: None,
        is_unsend: false,
        unsend_target_uuid: None,
        unsend_edit_part: None,
        is_rename: false,
        new_chat_name: None,
        is_participant_change: false,
        new_participants: Seq::empty(),
        attachments: Seq::empty(),
        reply_guid: None,
        reply_part: None,
        is_typing: false,
        is_read_receipt: false,
        is_delivered: false,
        is_error: false,
        error_for_uuid: None,
        error_status: None,
        error_status_str: None,
        is_peer_cache_invalidate: false,
        send_delivered: msg.send_delivered,
    }
}

/// A message as the host sees it: the envelope, and the fields of the one
/// kind that the message is.
pub open spec fn flattened(msg: MessageInst) -> MessageView {
    let envelope = flat_envelope(msg);
    match msg.message {
        Message::Message(normal) => MessageView {
            text: Some(normal.parts.raw_text@),
            subject: opt_text(normal.subject),
            reply_guid: opt_text(normal.reply_guid),
            reply_part: opt_text(normal.reply_part),
            is_sms: normal.service == MessageType::SMS,
            attachments: part_attachments(normal.parts.parts@) + link_attachments(
                normal.link_meta,
            ),
            ..envelope
        },
        Message::React(react) => match react.reaction {
            ReactMessageType::React { reaction, enable } => MessageView {
                is_tapback: true,
                tapback_target_uuid: Some(react.to_uuid@),
                tapback_target_part: react.to_part,
                tapback_type: Some(reaction_code(reaction)),
                tapback_emoji: reaction_emoji(reaction),
                tapback_remove: !enable,
                ..envelope
            },
            ReactMessageType::Extension => MessageView {
                is_tapback: true,
                tapback_target_uuid: Some(react.to_uuid@),
                tapback_target_part: react.to_part,
                tapback_type: Some(7u32),
                ..envelope
            },
        },
        Message::Edit(edit) => MessageView {
            is_edit: true,
            edit_target_uuid: Some(edit.tuuid@),
            edit_part: Some(edit.edit_part),
            edit_new_text: Some(edit.new_parts.raw_text@),
            ..envelope
        },
        Message::Unsend(unsend) => MessageView {
            is_unsend: true,
            unsend_target_uuid: Some(unsend.tuuid@),
            unsend_edit_part: Some(unsend.edit_part),
            ..envelope
        },
        Message::RenameMessage { new_name } => MessageView {
            is_rename: true,
            new_chat_name: Some(new_name@),
            ..envelope
        },
        Message::ChangeParticipants { new_participants } => MessageView {
            is_participant_change: true,
            new_participants: views(new_participants@),
            ..envelope
        },
        Message::Typing(typing) => MessageView { is_typing: typing, ..envelope },
        Message::Read => MessageView { is_read_receipt: true, ..envelope },
        Message::Delivered => MessageView { is_delivered: true, ..envelope },
        Message::Error(error) => MessageView {
            is_error: true,
            error_for_uuid: Some(error.for_uuid@),
            error_status: Some(error.status),
            error_status_str: Some(error.status_str@),
            ..envelope
        },
        Message::PeerCacheInvalidate => MessageView { is_peer_cache_invalidate: true, ..envelope },
        Message::Other => envelope,
    }
}

fn wrap_attachment(att: &Attachment) -> (res: WrappedAttachment)
    ensures
        res@ == flat_attachment(*att),
{
    match &att.a_type {
        AttachmentType::Inline(data) => WrappedAttachment {
            mime_type: att.mime.clone(),
            filename: att.name.clone(),
            uti_type: att.uti_type.clone(),
            size: data.len() as u64,
            is_inline: true,
            inline_data: Some(data.clone()),
        },
        AttachmentType::MMCS { size } => WrappedAttachment {
            mime_type: att.mime.clone(),
            filename: att.name.clone(),
            uti_type: att.uti_type.clone(),
            size: *size as u64,
            is_inline: false,
            inline_data: None,
        },
    }
}

/// The views of a list of attachments.
pub open spec fn attachment_views(list: Seq<WrappedAttachment>) -> Seq<AttachmentView> {
    Seq::new(list.len(), |i: int| list[i]@)
}

fn wrap_parts(parts: &Vec<MessagePart>) -> (res: Vec<WrappedAttachment>)
    ensures
        attachment_views(res@) == part_attachments(parts@),
{
    let mut out: Vec<WrappedAttachment> = Vec::new();
    let n = parts.len();
    let mut i: usize = 0;
    proof {
        assert(parts@.take(0) =~= Seq::<MessagePart>::empty());
        assert(attachment_views(out@) =~= part_attachments(parts@.take(0)));
    }
    while i < n
        invariant
            n == parts@.len(),
            i <= n,
            attachment_views(out@) == part_attachments(parts@.take(i as int)),
        decreases n - i,
    {
        proof {
            let next = parts@.take(i as int + 1);
            assert(next.drop_last() =~= parts@.take(i as int));
            assert(next.last() == parts@[i as int]);
        }
        match &parts[i] {
            MessagePart::Attachment(att) => {
                let ghost before = attachment_views(out@);
                out.push(wrap_attachment(att));
                proof {
                    assert(attachment_views(out@) =~= before.push(flat_attachment(*att)));
                }
            },
            _ => {},
        }
        i += 1;
    }
    proof {
        assert(parts@.take(n as int) =~= parts@);
    }
    out
}

fn or_empty(field: &Option<String>) -> (res: String)
    ensures
        res@ == text_or_empty(*field),
{
    match field {
        Some(text) => text.clone(),
        None => String::new(),
    }
}

fn describe_link(data: &LPLinkMetadata) -> (res: String)
    ensures
        res@ == link_description(*data),
{
    let picture = match &data.image {
        Some(image) => image.mime_type.clone(),
        None => match &data.icon {
            Some(icon) => icon.mime_type.clone(),
            None => String::new(),
        },
    };
    let mut out = data.original_url.clone();
    out.append("\x01");
    out.append(or_empty(&data.url).as_str());
    out.append("\x01");
    out.append(or_empty(&data.title).as_str());
    out.append("\x01");
    out.append(or_empty(&data.summary).as_str());
    out.append("\x01");
    out.append(picture.as_str());
    out
}

fn picture_data(link: &LinkMeta) -> (res: Option<Vec<u8>>)
    ensures
        crate::account::opt_bytes(res) == link_picture_data(*link),
{
    let index = match &link.data.image {
        Some(image) => image.rich_link_image_attachment_substitute_index,
        None => match &link.data.icon {
            Some(icon) => icon.rich_link_image_attachment_substitute_index,
            None => {
                return None;
            },
        },
    };
    let n = link.attachments.len();
    if index < n as u64 {
        Some(link.attachments[index as usize].clone())
    } else {
        None
    }
}

fn wrap_link(link: &Option<LinkMeta>, out: &mut Vec<WrappedAttachment>)
    ensures
        attachment_views(final(out)@) == attachment_views(old(out)@) + link_attachments(*link),
{
    match link {
        None => {
            assert(attachment_views(out@) =~= attachment_views(old(out)@) + Seq::<
                AttachmentView,
            >::empty());
        },
        Some(link) => {
            let description = describe_link(&link.data);
            let ghost start = attachment_views(out@);
            let bytes = description.as_str().as_bytes_vec();
            let first = WrappedAttachment {
                mime_type: "x-richlink/meta".to_owned(),
                filename: String::new(),
                uti_type: String::new(),
                size: 0,
                is_inline: true,
                inline_data: Some(bytes),
            };
            let ghost first_view = first@;
            out.push(first);
            proof {
                assert(attachment_views(out@) =~= start.push(first_view));
            }
            match picture_data(link) {
                Some(data) => {
                    let second = WrappedAttachment {
                        mime_type: "x-richlink/image".to_owned(),
                        filename: String::new(),
                        uti_type: String::new(),
                        size: data.len() as u64,
                        is_inline: true,
                        inline_data: Some(data),
                    };
                    let ghost second_view = second@;
                    out.push(second);
                    proof {
                        assert(attachment_views(out@) =~= start + seq![first_view, second_view]);
                    }
                },
                None => {
                    proof {
                        assert(attachment_views(out@) =~= start + seq![first_view]);
                    }
                },
            }
        },
    }
}

fn envelope(msg: &MessageInst) -> (res: WrappedMessage)
    ensures
        res@ == flat_envelope(*msg),
{
    let (participants, group_name) = match &msg.conversation {
        Some(conversation) => (
            clone_strings(&conversation.participants),
            conversation.cv_name.clone(),
        ),
        None => (Vec::new(), None),
    };
    let w = WrappedMessage {
        uuid: msg.id.clone(),
        sender: msg.sender.clone(),
        text: None,
        subject: None,
        participants,
        group_name,
        timestamp_ms: msg.sent_timestamp,
        is_sms: false,
        is_tapback: false,
        tapback_type: None,
        tapback_target_uuid: None,
        tapback_target_part: None,
        tapback_emoji: None,
        tapback_remove: false,
        is_edit: false,
        edit_target_uuid: None,
        edit_part: None,
        edit_new_text: None,
        is_unsend: false,
        unsend_target_uuid: None,
        unsend_edit_part: None,
        is_rename: false,
        new_chat_name: None,
        is_participant_change: false,
        new_participants: Vec::new(),
        attachments: Vec::new(),
        reply_guid: None,
        reply_part: None,
        is_typing: false,
        is_read_receipt: false,
        is_delivered: false,
        is_error: false,
        error_for_uuid: None,
        error_status: None,
        error_status_str: None,
        is_peer_cache_invalidate: false,
        send_delivered: msg.send_delivered,
    };
    proof {
        assert(w@.participants =~= flat_envelope(*msg).participants);
        assert(w@.new_participants =~= flat_envelope(*msg).new_participants);
        assert(w@.attachments =~= flat_envelope(*msg).attachments);
    }
    w
}

/// Flattens a message for the host: the envelope, and the fields of the one
/// kind that the message is. An ordinary message brings its attachments,
/// and after them those that stand for its link preview.
pub fn message_inst_to_wrapped(msg: &MessageInst) -> (res: WrappedMessage)
    ensures
        res@ == flattened(*msg),
{
    let mut w = envelope(msg);
    match &msg.message {
        Message::Message(normal) => {
            w.text = Some(normal.parts.raw_text.clone());
            w.subject = normal.subject.clone();
            w.reply_guid = normal.reply_guid.clone();
            w.reply_part = normal.reply_part.clone();
            w.is_sms = matches!(normal.service, MessageType::SMS);
            let mut attachments = wrap_parts(&normal.parts.parts);
            wrap_link(&normal.link_meta, &mut attachments);
            w.attachments = attachments;
            proof {
                assert(w@.attachments =~= flattened(*msg).attachments);
            }
        },
        Message::React(react) => {
            w.is_tapback = true;
            w.tapback_target_uuid = Some(react.to_uuid.clone());
            w.tapback_target_part = react.to_part;
            match &react.reaction {
                ReactMessageType::React { reaction, enable } => {
                    let (kind, emoji, remove) = convert_reaction(reaction, *enable);
                    w.tapback_type = kind;
                    w.tapback_emoji = emoji;
                    w.tapback_remove = remove;
                },
                ReactMessageType::Extension => {
                    w.tapback_type = Some(7);
                },
            }
        },
        Message::Edit(edit) => {
            w.is_edit = true;
            w.edit_target_uuid = Some(edit.tuuid.clone());
            w.edit_part = Some(edit.edit_part);
            w.edit_new_text = Some(edit.new_parts.raw_text.clone());
        },
        Message::Unsend(unsend) => {
            w.is_unsend = true;
            w.unsend_target_uuid = Some(unsend.tuuid.clone());
            w.unsend_edit_part = Some(unsend.edit_part);
        },
        Message::RenameMessage { new_name } => {
            w.is_rename = true;
            w.new_chat_name = Some(new_name.clone());
        },
        Message::ChangeParticipants { new_participants } => {
            w.is_participant_change = true;
            w.new_participants = clone_strings(new_participants);
        },
        Message::Typing(typing) => {
            w.is_typing = *typing;
        },
        Message::Read => {
            w.is_read_receipt = true;
        },
        Message::Delivered => {
            w.is_delivered = true;
        },
        Message::Error(error) => {
            w.is_error = true;
            w.error_for_uuid = Some(error.for_uuid.clone());
            w.error_status = Some(error.status);
            w.error_status_str = Some(error.status_str.clone());
        },
        Message::PeerCacheInvalidate => {
            w.is_peer_cache_invalidate = true;
        },
        Message::Other => {},
    }
    w
}

} // verus!
