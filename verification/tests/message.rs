use icloud_auth::bridge::{ConversationData, Reaction, WrappedAttachment};
use icloud_auth::message::{
    message_inst_to_wrapped, Attachment, AttachmentType, EditMessage, ErrorMessage,
    LPLinkMetadata, LinkMeta, Message, MessageInst, MessagePart, MessageParts, MessageType,
    NormalMessage, ReactMessage, ReactMessageType, RichLinkImageAttachmentSubstitute,
    UnsendMessage,
};

fn message_of(message: Message) -> MessageInst {
    MessageInst {
        id: "UUID-1".to_string(),
        sender: Some("mailto:a@example.com".to_string()),
        conversation: Some(ConversationData {
            participants: vec!["mailto:a@example.com".to_string(), "tel:+15550100".to_string()],
            cv_name: Some("Group".to_string()),
            sender_guid: Some("guid".to_string()),
            after_guid: None,
        }),
        sent_timestamp: 1_700_000_000_123,
        send_delivered: true,
        message,
    }
}

fn message_parts(text: &str, parts: Vec<MessagePart>) -> MessageParts {
    MessageParts { raw_text: text.to_string(), parts }
}

fn message_normal(parts: MessageParts, link_meta: Option<LinkMeta>) -> NormalMessage {
    NormalMessage {
        parts,
        subject: Some("Subject".to_string()),
        reply_guid: Some("REPLY".to_string()),
        reply_part: Some("0:0:5".to_string()),
        service: MessageType::IMessage,
        link_meta,
    }
}

fn message_shown(att: &WrappedAttachment) -> (String, String, String, u64, bool, Option<Vec<u8>>) {
    (
        att.mime_type.clone(),
        att.filename.clone(),
        att.uti_type.clone(),
        att.size,
        att.is_inline,
        att.inline_data.clone(),
    )
}

fn message_flags(w: &icloud_auth::bridge::WrappedMessage) -> Vec<bool> {
    vec![
        w.is_sms, w.is_tapback, w.tapback_remove, w.is_edit, w.is_unsend, w.is_rename,
        w.is_participant_change, w.is_typing, w.is_read_receipt, w.is_delivered, w.is_error,
        w.is_peer_cache_invalidate,
    ]
}

#[test]
fn the_envelope_is_kept_for_every_kind() {
    let w = message_inst_to_wrapped(&message_of(Message::Other));
    assert_eq!(w.uuid, "UUID-1");
    assert_eq!(w.sender.as_deref(), Some("mailto:a@example.com"));
    assert_eq!(w.participants, vec!["mailto:a@example.com", "tel:+15550100"]);
    assert_eq!(w.group_name.as_deref(), Some("Group"));
    assert_eq!(w.timestamp_ms, 1_700_000_000_123);
    assert!(w.send_delivered);
    assert_eq!(message_flags(&w), vec![false; 12]);
    assert!(w.text.is_none() && w.subject.is_none() && w.attachments.is_empty());
    assert!(w.tapback_type.is_none() && w.edit_part.is_none() && w.error_status.is_none());

    let mut bare = message_of(Message::Read);
    bare.conversation = None;
    bare.sender = None;
    bare.send_delivered = false;
    let w = message_inst_to_wrapped(&bare);
    assert!(w.participants.is_empty());
    assert!(w.group_name.is_none() && w.sender.is_none());
    assert!(!w.send_delivered);
    assert!(w.is_read_receipt);
}

#[test]
fn an_ordinary_message_brings_its_text_and_attachments() {
    let parts = message_parts(
        "hello \u{fffc}",
        vec![
            MessagePart::Text("hello ".to_string()),
            MessagePart::Attachment(Attachment {
                a_type: AttachmentType::Inline(vec![1, 2, 3]),
                mime: "image/png".to_string(),
                name: "a.png".to_string(),
                uti_type: "public.png".to_string(),
            }),
            MessagePart::Other,
            MessagePart::Attachment(Attachment {
                a_type: AttachmentType::MMCS { size: 4096 },
                mime: "video/mp4".to_string(),
                name: "b.mp4".to_string(),
                uti_type: "public.mpeg-4".to_string(),
            }),
        ],
    );
    let w = message_inst_to_wrapped(&message_of(Message::Message(message_normal(parts, None))));
    assert_eq!(w.text.as_deref(), Some("hello \u{fffc}"));
    assert_eq!(w.subject.as_deref(), Some("Subject"));
    assert_eq!(w.reply_guid.as_deref(), Some("REPLY"));
    assert_eq!(w.reply_part.as_deref(), Some("0:0:5"));
    assert!(!w.is_sms);
    let shown: Vec<_> = w.attachments.iter().map(message_shown).collect();
    assert_eq!(
        shown,
        vec![
            (
                "image/png".to_string(),
                "a.png".to_string(),
                "public.png".to_string(),
                3,
                true,
                Some(vec![1, 2, 3])
            ),
            (
                "video/mp4".to_string(),
                "b.mp4".to_string(),
                "public.mpeg-4".to_string(),
                4096,
                false,
                None
            ),
        ]
    );

    let mut sms = message_normal(message_parts("hi", vec![]), None);
    sms.service = MessageType::SMS;
    assert!(message_inst_to_wrapped(&message_of(Message::Message(sms))).is_sms);
}

fn message_link(image: Option<u64>, icon: Option<u64>) -> LinkMeta {
    LinkMeta {
        data: LPLinkMetadata {
            original_url: "https://example.com/a".to_string(),
            url: Some("https://example.com/b".to_string()),
            title: Some("Title".to_string()),
            summary: None,
            image: image.map(|i| RichLinkImageAttachmentSubstitute {
                mime_type: "image/jpeg".to_string(),
                rich_link_image_attachment_substitute_index: i,
            }),
            icon: icon.map(|i| RichLinkImageAttachmentSubstitute {
                mime_type: "image/x-icon".to_string(),
                rich_link_image_attachment_substitute_index: i,
            }),
        },
        attachments: vec![vec![10, 11], vec![20, 21, 22]],
    }
}

fn message_link_shown(link: LinkMeta) -> Vec<(String, String, String, u64, bool, Option<Vec<u8>>)> {
    let normal = message_normal(message_parts("", vec![]), Some(link));
    let w = message_inst_to_wrapped(&message_of(Message::Message(normal)));
    w.attachments.iter().map(message_shown).collect()
}

fn message_meta(text: &str) -> (String, String, String, u64, bool, Option<Vec<u8>>) {
    ("x-richlink/meta".to_string(), String::new(), String::new(), 0, true, Some(text.as_bytes().to_vec()))
}

fn message_image(data: Vec<u8>) -> (String, String, String, u64, bool, Option<Vec<u8>>) {
    ("x-richlink/image".to_string(), String::new(), String::new(), data.len() as u64, true, Some(data))
}

#[test]
fn a_link_preview_becomes_one_or_two_attachments() {
    assert_eq!(
        message_link_shown(message_link(Some(1), Some(0))),
        vec![
            message_meta("https://example.com/a\x01https://example.com/b\x01Title\x01\x01image/jpeg"),
            message_image(vec![20, 21, 22]),
        ]
    );
    assert_eq!(
        message_link_shown(message_link(None, Some(0))),
        vec![
            message_meta("https://example.com/a\x01https://example.com/b\x01Title\x01\x01image/x-icon"),
            message_image(vec![10, 11]),
        ]
    );
    assert_eq!(
        message_link_shown(message_link(None, None)),
        vec![message_meta("https://example.com/a\x01https://example.com/b\x01Title\x01\x01")]
    );
    assert_eq!(
        message_link_shown(message_link(Some(2), Some(0))),
        vec![message_meta(
            "https://example.com/a\x01https://example.com/b\x01Title\x01\x01image/jpeg"
        )]
    );
    let mut bare = message_link(None, None);
    bare.data.url = None;
    bare.data.title = None;
    bare.data.summary = Some("Summary".to_string());
    assert_eq!(
        message_link_shown(bare),
        vec![message_meta("https://example.com/a\x01\x01\x01Summary\x01")]
    );
}

#[test]
fn a_link_preview_comes_after_the_attachments_of_the_parts() {
    let parts = message_parts(
        "",
        vec![MessagePart::Attachment(Attachment {
            a_type: AttachmentType::Inline(vec![9]),
            mime: "m".to_string(),
            name: "n".to_string(),
            uti_type: "u".to_string(),
        })],
    );
    let normal = message_normal(parts, Some(message_link(Some(0), None)));
    let w = message_inst_to_wrapped(&message_of(Message::Message(normal)));
    let kinds: Vec<&str> = w.attachments.iter().map(|a| a.mime_type.as_str()).collect();
    assert_eq!(kinds, vec!["m", "x-richlink/meta", "x-richlink/image"]);
}

#[test]
fn a_reaction_becomes_a_tapback() {
    let react = |reaction: ReactMessageType| {
        message_inst_to_wrapped(&message_of(Message::React(ReactMessage {
            to_uuid: "TARGET".to_string(),
            to_part: Some(2),
            reaction,
        })))
    };
    let w = react(ReactMessageType::React { reaction: Reaction::Laugh, enable: true });
    assert!(w.is_tapback);
    assert_eq!(w.tapback_target_uuid.as_deref(), Some("TARGET"));
    assert_eq!(w.tapback_target_part, Some(2));
    assert_eq!(w.tapback_type, Some(3));
    assert_eq!(w.tapback_emoji, None);
    assert!(!w.tapback_remove);
    let w = react(ReactMessageType::React {
        reaction: Reaction::Emoji("🎉".to_string()),
        enable: false,
    });
    assert_eq!(w.tapback_type, Some(6));
    assert_eq!(w.tapback_emoji.as_deref(), Some("🎉"));
    assert!(w.tapback_remove);
    let w = react(ReactMessageType::Extension);
    assert!(w.is_tapback);
    assert_eq!(w.tapback_type, Some(7));
    assert_eq!(w.tapback_emoji, None);
    assert!(!w.tapback_remove);
}

#[test]
fn every_other_kind_sets_its_own_fields() {
    let w = message_inst_to_wrapped(&message_of(Message::Edit(EditMessage {
        tuuid: "T".to_string(),
        edit_part: 1,
        new_parts: message_parts("new text", vec![]),
    })));
    assert!(w.is_edit);
    assert_eq!(w.edit_target_uuid.as_deref(), Some("T"));
    assert_eq!(w.edit_part, Some(1));
    assert_eq!(w.edit_new_text.as_deref(), Some("new text"));
    assert!(w.text.is_none());

    let w = message_inst_to_wrapped(&message_of(Message::Unsend(UnsendMessage {
        tuuid: "T".to_string(),
        edit_part: 4,
    })));
    assert!(w.is_unsend);
    assert_eq!(w.unsend_target_uuid.as_deref(), Some("T"));
    assert_eq!(w.unsend_edit_part, Some(4));

    let w = message_inst_to_wrapped(&message_of(Message::RenameMessage {
        new_name: "Renamed".to_string(),
    }));
    assert!(w.is_rename);
    assert_eq!(w.new_chat_name.as_deref(), Some("Renamed"));

    let w = message_inst_to_wrapped(&message_of(Message::ChangeParticipants {
        new_participants: vec!["tel:+1".to_string()],
    }));
    assert!(w.is_participant_change);
    assert_eq!(w.new_participants, vec!["tel:+1"]);

    assert!(message_inst_to_wrapped(&message_of(Message::Typing(true))).is_typing);
    assert!(!message_inst_to_wrapped(&message_of(Message::Typing(false))).is_typing);
    assert!(message_inst_to_wrapped(&message_of(Message::Delivered)).is_delivered);
    assert!(
        message_inst_to_wrapped(&message_of(Message::PeerCacheInvalidate))
            .is_peer_cache_invalidate
    );

    let w = message_inst_to_wrapped(&message_of(Message::Error(ErrorMessage {
        for_uuid: "F".to_string(),
        status: 5032,
        status_str: "failed".to_string(),
    })));
    assert!(w.is_error);
    assert_eq!(w.error_for_uuid.as_deref(), Some("F"));
    assert_eq!(w.error_status, Some(5032));
    assert_eq!(w.error_status_str.as_deref(), Some("failed"));
    assert_eq!(
        message_flags(&w),
        vec![false, false, false, false, false, false, false, false, false, false, true, false]
    );
}
