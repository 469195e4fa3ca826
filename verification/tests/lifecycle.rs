use fumo_bot::config::Config;
use fumo_bot::event::{Event, InfoSubmission, Interaction, NewMessage};
use fumo_bot::handler::{event_handler, Data};
use fumo_bot::promotion::push;
use fumo_bot::reply::Reply;
use fumo_bot::submission::{MoreInfoModal, Status};

const INTAKE: u64 = 500;
const CURATOR: u64 = 688476559019212805;
const OTHER_CURATOR: u64 = 77;
const SUBMITTER: u64 = 4242;
const OUTSIDER: u64 = 9001;
const BANNED: u64 = 13;
const BOT: u64 = 1;

fn test_config() -> Config {
    Config {
        channel_id: INTAKE,
        bot_user_id: BOT,
        curators: vec![CURATOR, OTHER_CURATOR],
        blacklist: vec![BANNED],
        fumo_api_endpoint: String::from("http://localhost:6969"),
    }
}

fn image_message(id: u64, author: u64, urls: &[&str]) -> Event {
    Event::Message(NewMessage {
        id,
        channel_id: INTAKE,
        author_id: author,
        author_is_bot: false,
        attachments: urls.iter().map(|u| String::from(*u)).collect(),
        timestamp: 1_700_000_000,
        content: String::from("look at this one"),
    })
}

fn chat_message(channel: u64, author: u64, is_bot: bool, content: &str) -> Event {
    Event::Message(NewMessage {
        id: 31337,
        channel_id: channel,
        author_id: author,
        author_is_bot: is_bot,
        attachments: Vec::new(),
        timestamp: 1_700_000_001,
        content: String::from(content),
    })
}

fn click(tag: &str, user: u64, message: Option<u64>) -> Event {
    Event::Interaction(Interaction {
        custom_id: String::from(tag),
        user_id: user,
        referenced_message: message,
    })
}

fn form(user: u64, message: Option<u64>, info: Option<MoreInfoModal>) -> Event {
    Event::InfoSubmitted(InfoSubmission { user_id: user, referenced_message: message, form: info })
}

fn only(caption: Option<&str>, credit: Option<&str>) -> MoreInfoModal {
    MoreInfoModal {
        credit: credit.map(String::from),
        source: None,
        caption: caption.map(String::from),
        featured: None,
    }
}

fn queued(data: &mut Data, id: u64) {
    let reply = event_handler(&test_config(), data, image_message(id, SUBMITTER, &["https://x/img.png"]));
    assert!(matches!(reply, Reply::ReviewPrompt { .. }));
}

#[test]
fn submission_is_created_pending() {
    let mut data = Data::new();
    let reply = event_handler(
        &test_config(),
        &mut data,
        image_message(1001, SUBMITTER, &["https://x/img.png"]),
    );
    assert_eq!(reply, Reply::ReviewPrompt { submitter: String::from("4242"), message: 1001 });
    assert_eq!(data.submissions_collection.len(), 1);
    let record = data.submissions_collection.get(&String::from("1001")).unwrap();
    assert_eq!(record.id(), "1001");
    assert_eq!(record.image_url(), "https://x/img.png");
    assert_eq!(record.submitter_id(), "4242");
    assert_eq!(record.submitted_at(), 1_700_000_000);
    assert!(!record.approved());
    assert!(!record.discarded());
    assert!(record.is_pending());
    assert_eq!(record.status(), Status::Pending);
    assert_eq!(*record.caption(), None);
    assert_eq!(*record.source(), None);
    assert_eq!(*record.credit(), None);
    assert_eq!(*record.featured(), None);
    assert_eq!(data.fumos_collection.len(), 0);
}

#[test]
fn end_to_end_submit_approve_promote() {
    let config = test_config();
    let mut data = Data::new();
    event_handler(&config, &mut data, image_message(1001, SUBMITTER, &["https://x/img.png"]));
    let record = data.submissions_collection.get(&String::from("1001")).unwrap();
    assert!(!record.approved());

    let reply = event_handler(&config, &mut data, click("approve", CURATOR, Some(1001)));
    assert_eq!(
        reply,
        Reply::Approved { submitter: String::from("4242"), id: String::from("1001") }
    );
    let record = data.submissions_collection.get(&String::from("1001")).unwrap();
    assert!(record.approved());
    assert!(!record.discarded());
    assert_eq!(record.status(), Status::Approved);

    let reply = push(&config, &mut data, CURATOR);
    assert_eq!(reply, Reply::Pushed { count: 1 });
    assert_eq!(data.submissions_collection.len(), 0);
    assert!(!data.submissions_collection.contains(&String::from("1001")));
    assert_eq!(data.fumos_collection.len(), 1);
    let entry = data.fumos_collection.get(&String::from("1001")).unwrap();
    assert_eq!(entry.image_url(), "https://cdn.nosesisaid.com/1234.png");
    assert_ne!(entry.image_url(), "https://x/img.png");
    assert_eq!(entry.id(), "1001");

    let reply = push(&config, &mut data, CURATOR);
    assert_eq!(reply, Reply::Pushed { count: 0 });
    assert_eq!(reply.text(), Some(String::from("Pushed 0 fumos to production database")));
    assert_eq!(data.fumos_collection.len(), 1);
    assert_eq!(data.submissions_collection.len(), 0);
}

#[test]
fn non_curator_approve_is_denied() {
    let config = test_config();
    let mut data = Data::new();
    queued(&mut data, 1001);
    let reply = event_handler(&config, &mut data, click("approve", OUTSIDER, Some(1001)));
    assert_eq!(reply, Reply::NotCurator);
    assert_eq!(
        reply.text(),
        Some(String::from("You are not a curator, you can't approve fumos"))
    );
    let record = data.submissions_collection.get(&String::from("1001")).unwrap();
    assert!(!record.approved());
    assert!(!record.discarded());
}

#[test]
fn non_curator_reject_and_add_info_are_denied() {
    let config = test_config();
    let mut data = Data::new();
    queued(&mut data, 1001);
    assert_eq!(
        event_handler(&config, &mut data, click("reject", OUTSIDER, Some(1001))),
        Reply::NotCurator
    );
    assert_eq!(
        event_handler(&config, &mut data, click("add-info", OUTSIDER, Some(1001))),
        Reply::NotCurator
    );
    assert_eq!(
        event_handler(
            &config,
            &mut data,
            form(OUTSIDER, Some(1001), Some(only(Some("a caption"), None)))
        ),
        Reply::NotCurator
    );
    let record = data.submissions_collection.get(&String::from("1001")).unwrap();
    assert!(record.is_pending());
    assert_eq!(*record.caption(), None);
}

#[test]
fn approve_twice_second_is_stale() {
    let config = test_config();
    let mut data = Data::new();
    queued(&mut data, 1001);
    let first = event_handler(&config, &mut data, click("approve", CURATOR, Some(1001)));
    assert!(matches!(first, Reply::Approved { .. }));
    let after_first = data.clone();
    let second = event_handler(&config, &mut data, click("approve", CURATOR, Some(1001)));
    assert_eq!(second, Reply::Stale);
    assert_eq!(
        data.submissions_collection.get(&String::from("1001")),
        after_first.submissions_collection.get(&String::from("1001"))
    );
    assert!(data.submissions_collection.get(&String::from("1001")).unwrap().approved());
}

#[test]
fn approve_by_second_curator_after_first_is_stale() {
    let config = test_config();
    let mut data = Data::new();
    queued(&mut data, 1001);
    event_handler(&config, &mut data, click("approve", CURATOR, Some(1001)));
    let second = event_handler(&config, &mut data, click("approve", OTHER_CURATOR, Some(1001)));
    assert_eq!(second, Reply::Stale);
}

#[test]
fn reject_after_approve_is_stale() {
    let config = test_config();
    let mut data = Data::new();
    queued(&mut data, 1001);
    event_handler(&config, &mut data, click("approve", CURATOR, Some(1001)));
    let reply = event_handler(&config, &mut data, click("reject", OTHER_CURATOR, Some(1001)));
    assert_eq!(reply, Reply::Stale);
    let record = data.submissions_collection.get(&String::from("1001")).unwrap();
    assert!(record.approved());
    assert!(!record.discarded());
}

#[test]
fn reject_discards_and_tells_the_submitter() {
    let config = test_config();
    let mut data = Data::new();
    queued(&mut data, 1001);
    let reply = event_handler(&config, &mut data, click("reject", CURATOR, Some(1001)));
    assert_eq!(reply, Reply::Denied { submitter: String::from("4242") });
    let record = data.submissions_collection.get(&String::from("1001")).unwrap();
    assert!(record.discarded());
    assert!(!record.approved());
    assert_eq!(record.status(), Status::Discarded);
    assert_eq!(data.fumos_collection.len(), 0);
}

#[test]
fn approve_after_reject_is_stale() {
    let config = test_config();
    let mut data = Data::new();
    queued(&mut data, 1001);
    event_handler(&config, &mut data, click("reject", CURATOR, Some(1001)));
    let reply = event_handler(&config, &mut data, click("approve", CURATOR, Some(1001)));
    assert_eq!(reply, Reply::Stale);
    let record = data.submissions_collection.get(&String::from("1001")).unwrap();
    assert!(record.discarded());
    assert!(!record.approved());
}

#[test]
fn decision_on_missing_record_is_stale() {
    let config = test_config();
    let mut data = Data::new();
    queued(&mut data, 1001);
    assert_eq!(
        event_handler(&config, &mut data, click("approve", CURATOR, Some(2002))),
        Reply::Stale
    );
    assert_eq!(
        event_handler(&config, &mut data, click("reject", CURATOR, Some(2002))),
        Reply::Stale
    );
    assert!(data.submissions_collection.get(&String::from("1001")).unwrap().is_pending());
}

#[test]
fn decision_without_reference_is_a_lookup_failure() {
    let config = test_config();
    let mut data = Data::new();
    queued(&mut data, 1001);
    let reply = event_handler(&config, &mut data, click("approve", CURATOR, None));
    assert_eq!(reply, Reply::LookupFailed);
    assert!(reply.text().is_some());
    assert!(data.submissions_collection.get(&String::from("1001")).unwrap().is_pending());
    let reply = event_handler(
        &config,
        &mut data,
        form(CURATOR, None, Some(only(Some("a caption"), None))),
    );
    assert_eq!(reply, Reply::LookupFailed);
}

#[test]
fn unknown_tag_is_ignored() {
    let config = test_config();
    let mut data = Data::new();
    queued(&mut data, 1001);
    for tag in ["delete", "", "Approve", "add_info", "approve "] {
        let reply = event_handler(&config, &mut data, click(tag, CURATOR, Some(1001)));
        assert_eq!(reply, Reply::Nothing);
        let reply = event_handler(&config, &mut data, click(tag, OUTSIDER, Some(1001)));
        assert_eq!(reply, Reply::Nothing);
    }
    assert!(data.submissions_collection.get(&String::from("1001")).unwrap().is_pending());
}

#[test]
fn add_info_click_opens_the_form() {
    let config = test_config();
    let mut data = Data::new();
    queued(&mut data, 1001);
    let reply = event_handler(&config, &mut data, click("add-info", CURATOR, Some(1001)));
    assert_eq!(reply, Reply::OpenForm);
    assert_eq!(reply.text(), None);
    assert!(data.submissions_collection.get(&String::from("1001")).unwrap().is_pending());
}

#[test]
fn add_info_only_caption_keeps_credit() {
    let config = test_config();
    let mut data = Data::new();
    queued(&mut data, 1001);
    let reply = event_handler(
        &config,
        &mut data,
        form(CURATOR, Some(1001), Some(only(None, Some("an artist")))),
    );
    assert_eq!(reply, Reply::InfoAdded);
    let reply = event_handler(
        &config,
        &mut data,
        form(CURATOR, Some(1001), Some(only(Some("a caption"), None))),
    );
    assert_eq!(reply, Reply::InfoAdded);
    let record = data.submissions_collection.get(&String::from("1001")).unwrap();
    assert_eq!(*record.credit(), Some(String::from("an artist")));
    assert_eq!(*record.caption(), Some(String::from("a caption")));
    assert_eq!(*record.source(), None);
    assert_eq!(*record.featured(), None);
    assert!(record.is_pending());
    assert_eq!(record.image_url(), "https://x/img.png");
}

#[test]
fn add_info_empty_field_keeps_prior_value() {
    let config = test_config();
    let mut data = Data::new();
    queued(&mut data, 1001);
    let full = MoreInfoModal {
        credit: Some(String::from("an artist")),
        source: Some(String::from("https://source")),
        caption: Some(String::from("first")),
        featured: Some(String::from("Cirno")),
    };
    event_handler(&config, &mut data, form(CURATOR, Some(1001), Some(full)));
    let second = MoreInfoModal {
        credit: Some(String::new()),
        source: None,
        caption: Some(String::from("second")),
        featured: Some(String::new()),
    };
    event_handler(&config, &mut data, form(CURATOR, Some(1001), Some(second)));
    let record = data.submissions_collection.get(&String::from("1001")).unwrap();
    assert_eq!(*record.credit(), Some(String::from("an artist")));
    assert_eq!(*record.source(), Some(String::from("https://source")));
    assert_eq!(*record.caption(), Some(String::from("second")));
    assert_eq!(*record.featured(), Some(String::from("Cirno")));
}

#[test]
fn add_info_twice_is_the_same_as_once() {
    let config = test_config();
    let mut data = Data::new();
    queued(&mut data, 1001);
    event_handler(
        &config,
        &mut data,
        form(CURATOR, Some(1001), Some(only(Some("a caption"), Some("an artist")))),
    );
    let once = data.clone();
    event_handler(
        &config,
        &mut data,
        form(CURATOR, Some(1001), Some(only(Some("a caption"), Some("an artist")))),
    );
    assert_eq!(
        data.submissions_collection.get(&String::from("1001")),
        once.submissions_collection.get(&String::from("1001"))
    );
}

#[test]
fn add_info_on_decided_submission_is_stale() {
    let config = test_config();
    let mut data = Data::new();
    queued(&mut data, 1001);
    event_handler(&config, &mut data, click("approve", CURATOR, Some(1001)));
    assert_eq!(
        event_handler(&config, &mut data, click("add-info", CURATOR, Some(1001))),
        Reply::Stale
    );
    let reply = event_handler(
        &config,
        &mut data,
        form(CURATOR, Some(1001), Some(only(Some("too late"), None))),
    );
    assert_eq!(reply, Reply::Stale);
    let record = data.submissions_collection.get(&String::from("1001")).unwrap();
    assert_eq!(*record.caption(), None);
    assert!(record.approved());
}

#[test]
fn lapsed_form_changes_nothing() {
    let config = test_config();
    let mut data = Data::new();
    queued(&mut data, 1001);
    let before = data.clone();
    let reply = event_handler(&config, &mut data, form(CURATOR, Some(1001), None));
    assert_eq!(reply, Reply::Nothing);
    assert_eq!(reply.text(), None);
    assert_eq!(
        data.submissions_collection.get(&String::from("1001")),
        before.submissions_collection.get(&String::from("1001"))
    );
}

#[test]
fn ingestion_without_attachment_creates_nothing() {
    let config = test_config();
    let mut data = Data::new();
    let reply = event_handler(&config, &mut data, image_message(1001, SUBMITTER, &[]));
    assert_eq!(reply, Reply::AttachmentRequired);
    assert_eq!(reply.text(), Some(String::from("Please attach a fumo image to your message")));
    assert_eq!(data.submissions_collection.len(), 0);
    assert_eq!(data.fumos_collection.len(), 0);
}

#[test]
fn only_the_first_attachment_is_kept() {
    let config = test_config();
    let mut data = Data::new();
    event_handler(
        &config,
        &mut data,
        image_message(1001, SUBMITTER, &["https://x/a.png", "https://x/b.png", "https://x/c.png"]),
    );
    assert_eq!(data.submissions_collection.len(), 1);
    let record = data.submissions_collection.get(&String::from("1001")).unwrap();
    assert_eq!(record.image_url(), "https://x/a.png");
}

#[test]
fn bot_and_blacklisted_senders_are_dropped() {
    let config = test_config();
    let mut data = Data::new();
    let mut from_bot = NewMessage {
        id: 1001,
        channel_id: INTAKE,
        author_id: SUBMITTER,
        author_is_bot: true,
        attachments: vec![String::from("https://x/img.png")],
        timestamp: 5,
        content: String::new(),
    };
    assert_eq!(
        event_handler(&config, &mut data, Event::Message(from_bot.clone())),
        Reply::Nothing
    );
    from_bot.attachments = Vec::new();
    assert_eq!(event_handler(&config, &mut data, Event::Message(from_bot)), Reply::Nothing);
    assert_eq!(
        event_handler(&config, &mut data, image_message(1002, BANNED, &["https://x/img.png"])),
        Reply::Nothing
    );
    assert_eq!(event_handler(&config, &mut data, image_message(1003, BANNED, &[])), Reply::Nothing);
    assert_eq!(
        event_handler(&config, &mut data, chat_message(7, BANNED, false, "ping")),
        Reply::Nothing
    );
    assert_eq!(data.submissions_collection.len(), 0);
}

#[test]
fn the_same_message_is_queued_once() {
    let config = test_config();
    let mut data = Data::new();
    queued(&mut data, 1001);
    event_handler(&config, &mut data, click("approve", CURATOR, Some(1001)));
    let reply =
        event_handler(&config, &mut data, image_message(1001, SUBMITTER, &["https://x/other.png"]));
    assert_eq!(reply, Reply::AlreadyQueued);
    assert_eq!(data.submissions_collection.len(), 1);
    let record = data.submissions_collection.get(&String::from("1001")).unwrap();
    assert_eq!(record.image_url(), "https://x/img.png");
    assert!(record.approved());
}

#[test]
fn submissions_keep_their_order() {
    let mut data = Data::new();
    queued(&mut data, 30);
    queued(&mut data, 10);
    queued(&mut data, 20);
    assert_eq!(data.submissions_collection.len(), 3);
    assert_eq!(data.submissions_collection.record_at(0).unwrap().id(), "30");
    assert_eq!(data.submissions_collection.record_at(1).unwrap().id(), "10");
    assert_eq!(data.submissions_collection.record_at(2).unwrap().id(), "20");
    assert!(data.submissions_collection.record_at(3).is_none());
}

#[test]
fn ping_is_answered_whatever_its_case() {
    let config = test_config();
    let mut data = Data::new();
    for word in ["ping", "PING", "Ping", "pInG"] {
        let reply = event_handler(&config, &mut data, chat_message(7, SUBMITTER, false, word));
        assert_eq!(reply, Reply::Pong);
        assert_eq!(reply.text(), Some(String::from("Pong!!!")));
    }
    for word in ["pong", "ping!", " ping", "", "pin"] {
        assert_eq!(
            event_handler(&config, &mut data, chat_message(7, SUBMITTER, false, word)),
            Reply::Nothing
        );
    }
    assert_eq!(data.submissions_collection.len(), 0);
}

#[test]
fn ping_of_the_bot_itself_or_in_the_intake_channel_gets_no_pong() {
    let config = test_config();
    let mut data = Data::new();
    assert_eq!(event_handler(&config, &mut data, chat_message(7, BOT, false, "ping")), Reply::Nothing);
    assert_eq!(event_handler(&config, &mut data, chat_message(7, BOT, true, "ping")), Reply::Nothing);
    assert_eq!(
        event_handler(&config, &mut data, chat_message(INTAKE, SUBMITTER, false, "ping")),
        Reply::AttachmentRequired
    );
}

#[test]
fn other_events_are_passed_over() {
    let config = test_config();
    let mut data = Data::new();
    queued(&mut data, 1001);
    assert_eq!(event_handler(&config, &mut data, Event::Other), Reply::Nothing);
    assert_eq!(data.submissions_collection.len(), 1);
}

#[test]
fn flags_are_never_both_set() {
    let config = test_config();
    let mut data = Data::new();
    let events = vec![
        image_message(1, SUBMITTER, &["https://x/1.png"]),
        image_message(2, SUBMITTER, &["https://x/2.png"]),
        image_message(3, SUBMITTER, &["https://x/3.png"]),
        click("approve", CURATOR, Some(1)),
        click("reject", CURATOR, Some(1)),
        click("reject", OTHER_CURATOR, Some(2)),
        click("approve", CURATOR, Some(2)),
        click("approve", OUTSIDER, Some(3)),
        click("reject", CURATOR, Some(3)),
        click("reject", CURATOR, Some(3)),
        click("approve", OTHER_CURATOR, Some(3)),
        form(CURATOR, Some(1), Some(only(Some("c"), None))),
    ];
    for event in events {
        event_handler(&config, &mut data, event);
        let mut i = 0;
        while let Some(record) = data.submissions_collection.record_at(i) {
            assert!(!(record.approved() && record.discarded()));
            i += 1;
        }
        assert_eq!(i, data.submissions_collection.len());
    }
    assert_eq!(data.submissions_collection.record_at(0).unwrap().status(), Status::Approved);
    assert_eq!(data.submissions_collection.record_at(1).unwrap().status(), Status::Discarded);
    assert_eq!(data.submissions_collection.record_at(2).unwrap().status(), Status::Discarded);
}

#[test]
fn two_messages_become_two_submissions() {
    let config = test_config();
    let mut data = Data::new();
    let first = event_handler(&config, &mut data, image_message(10, SUBMITTER, &["https://x/a.png"]));
    let second = event_handler(&config, &mut data, image_message(100, OUTSIDER, &["https://x/b.png"]));
    assert_eq!(first, Reply::ReviewPrompt { submitter: String::from("4242"), message: 10 });
    assert_eq!(second, Reply::ReviewPrompt { submitter: String::from("9001"), message: 100 });
    assert_eq!(data.submissions_collection.len(), 2);
    assert_eq!(data.submissions_collection.record_at(0).unwrap().image_url(), "https://x/a.png");
    assert_eq!(data.submissions_collection.record_at(1).unwrap().image_url(), "https://x/b.png");
    assert_eq!(data.submissions_collection.record_at(1).unwrap().submitter_id(), "9001");
    let again = event_handler(&config, &mut data, image_message(10, SUBMITTER, &["https://x/a.png"]));
    assert_eq!(again, Reply::AlreadyQueued);
    assert_eq!(data.submissions_collection.len(), 2);
}
