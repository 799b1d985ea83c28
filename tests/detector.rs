use alkonost::decision::{Average, Decision};
use alkonost::message_data::MessageData;
use alkonost::params::DetectorParams;
use alkonost::spam_detector::SpamDetector;
use alkonost::types::{Action, IdEntry, MessageContent, User, UserBadges};
use alkonost::user_data::{make_decision, UserData, UserMessage, UserStatus};

fn disabled_params() -> DetectorParams {
    DetectorParams::new(
        1_000_000,
        0,
        1_000_000,
        u64::MAX,
        1_000_000,
        1.0f64.to_bits(),
        1_000_000,
        1_000_000,
    )
}

fn regular(text: &str, timestamp: u64) -> UserMessage {
    UserMessage::Regular { message: text.to_string(), timestamp, author_has_badges: false }
}

fn rate_params(avg_delay_threshold: u64) -> DetectorParams {
    let mut p = disabled_params();
    p.avg_delay_threshold = avg_delay_threshold;
    p.avg_delay_min_message_count = 5;
    p
}

fn feed_one_second_apart(user: &mut UserData, params: &DetectorParams) -> Vec<Option<Decision>> {
    let mut out = Vec::new();
    for k in 0..5u64 {
        out.push(user.analyze_new_message(regular("hello", k * 1_000_000), params));
    }
    out
}

fn is_suspicious(user: &UserData) -> bool {
    matches!(user.status, UserStatus::Suspicious { .. })
}

fn average(a: Average) -> f64 {
    a.total as f64 / a.count as f64
}

#[test]
fn test_string_recreation() {
    struct TestCase {
        input: Vec<String>,
        expected: String,
    }

    let test_cases = vec![
        TestCase {
            input: vec!["стрница".to_string(), "странца".to_string(), "сраница".to_string()],
            expected: "страница".to_string(),
        },
        TestCase {
            input: vec![
                "стрница".to_string(),
                "странца".to_string(),
                "сраница".to_string(),
                "страница".to_string(),
            ],
            expected: "страница".to_string(),
        },
        TestCase {
            input: vec![
                "カチオチの方光るよ".to_string(),
                "カチオチ方は光るよ".to_string(),
                "カチオの方は光るよ".to_string(),
            ],
            expected: "カチオチの方は光るよ".to_string(),
        },
        TestCase {
            input: vec![
                "スノムの方が良さげ".to_string(),
                "スノイムのが良さげ".to_string(),
                "スノイムの方良さげ".to_string(),
                "スノイムの方が良げ".to_string(),
                "スノイム方が良さげ".to_string(),
            ],
            expected: "スノイムの方が良さげ".to_string(),
        },
        TestCase {
            input: vec!["シーズは光れたのか".to_string(), "シラーズは光たのか".to_string()],
            expected: "シラーズは光れたのか".to_string(),
        },
        TestCase {
            input: vec!["カーンのカリーカッグ".to_string(), "カビンのカリーカッグ".to_string()],
            expected: "カービンのカリーカッグ".to_string(),
        },
        TestCase {
            input: vec![
                "シラークタファー".to_string(),
                "シラータファーか".to_string(),
                "シラークタファか".to_string(),
            ],
            expected: "シラークタファーか".to_string(),
        },
        TestCase {
            input: vec!["ュルク欲しされるぺこ".to_string(), "シュルク欲しされるぺ".to_string()],
            expected: "シュルク欲しされるぺこ".to_string(),
        },
        TestCase {
            input: vec!["スタヤックス".to_string(), "スタイヤック".to_string()],
            expected: "スタイヤックス".to_string(),
        },
        TestCase {
            input: vec!["グっぽくしよくねぇ".to_string(), "グルっぽくしよくね".to_string()],
            expected: "グルっぽくしよくねぇ".to_string(),
        },
        TestCase {
            input: vec!["チュウリンイス".to_string(), "チュウリガイス".to_string()],
            expected: "チュウリンガイス".to_string(),
        },
        TestCase {
            input: vec!["ノイムの方が良さげ".to_string(), "スノイムの方良さげ".to_string()],
            expected: "スノイムの方が良さげ".to_string(),
        },
    ];

    for test_case in test_cases {
        let mut message_data = MessageData::new("".to_string());
        for input in test_case.input {
            message_data.reconstruct_message(&input);
        }

        assert_eq!(test_case.expected, message_data.content);
    }
}

#[test]
fn message_data_counts_copies() {
    let mut data = MessageData::new("abc".to_string());
    assert_eq!(data.count(), 1);
    data.reconstruct_message("abc");
    data.reconstruct_message("abd");
    assert_eq!(data.count(), 3);
    assert_eq!(data.content(), "abcd");
}

#[test]
fn rate_flag_after_fifth_message() {
    let params = rate_params(5000);
    let mut user = UserData::new();
    let out = feed_one_second_apart(&mut user, &params);
    for d in &out[..4] {
        assert_eq!(*d, None);
    }
    match out[4] {
        Some(Decision::TooFast(avg)) => assert_eq!(average(avg), 5.0),
        other => panic!("unexpected {:?}", other),
    }
    assert!(is_suspicious(&user));
}

#[test]
fn length_flag_reports_average_length() {
    let mut params = disabled_params();
    params.avg_length_threshold = 30;
    params.avg_length_min_message_count = 5;
    let mut user = UserData::new();
    let text = "x".repeat(40);
    let mut last = None;
    for k in 0..5u64 {
        last = user.analyze_new_message(regular(&text, k * 10_000_000), &params);
        if k < 4 {
            assert_eq!(last, None);
        }
    }
    match last {
        Some(Decision::TooLong(avg)) => assert_eq!(average(avg), 40.0),
        other => panic!("unexpected {:?}", other),
    }
    assert!(is_suspicious(&user));
}

#[test]
fn length_counts_characters_not_bytes() {
    let mut params = disabled_params();
    params.avg_length_threshold = 4;
    params.avg_length_min_message_count = 1;
    let history = vec![(0u64, "ありがと".to_string())];
    assert_eq!(
        make_decision(&history, 0, &params),
        Some(Decision::TooLong(Average { total: 4, count: 1 }))
    );
    params.avg_length_threshold = 5;
    assert_eq!(make_decision(&history, 0, &params), None);
}

#[test]
fn similar_messages_flag_once() {
    let mut params = disabled_params();
    params.similarity_threshold = 0.85f64.to_bits();
    params.similarity_count_threshold = 3;
    params.similarity_min_message_length = 10;
    let mut user = UserData::new();
    let mut flags = 0;
    for k in 0..10u64 {
        let text = format!("buy cheap followers now {}", k);
        if let Some(d) = user.analyze_new_message(regular(&text, k * 10_000_000), &params) {
            assert_eq!(d, Decision::Similar);
            flags += 1;
        }
    }
    assert_eq!(flags, 1);
    assert!(is_suspicious(&user));
}

#[test]
fn dissimilar_messages_are_not_flagged() {
    let mut params = disabled_params();
    params.similarity_threshold = 0.85f64.to_bits();
    params.similarity_count_threshold = 3;
    params.similarity_min_message_length = 3;
    let history = vec![
        (0u64, "good morning everyone".to_string()),
        (1u64, "what a play".to_string()),
        (2u64, "1234567890".to_string()),
        (3u64, "zzz".to_string()),
    ];
    assert_eq!(make_decision(&history, 0, &params), None);
}

#[test]
fn deletions_flag_on_threshold() {
    let mut params = disabled_params();
    params.deleted_messages_threshold = 4;
    let mut user = UserData::new();
    for _ in 0..3 {
        assert_eq!(user.analyze_new_message(UserMessage::Delete, &params), None);
    }
    assert_eq!(user.analyze_new_message(UserMessage::Delete, &params), Some(Decision::TooManyDeleted));
    assert!(is_suspicious(&user));
}

#[test]
fn support_redeems_suspicious_user() {
    let params = rate_params(5000);
    let mut user = UserData::new();
    feed_one_second_apart(&mut user, &params);
    assert!(is_suspicious(&user));
    assert_eq!(user.analyze_new_message(UserMessage::Support, &params), Some(Decision::Clear));
    assert!(matches!(user.status, UserStatus::Immune));
    assert_eq!(user.analyze_new_message(UserMessage::Blocked, &params), None);
    assert_eq!(user.analyze_new_message(UserMessage::Delete, &params), None);
    assert_eq!(user.analyze_new_message(regular("spam", 1), &params), None);
    assert_eq!(user.reanalyze(&params), None);
    assert!(matches!(user.status, UserStatus::Immune));
}

#[test]
fn block_then_return_clears() {
    let params = disabled_params();
    let mut user = UserData::new();
    assert_eq!(user.analyze_new_message(UserMessage::Blocked, &params), Some(Decision::Blocked));
    assert!(matches!(user.status, UserStatus::Blocked { .. }));
    assert_eq!(user.analyze_new_message(regular("sorry", 5), &params), Some(Decision::Clear));
    assert!(matches!(user.status, UserStatus::Regular { .. }));
}

#[test]
fn retroactive_tightening_flags_user() {
    let loose = rate_params(500);
    let mut user = UserData::new();
    let out = feed_one_second_apart(&mut user, &loose);
    assert!(out.iter().all(|d| d.is_none()));
    assert!(matches!(user.status, UserStatus::Regular { .. }));
    let tight = rate_params(5000);
    assert!(matches!(user.reanalyze(&tight), Some(Decision::TooFast(_))));
    assert!(is_suspicious(&user));
    assert!(matches!(user.reanalyze(&tight), Some(Decision::TooFast(_))));
    assert_eq!(user.reanalyze(&loose), Some(Decision::Clear));
    assert!(matches!(user.status, UserStatus::Regular { .. }));
}

#[test]
fn regular_user_with_badges_becomes_immune_silently() {
    let params = disabled_params();
    let mut user = UserData::new();
    let m = UserMessage::Regular { message: "hi".to_string(), timestamp: 1, author_has_badges: true };
    assert_eq!(user.analyze_new_message(m, &params), None);
    assert!(matches!(user.status, UserStatus::Immune));
}

#[test]
fn badged_message_clears_suspicious_user() {
    let mut params = disabled_params();
    params.deleted_messages_threshold = 1;
    let mut user = UserData::new();
    assert_eq!(user.analyze_new_message(UserMessage::Delete, &params), Some(Decision::TooManyDeleted));
    let m = UserMessage::Regular { message: "hi".to_string(), timestamp: 1, author_has_badges: true };
    assert_eq!(user.analyze_new_message(m, &params), Some(Decision::Clear));
    assert!(matches!(user.status, UserStatus::Immune));
}

#[test]
fn suspicious_user_is_not_flagged_again() {
    let params = rate_params(5000);
    let mut user = UserData::new();
    feed_one_second_apart(&mut user, &params);
    assert_eq!(user.analyze_new_message(regular("again", 5_000_000), &params), None);
    assert_eq!(user.analyze_new_message(UserMessage::Delete, &params), None);
    assert!(is_suspicious(&user));
}

#[test]
fn make_decision_is_repeatable() {
    let params = rate_params(5000);
    let history: Vec<(u64, String)> = (0..5u64).map(|k| (k * 1_000_000, "hello".to_string())).collect();
    let first = make_decision(&history, 0, &params);
    let second = make_decision(&history, 0, &params);
    assert_eq!(first, second);
    assert!(matches!(first, Some(Decision::TooFast(_))));
}

#[test]
fn reanalysis_with_same_params_is_silent() {
    let params = DetectorParams::default();
    let mut user = UserData::new();
    user.analyze_new_message(regular("hello there", 0), &params);
    user.analyze_new_message(regular("how is everyone", 20_000_000), &params);
    assert_eq!(user.reanalyze(&params), None);
    assert!(matches!(user.status, UserStatus::Regular { .. }));
}

#[test]
fn default_params_values() {
    let p = DetectorParams::default();
    assert_eq!(p.deleted_messages_threshold, 4);
    assert_eq!(p.avg_delay_threshold, 5000);
    assert_eq!(p.avg_delay_min_message_count, 5);
    assert_eq!(p.avg_length_threshold, 30);
    assert_eq!(p.avg_length_min_message_count, 5);
    assert_eq!(p.similarity_threshold, 0.85f64.to_bits());
    assert_eq!(p.similarity_count_threshold, 3);
    assert_eq!(p.similarity_min_message_length, 10);
}

fn author(id: &str, badges: Option<Vec<UserBadges>>) -> User {
    User { name: None, channel_id: id.to_string(), badges }
}

fn post(id: &str, user: &str, text: &str, timestamp: u64) -> Action {
    Action::NewMessage {
        id: IdEntry { id: id.to_string(), timestamp },
        message: MessageContent::SimpleMessage { author: author(user, None), message: text.to_string() },
    }
}

fn delete(id: &str) -> Action {
    Action::DeleteMessage { target_id: id.to_string() }
}

#[test]
fn deletions_are_attributed_to_authors() {
    let mut params = disabled_params();
    params.deleted_messages_threshold = 2;
    let mut detector = SpamDetector::init();
    let actions = vec![
        post("m1", "alice", "one", 1),
        post("m2", "alice", "two", 2),
        post("m3", "bob", "three", 3),
        delete("m1"),
        delete("unknown"),
        delete("m2"),
        delete("m3"),
    ];
    let result = detector.process_new_messages(actions, &params);
    assert_eq!(result.processed_messages, 6);
    assert_eq!(result.decisions.len(), 1);
    assert_eq!(result.decisions[0].channel, "alice");
    assert_eq!(result.decisions[0].decision, Decision::TooManyDeleted);
}

#[test]
fn support_events_and_blocks_in_a_batch() {
    let params = disabled_params();
    let mut detector = SpamDetector::init();
    let actions = vec![
        Action::NewMessage {
            id: IdEntry { id: "s1".to_string(), timestamp: 1 },
            message: MessageContent::Sticker {
                author: author("carol", None),
                sticker_name: "cat".to_string(),
                purchase_amount: "$1".to_string(),
            },
        },
        Action::BlockUser { channel_id: "carol".to_string() },
        Action::BlockUser { channel_id: "dave".to_string() },
        Action::NewMessage {
            id: IdEntry { id: "f1".to_string(), timestamp: 2 },
            message: MessageContent::Fundraiser { author: None, text: "t".to_string(), subtext: "s".to_string() },
        },
        Action::ClosePanel { target_id: "p".to_string() },
        post("m1", "erin", "hi", 3),
        Action::NewMessage {
            id: IdEntry { id: "m2".to_string(), timestamp: 4 },
            message: MessageContent::SimpleMessage {
                author: author("frank", Some(vec![UserBadges::Moderator])),
                message: "welcome".to_string(),
            },
        },
    ];
    let result = detector.process_new_messages(actions, &params);
    assert_eq!(result.processed_messages, 5);
    assert_eq!(result.decisions.len(), 1);
    assert_eq!(result.decisions[0].channel, "dave");
    assert_eq!(result.decisions[0].decision, Decision::Blocked);
}

#[test]
fn detector_reanalysis_reports_tightened_users() {
    let loose = rate_params(500);
    let mut detector = SpamDetector::init();
    let actions: Vec<Action> = (0..5u64).map(|k| post(&format!("m{}", k), "alice", "hello", k * 1_000_000)).collect();
    let result = detector.process_new_messages(actions, &loose);
    assert_eq!(result.decisions.len(), 0);
    assert_eq!(detector.reanalyze(&loose).len(), 0);
    let decisions = detector.reanalyze(&rate_params(5000));
    assert_eq!(decisions.len(), 1);
    assert_eq!(decisions[0].channel, "alice");
    assert!(matches!(decisions[0].decision, Decision::TooFast(_)));
}
