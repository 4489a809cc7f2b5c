use slack_migrator::channel::{ChannelInfo, ChannelPurpose, ChannelTopic};
use slack_migrator::loader::{
    ChannelDecision, ChannelKind, ChannelLoader, MasterLoader, MigrationError, MigrationOutcome,
    MigratorStep,
};
use slack_migrator::user::{User, UserId, UserProfile};
use slack_migrator::Context;

fn mk_channel(id: &str, name: &str, topic: &str) -> ChannelInfo {
    ChannelInfo {
        id: id.to_string(),
        created: 1_600_000_000,
        is_private: false,
        name: name.to_string(),
        creator: UserId("U1".to_string()),
        is_archived: false,
        members: vec![UserId("U1".to_string()), UserId("U2".to_string())],
        topic: ChannelTopic {
            value: topic.to_string(),
            creator: UserId("U1".to_string()),
            last_set: 1_600_000_100,
        },
        purpose: ChannelPurpose {
            value: format!("purpose of {}", name),
            creator: UserId("U2".to_string()),
            last_set: 1_600_000_200,
        },
    }
}

fn mk_context(use_existing_channel: bool) -> Context {
    Context {
        root: "export".to_string(),
        guild_id: 42,
        discord_token: "test-token".to_string(),
        use_existing_channel,
    }
}

fn mk_loader(name: &str, use_existing_channel: bool) -> ChannelLoader {
    ChannelLoader::new(mk_channel("C1", name, "the topic"), &mk_context(use_existing_channel))
}

fn names(list: &[&str]) -> Vec<String> {
    list.iter().map(|s| s.to_string()).collect()
}

#[test]
fn absent_name_is_created_with_reuse_disabled() {
    let loader = mk_loader("general", false);
    match loader.decide(&names(&["random", "help"])) {
        ChannelDecision::Create(req) => {
            assert_eq!(req.guild_id, 42);
            assert_eq!(req.name, "general");
            assert_eq!(req.kind, ChannelKind::Text);
            assert_eq!(req.topic, "the topic");
        }
        _ => panic!("expected a create decision"),
    }
}

#[test]
fn absent_name_is_created_with_reuse_enabled() {
    let loader = mk_loader("general", true);
    assert!(matches!(
        loader.decide(&names(&[])),
        ChannelDecision::Create(_)
    ));
}

#[test]
fn run_issues_exactly_one_create_request_when_absent() {
    let loader = mk_loader("general", false);
    match loader.run(Ok(names(&["random"]))) {
        MigratorStep::NeedsCreate(req) => {
            assert_eq!(req.name, "general");
            assert_eq!(req.topic, "the topic");
        }
        MigratorStep::Settled(_) => panic!("expected a create request"),
    }
}

#[test]
fn present_name_with_reuse_is_reused_without_create() {
    let loader = mk_loader("general", true);
    assert!(matches!(
        loader.decide(&names(&["general", "random"])),
        ChannelDecision::UseExisting
    ));
    match loader.run(Ok(names(&["general", "random"]))) {
        MigratorStep::Settled(Ok(outcome)) => assert_eq!(outcome, MigrationOutcome::Reused),
        _ => panic!("expected a settled reuse"),
    }
}

#[test]
fn present_name_without_reuse_is_a_conflict_without_create() {
    let loader = mk_loader("general", false);
    assert!(matches!(
        loader.decide(&names(&["general"])),
        ChannelDecision::Conflict
    ));
    match loader.run(Ok(names(&["general"]))) {
        MigratorStep::Settled(Err(MigrationError::Conflict { channel_name })) => {
            assert_eq!(channel_name, "general");
        }
        _ => panic!("expected a settled conflict"),
    }
}

#[test]
fn conflict_message_names_the_channel() {
    let err = MigrationError::Conflict {
        channel_name: "general".to_string(),
    };
    assert_eq!(err.message(), "Channel general already exists");
}

#[test]
fn remote_message_is_repeated_verbatim() {
    let err = MigrationError::Remote {
        message: "connection reset".to_string(),
    };
    assert_eq!(err.message(), "connection reset");
}

#[test]
fn name_matching_is_case_sensitive() {
    let loader = mk_loader("general", false);
    assert!(matches!(
        loader.decide(&names(&["General"])),
        ChannelDecision::Create(_)
    ));
    let reuse_loader = mk_loader("general", true);
    assert!(matches!(
        reuse_loader.decide(&names(&["General", "GENERAL"])),
        ChannelDecision::Create(_)
    ));
}

#[test]
fn failed_listing_is_terminal_for_the_migrator() {
    let loader = mk_loader("general", true);
    match loader.run(Err(MigrationError::Remote {
        message: "http 500".to_string(),
    })) {
        MigratorStep::Settled(Err(MigrationError::Remote { message })) => {
            assert_eq!(message, "http 500");
        }
        _ => panic!("expected the remote failure back"),
    }
}

#[test]
fn failed_listing_leaves_sibling_migrators_untouched() {
    let context = mk_context(true);
    let channels = vec![
        mk_channel("C1", "alpha", "t1"),
        mk_channel("C2", "beta", "t2"),
        mk_channel("C3", "gamma", "t3"),
    ];
    let loaders = MasterLoader::create_channel_loaders(channels, &context);
    let steps: Vec<MigratorStep> = loaders
        .iter()
        .enumerate()
        .map(|(i, l)| {
            if i == 1 {
                l.run(Err(MigrationError::Remote {
                    message: "listing failed".to_string(),
                }))
            } else {
                l.run(Ok(names(&["beta", "gamma"])))
            }
        })
        .collect();
    assert!(matches!(&steps[0], MigratorStep::NeedsCreate(req) if req.name == "alpha"));
    assert!(matches!(
        &steps[1],
        MigratorStep::Settled(Err(MigrationError::Remote { .. }))
    ));
    assert!(matches!(
        &steps[2],
        MigratorStep::Settled(Ok(MigrationOutcome::Reused))
    ));
}

#[test]
fn complete_create_maps_success_to_created() {
    let loader = mk_loader("general", false);
    assert_eq!(
        loader.complete_create(Ok(())).expect("success"),
        MigrationOutcome::Created
    );
}

#[test]
fn complete_create_passes_the_remote_error_through() {
    let loader = mk_loader("general", false);
    match loader.complete_create(Err(MigrationError::Remote {
        message: "http 403".to_string(),
    })) {
        Err(MigrationError::Remote { message }) => assert_eq!(message, "http 403"),
        _ => panic!("expected the remote failure back"),
    }
}

#[test]
fn one_migrator_per_channel_record_in_order() {
    let context = mk_context(false);
    let channels = vec![
        mk_channel("C1", "alpha", "t1"),
        mk_channel("C2", "beta", "t2"),
        mk_channel("C3", "beta", "t3"),
        mk_channel("C4", "delta", "t4"),
    ];
    let loaders = MasterLoader::create_channel_loaders(channels, &context);
    assert_eq!(loaders.len(), 4);
    let loaded: Vec<&str> = loaders
        .iter()
        .map(|l| l.channel_info.name.as_str())
        .collect();
    assert_eq!(loaded, vec!["alpha", "beta", "beta", "delta"]);
    assert!(loaders.iter().all(|l| l.guild_id == 42));
    assert!(loaders.iter().all(|l| !l.use_existing_channel));
}

#[test]
fn join_of_all_successes_is_success() {
    let results = vec![
        Ok(MigrationOutcome::Created),
        Ok(MigrationOutcome::Reused),
        Ok(MigrationOutcome::Created),
    ];
    assert!(MasterLoader::join_results(results).is_ok());
}

#[test]
fn join_of_no_results_is_success() {
    assert!(MasterLoader::join_results(Vec::new()).is_ok());
}

#[test]
fn join_surfaces_the_first_error_and_discards_the_rest() {
    let results = vec![
        Ok(MigrationOutcome::Created),
        Err(MigrationError::Conflict {
            channel_name: "beta".to_string(),
        }),
        Err(MigrationError::Remote {
            message: "http 500".to_string(),
        }),
        Ok(MigrationOutcome::Reused),
    ];
    match MasterLoader::join_results(results) {
        Err(MigrationError::Conflict { channel_name }) => assert_eq!(channel_name, "beta"),
        _ => panic!("expected the first error, the conflict"),
    }
}

#[test]
fn orchestrator_loads_user_map_and_one_migrator_per_channel() {
    let users = vec![
        User {
            id: UserId("U1".to_string()),
            name: "alice".to_string(),
            deleted: false,
            real_name: "Alice Doe".to_string(),
            profile: UserProfile {
                display_name: Some("alice".to_string()),
                image_512: "https://example.test/a.png".to_string(),
            },
            is_bot: false,
            is_admin: true,
            is_owner: false,
        },
        User {
            id: UserId("U2".to_string()),
            name: "bob".to_string(),
            deleted: true,
            real_name: "Bob Roe".to_string(),
            profile: UserProfile {
                display_name: None,
                image_512: "https://example.test/b.png".to_string(),
            },
            is_bot: true,
            is_admin: false,
            is_owner: false,
        },
    ];
    let channels = vec![mk_channel("C1", "alpha", "t1"), mk_channel("C2", "beta", "t2")];
    let master = MasterLoader::new(users, channels, &mk_context(true));
    assert_eq!(master.user_count(), 2);
    assert_eq!(master.channel_count(), 2);
    assert!(master.channel_loaders.iter().all(|l| l.use_existing_channel));
}
