use bot_core::translate::{on_error, ErrorEvent, LogLevel, Outcome};

fn all_events() -> Vec<ErrorEvent> {
    vec![
        ErrorEvent::Setup { error: "boom".to_string() },
        ErrorEvent::EventHandler { event_name: "message".to_string(), error: "boom".to_string() },
        ErrorEvent::Command { error: "boom".to_string() },
        ErrorEvent::SubcommandRequired { subcommand_names: vec!["add".to_string()] },
        ErrorEvent::CommandPanic { payload: Some("oops".to_string()) },
        ErrorEvent::ArgumentParse { command_name: "clone_category".to_string(), input: None },
        ErrorEvent::CommandStructureMismatch {
            command_name: "ping".to_string(),
            description: "unexpected field".to_string(),
        },
        ErrorEvent::CommandCheckFailed {
            command_name: "ping".to_string(),
            author_name: "alice".to_string(),
            detail: "None".to_string(),
        },
        ErrorEvent::CooldownHit { remaining_seconds: 3 },
        ErrorEvent::MissingBotPermissions { missing_permissions: "MANAGE_CHANNELS".to_string() },
        ErrorEvent::MissingUserPermissions {
            command_name: "clone_category".to_string(),
            missing_permissions: None,
        },
        ErrorEvent::NotAnOwner,
        ErrorEvent::GuildOnly,
        ErrorEvent::DmOnly,
        ErrorEvent::NsfwOnly,
        ErrorEvent::DynamicPrefix {
            message_content: "!x".to_string(),
            error: "boom".to_string(),
        },
        ErrorEvent::UnknownCommand {
            prefix: "!".to_string(),
            message_content: "!nope".to_string(),
        },
        ErrorEvent::UnknownInteraction { interaction_name: "nope".to_string() },
    ]
}

#[test]
fn every_variant_has_nonempty_message_and_defined_visibility() {
    let events = all_events();
    assert_eq!(events.len(), 18);
    for event in events {
        match on_error(event) {
            Outcome::Log { message, .. } => assert!(!message.is_empty()),
            Outcome::Reply { message, .. } => assert!(!message.is_empty()),
        }
    }
}

#[test]
fn setup_error_is_log_only() {
    let outcome = on_error(ErrorEvent::Setup { error: "no token".to_string() });
    assert_eq!(
        outcome,
        Outcome::Log {
            level: LogLevel::Problem,
            message: "Error in user data setup: no token".to_string(),
        }
    );
}

#[test]
fn event_handler_error_is_log_only_with_event_name() {
    let outcome = on_error(ErrorEvent::EventHandler {
        event_name: "ready".to_string(),
        error: "boom".to_string(),
    });
    assert_eq!(
        outcome,
        Outcome::Log {
            level: LogLevel::Problem,
            message: "User event event handler encountered an error on ready event: boom"
                .to_string(),
        }
    );
}

#[test]
fn command_error_is_public_generic_notice() {
    let outcome = on_error(ErrorEvent::Command { error: "boom".to_string() });
    assert_eq!(
        outcome,
        Outcome::Reply {
            message: "コマンドの実行中にエラーが発生しました。".to_string(),
            ephemeral: false,
        }
    );
}

#[test]
fn subcommand_required_lists_names_comma_joined() {
    let outcome = on_error(ErrorEvent::SubcommandRequired {
        subcommand_names: vec!["add".to_string(), "remove".to_string(), "list".to_string()],
    });
    assert_eq!(
        outcome,
        Outcome::Reply {
            message: "サブコマンドを指定してください。コマンド: add, remove, list".to_string(),
            ephemeral: true,
        }
    );
}

#[test]
fn subcommand_required_with_one_name() {
    let outcome = on_error(ErrorEvent::SubcommandRequired {
        subcommand_names: vec!["add".to_string()],
    });
    assert_eq!(
        outcome,
        Outcome::Reply {
            message: "サブコマンドを指定してください。コマンド: add".to_string(),
            ephemeral: true,
        }
    );
}

#[test]
fn subcommand_required_with_no_names() {
    let outcome = on_error(ErrorEvent::SubcommandRequired { subcommand_names: vec![] });
    assert_eq!(
        outcome,
        Outcome::Reply {
            message: "サブコマンドを指定してください。コマンド: ".to_string(),
            ephemeral: true,
        }
    );
}

#[test]
fn command_panic_is_ephemeral_generic_notice() {
    let outcome = on_error(ErrorEvent::CommandPanic { payload: None });
    assert_eq!(
        outcome,
        Outcome::Reply {
            message: "コマンドの実行中にエラーが発生しました。".to_string(),
            ephemeral: true,
        }
    );
}

#[test]
fn argument_parse_names_command_and_input() {
    let outcome = on_error(ErrorEvent::ArgumentParse {
        command_name: "clone_category".to_string(),
        input: Some("#general".to_string()),
    });
    assert_eq!(
        outcome,
        Outcome::Reply {
            message: "コマンド引数の解析に失敗しました。 コマンド: `clone_category` 引数: `#general`"
                .to_string(),
            ephemeral: false,
        }
    );
}

#[test]
fn argument_parse_without_input_degrades_gracefully() {
    let outcome = on_error(ErrorEvent::ArgumentParse {
        command_name: "clone_category".to_string(),
        input: None,
    });
    assert_eq!(
        outcome,
        Outcome::Reply {
            message: "コマンド引数の解析に失敗しました。 コマンド: `clone_category`".to_string(),
            ephemeral: false,
        }
    );
}

#[test]
fn structure_mismatch_is_log_only() {
    let outcome = on_error(ErrorEvent::CommandStructureMismatch {
        command_name: "ping".to_string(),
        description: "unexpected field".to_string(),
    });
    assert_eq!(
        outcome,
        Outcome::Log {
            level: LogLevel::Problem,
            message: "Error: failed to deserialize interaction arguments for `/ping`: unexpected field"
                .to_string(),
        }
    );
}

#[test]
fn check_failed_is_log_only_with_author() {
    let outcome = on_error(ErrorEvent::CommandCheckFailed {
        command_name: "ping".to_string(),
        author_name: "alice".to_string(),
        detail: "None".to_string(),
    });
    assert_eq!(
        outcome,
        Outcome::Log {
            level: LogLevel::Problem,
            message: "A command check failed in command ping for user alice: None".to_string(),
        }
    );
}

#[test]
fn cooldown_states_remaining_seconds() {
    let outcome = on_error(ErrorEvent::CooldownHit { remaining_seconds: 5 });
    assert_eq!(
        outcome,
        Outcome::Reply {
            message: "レート制限中です。 5 秒後に再実行してください。".to_string(),
            ephemeral: true,
        }
    );
}

#[test]
fn cooldown_renders_large_remaining_time() {
    let outcome = on_error(ErrorEvent::CooldownHit { remaining_seconds: u64::MAX });
    assert_eq!(
        outcome,
        Outcome::Reply {
            message: "レート制限中です。 18446744073709551615 秒後に再実行してください。"
                .to_string(),
            ephemeral: true,
        }
    );
}

#[test]
fn missing_bot_permissions_names_the_set() {
    let outcome = on_error(ErrorEvent::MissingBotPermissions {
        missing_permissions: "MANAGE_CHANNELS".to_string(),
    });
    assert_eq!(
        outcome,
        Outcome::Reply {
            message: "コマンドを実行できませんでした。Botの権限を確認してください。: MANAGE_CHANNELS"
                .to_string(),
            ephemeral: true,
        }
    );
}

#[test]
fn missing_user_permissions_names_command_and_set() {
    let outcome = on_error(ErrorEvent::MissingUserPermissions {
        command_name: "clone_category".to_string(),
        missing_permissions: Some("MANAGE_CHANNELS".to_string()),
    });
    assert_eq!(
        outcome,
        Outcome::Reply {
            message:
                "コマンドを実行する権限がありません。 コマンド: `clone_category` 必要な権限: MANAGE_CHANNELS"
                    .to_string(),
            ephemeral: true,
        }
    );
}

#[test]
fn missing_user_permissions_without_set_falls_back_to_uncertain_tone() {
    let outcome = on_error(ErrorEvent::MissingUserPermissions {
        command_name: "clone_category".to_string(),
        missing_permissions: None,
    });
    assert_eq!(
        outcome,
        Outcome::Reply {
            message: "たぶん？コマンドを実行する権限がありません。 コマンド: `clone_category`"
                .to_string(),
            ephemeral: true,
        }
    );
}

#[test]
fn not_an_owner_is_ephemeral_denial() {
    let outcome = on_error(ErrorEvent::NotAnOwner);
    assert_eq!(
        outcome,
        Outcome::Reply {
            message: "コマンドを実行する権限がありません。".to_string(),
            ephemeral: true,
        }
    );
}

#[test]
fn guild_only_is_ephemeral_restriction_notice() {
    let outcome = on_error(ErrorEvent::GuildOnly);
    assert_eq!(
        outcome,
        Outcome::Reply {
            message: "サーバーでのみ実行可能なコマンドです。".to_string(),
            ephemeral: true,
        }
    );
}

#[test]
fn dm_only_is_ephemeral_restriction_notice() {
    let outcome = on_error(ErrorEvent::DmOnly);
    assert_eq!(
        outcome,
        Outcome::Reply {
            message: "DMでのみ実行可能なコマンドです。".to_string(),
            ephemeral: true,
        }
    );
}

#[test]
fn nsfw_only_is_ephemeral_restriction_notice() {
    let outcome = on_error(ErrorEvent::NsfwOnly);
    assert_eq!(
        outcome,
        Outcome::Reply {
            message: "NSFWチャンネルでのみ実行可能なコマンドです。".to_string(),
            ephemeral: true,
        }
    );
}

#[test]
fn dynamic_prefix_failure_is_log_only() {
    let outcome = on_error(ErrorEvent::DynamicPrefix {
        message_content: "\"!x\"".to_string(),
        error: "boom".to_string(),
    });
    assert_eq!(
        outcome,
        Outcome::Log {
            level: LogLevel::Problem,
            message: "Dynamic prefix failed for message \"!x\": boom".to_string(),
        }
    );
}

#[test]
fn unknown_command_is_log_warning() {
    let outcome = on_error(ErrorEvent::UnknownCommand {
        prefix: "!".to_string(),
        message_content: "!nope".to_string(),
    });
    assert_eq!(
        outcome,
        Outcome::Log {
            level: LogLevel::Caution,
            message: "Recognized prefix `!`, but didn't recognize command name in `!nope`"
                .to_string(),
        }
    );
}

#[test]
fn unknown_interaction_is_log_warning() {
    let outcome = on_error(ErrorEvent::UnknownInteraction { interaction_name: "nope".to_string() });
    assert_eq!(
        outcome,
        Outcome::Log {
            level: LogLevel::Caution,
            message: "received unknown interaction \"nope\"".to_string(),
        }
    );
}
