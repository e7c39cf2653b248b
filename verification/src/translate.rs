//! The error translator: a total mapping from the closed set of framework
//! failure events to exactly one outcome, either a structured log line or a
//! reply with a declared visibility.
use vstd::prelude::*;
use vstd::string::StringExecFns;
use crate::text::{comma_join, dec_str, push_comma_joined, push_decimal};

verus! {

/// Severity of a log-only outcome.
#[derive(Clone, Copy, PartialEq, Eq, Debug)]
pub enum LogLevel {
    Problem,
    Caution,
}

/// One failure event surfaced by the hosting framework, reduced to the plain
/// values that the translation reads.
#[derive(PartialEq, Eq, Debug)]
pub enum ErrorEvent {
    Setup { error: String },
    EventHandler { event_name: String, error: String },
    Command { error: String },
    SubcommandRequired { subcommand_names: Vec<String> },
    CommandPanic { payload: Option<String> },
    ArgumentParse { command_name: String, input: Option<String> },
    CommandStructureMismatch { command_name: String, description: String },
    CommandCheckFailed { command_name: String, author_name: String, detail: String },
    CooldownHit { remaining_seconds: u64 },
    MissingBotPermissions { missing_permissions: String },
    MissingUserPermissions { command_name: String, missing_permissions: Option<String> },
    NotAnOwner,
    GuildOnly,
    DmOnly,
    NsfwOnly,
    DynamicPrefix { message_content: String, error: String },
    UnknownCommand { prefix: String, message_content: String },
    UnknownInteraction { interaction_name: String },
}

/// What the translator decides: exactly one log emission or exactly one
/// reply, never both, never neither.
#[derive(PartialEq, Eq, Debug)]
pub enum Outcome {
    Log { level: LogLevel, message: String },
    Reply { message: String, ephemeral: bool },
}

/// The mathematical shape of an `Outcome`: the message as a character
/// sequence, with the same delivery choice.
#[verifier::ext_equal]
pub enum OutcomeView {
    Log { level: LogLevel, message: Seq<char> },
    Reply { message: Seq<char>, ephemeral: bool },
}

impl View for Outcome {
    type V = OutcomeView;

    open spec fn view(&self) -> OutcomeView {
        match self {
            Outcome::Log { level, message } => OutcomeView::Log {
                level: *level,
                message: message@,
            },
            Outcome::Reply { message, ephemeral } => OutcomeView::Reply {
                message: message@,
                ephemeral: *ephemeral,
            },
        }
    }
}

/// The dispatch table: the one outcome owed for each failure event.
pub open spec fn translate_model(e: ErrorEvent) -> OutcomeView {
    match e {
        ErrorEvent::Setup { error } => OutcomeView::Log {
            level: LogLevel::Problem,
            message: "Error in user data setup: "@ + error@,
        },
        ErrorEvent::EventHandler { event_name, error } => OutcomeView::Log {
            level: LogLevel::Problem,
            message: "User event event handler encountered an error on "@ + event_name@
                + " event: "@ + error@,
        },
        ErrorEvent::Command { error } => OutcomeView::Reply {
            message: "コマンドの実行中にエラーが発生しました。"@,
            ephemeral: false,
        },
        ErrorEvent::SubcommandRequired { subcommand_names } => OutcomeView::Reply {
            message: "サブコマンドを指定してください。コマンド: "@ + comma_join(
                subcommand_names.deep_view(),
            ),
            ephemeral: true,
        },
        ErrorEvent::CommandPanic { payload } => OutcomeView::Reply {
            message: "コマンドの実行中にエラーが発生しました。"@,
            ephemeral: true,
        },
        ErrorEvent::ArgumentParse { command_name, input } => OutcomeView::Reply {
            message: match input {
                Some(token) => "コマンド引数の解析に失敗しました。 コマンド: `"@ + command_name@
                    + "` 引数: `"@ + token@ + "`"@,
                None => "コマンド引数の解析に失敗しました。 コマンド: `"@ + command_name@ + "`"@,
            },
            ephemeral: false,
        },
        ErrorEvent::CommandStructureMismatch { command_name, description } => OutcomeView::Log {
            level: LogLevel::Problem,
            message: "Error: failed to deserialize interaction arguments for `/"@ + command_name@
                + "`: "@ + description@,
        },
        ErrorEvent::CommandCheckFailed { command_name, author_name, detail } => OutcomeView::Log {
            level: LogLevel::Problem,
            message: "A command check failed in command "@ + command_name@ + " for user "@
                + author_name@ + ": "@ + detail@,
        },
        ErrorEvent::CooldownHit { remaining_seconds } => OutcomeView::Reply {
            message: "レート制限中です。 "@ + dec_str(remaining_seconds as nat)
                + " 秒後に再実行してください。"@,
            ephemeral: true,
        },
        ErrorEvent::MissingBotPermissions { missing_permissions } => OutcomeView::Reply {
            message: "コマンドを実行できませんでした。Botの権限を確認してください。: "@
                + missing_permissions@,
            ephemeral: true,
        },
        ErrorEvent::MissingUserPermissions { command_name, missing_permissions } => OutcomeView::Reply {
            message: match missing_permissions {
                Some(permissions) => "コマンドを実行する権限がありません。 コマンド: `"@
                    + command_name@ + "` 必要な権限: "@ + permissions@,
                None => "たぶん？コマンドを実行する権限がありません。 コマンド: `"@ + command_name@
                    + "`"@,
            },
            ephemeral: true,
        },
        ErrorEvent::NotAnOwner => OutcomeView::Reply {
            message: "コマンドを実行する権限がありません。"@,
            ephemeral: true,
        },
        ErrorEvent::GuildOnly => OutcomeView::Reply {
            message: "サーバーでのみ実行可能なコマンドです。"@,
            ephemeral: true,
        },
        ErrorEvent::DmOnly => OutcomeView::Reply {
            message: "DMでのみ実行可能なコマンドです。"@,
            ephemeral: true,
        },
        ErrorEvent::NsfwOnly => OutcomeView::Reply {
            message: "NSFWチャンネルでのみ実行可能なコマンドです。"@,
            ephemeral: true,
        },
        ErrorEvent::DynamicPrefix { message_content, error } => OutcomeView::Log {
            level: LogLevel::Problem,
            message: "Dynamic prefix failed for message "@ + message_content@ + ": "@ + error@,
        },
        ErrorEvent::UnknownCommand { prefix, message_content } => OutcomeView::Log {
            level: LogLevel::Caution,
            message: "Recognized prefix `"@ + prefix@ + "`, but didn't recognize command name in `"@
                + message_content@ + "`"@,
        },
        ErrorEvent::UnknownInteraction { interaction_name } => OutcomeView::Log {
            level: LogLevel::Caution,
            message: "received unknown interaction \""@ + interaction_name@ + "\""@,
        },
    }
}

/// Translates one framework failure event to its outcome, exactly as the
/// dispatch table states.
pub fn on_error(e: ErrorEvent) -> (r: Outcome)
    ensures
        r@ == translate_model(e),
{
    match e {
        ErrorEvent::Setup { error } => {
            let mut m = String::from_str("Error in user data setup: ");
            m.append(error.as_str());
            Outcome::Log { level: LogLevel::Problem, message: m }
        },
        ErrorEvent::EventHandler { event_name, error } => {
            let mut m = String::from_str("User event event handler encountered an error on ");
            m.append(event_name.as_str());
            m.append(" event: ");
            m.append(error.as_str());
            Outcome::Log { level: LogLevel::Problem, message: m }
        },
        ErrorEvent::Command { .. } => {
            let m = String::from_str("コマンドの実行中にエラーが発生しました。");
            Outcome::Reply { message: m, ephemeral: false }
        },
        ErrorEvent::SubcommandRequired { subcommand_names } => {
            let mut m = String::from_str("サブコマンドを指定してください。コマンド: ");
            push_comma_joined(&mut m, &subcommand_names);
            Outcome::Reply { message: m, ephemeral: true }
        },
        ErrorEvent::CommandPanic { .. } => {
            let m = String::from_str("コマンドの実行中にエラーが発生しました。");
            Outcome::Reply { message: m, ephemeral: true }
        },
        ErrorEvent::ArgumentParse { command_name, input } => {
            let mut m = String::from_str("コマンド引数の解析に失敗しました。 コマンド: `");
            m.append(command_name.as_str());
            match input {
                Some(token) => {
                    m.append("` 引数: `");
                    m.append(token.as_str());
                    m.append("`");
                },
                None => {
                    m.append("`");
                },
            }
            Outcome::Reply { message: m, ephemeral: false }
        },
        ErrorEvent::CommandStructureMismatch { command_name, description } => {
            let mut m = String::from_str("Error: failed to deserialize interaction arguments for `/");
            m.append(command_name.as_str());
            m.append("`: ");
            m.append(description.as_str());
            Outcome::Log { level: LogLevel::Problem, message: m }
        },
        ErrorEvent::CommandCheckFailed { command_name, author_name, detail } => {
            let mut m = String::from_str("A command check failed in command ");
            m.append(command_name.as_str());
            m.append(" for user ");
            m.append(author_name.as_str());
            m.append(": ");
            m.append(detail.as_str());
            Outcome::Log { level: LogLevel::Problem, message: m }
        },
        ErrorEvent::CooldownHit { remaining_seconds } => {
            let mut m = String::from_str("レート制限中です。 ");
            push_decimal(&mut m, remaining_seconds);
            m.append(" 秒後に再実行してください。");
            Outcome::Reply { message: m, ephemeral: true }
        },
        ErrorEvent::MissingBotPermissions { missing_permissions } => {
            let mut m = String::from_str(
                "コマンドを実行できませんでした。Botの権限を確認してください。: ",
            );
            m.append(missing_permissions.as_str());
            Outcome::Reply { message: m, ephemeral: true }
        },
        ErrorEvent::MissingUserPermissions { command_name, missing_permissions } => {
            let m = match missing_permissions {
                Some(permissions) => {
                    let mut m = String::from_str(
                        "コマンドを実行する権限がありません。 コマンド: `",
                    );
                    m.append(command_name.as_str());
                    m.append("` 必要な権限: ");
                    m.append(permissions.as_str());
                    m
                },
                None => {
                    let mut m = String::from_str(
                        "たぶん？コマンドを実行する権限がありません。 コマンド: `",
                    );
                    m.append(command_name.as_str());
                    m.append("`");
                    m
                },
            };
            Outcome::Reply { message: m, ephemeral: true }
        },
        ErrorEvent::NotAnOwner => {
            let m = String::from_str("コマンドを実行する権限がありません。");
            Outcome::Reply { message: m, ephemeral: true }
        },
        ErrorEvent::GuildOnly => {
            let m = String::from_str("サーバーでのみ実行可能なコマンドです。");
            Outcome::Reply { message: m, ephemeral: true }
        },
        ErrorEvent::DmOnly => {
            let m = String::from_str("DMでのみ実行可能なコマンドです。");
            Outcome::Reply { message: m, ephemeral: true }
        },
        ErrorEvent::NsfwOnly => {
            let m = String::from_str("NSFWチャンネルでのみ実行可能なコマンドです。");
            Outcome::Reply { message: m, ephemeral: true }
        },
        ErrorEvent::DynamicPrefix { message_content, error } => {
            let mut m = String::from_str("Dynamic prefix failed for message ");
            m.append(message_content.as_str());
            m.append(": ");
            m.append(error.as_str());
            Outcome::Log { level: LogLevel::Problem, message: m }
        },
        ErrorEvent::UnknownCommand { prefix, message_content } => {
            let mut m = String::from_str("Recognized prefix `");
            m.append(prefix.as_str());
            m.append("`, but didn't recognize command name in `");
            m.append(message_content.as_str());
            m.append("`");
            Outcome::Log { level: LogLevel::Caution, message: m }
        },
        ErrorEvent::UnknownInteraction { interaction_name } => {
            let mut m = String::from_str("received unknown interaction \"");
            m.append(interaction_name.as_str());
            m.append("\"");
            Outcome::Log { level: LogLevel::Caution, message: m }
        },
    }
}

/// Law: every failure event translates to an outcome whose message is
/// non-empty, and whose delivery is defined: a log line (problem or caution)
/// or a reply that is either public or ephemeral. No variant falls through.
pub proof fn lemma_translation_total(e: ErrorEvent)
    ensures
        (match translate_model(e) {
            OutcomeView::Log { message, .. } => message.len() > 0,
            OutcomeView::Reply { message, .. } => message.len() > 0,
        }),
{
    reveal_strlit("Error in user data setup: ");
    reveal_strlit("User event event handler encountered an error on ");
    reveal_strlit("コマンドの実行中にエラーが発生しました。");
    reveal_strlit("サブコマンドを指定してください。コマンド: ");
    reveal_strlit("コマンド引数の解析に失敗しました。 コマンド: `");
    reveal_strlit("Error: failed to deserialize interaction arguments for `/");
    reveal_strlit("A command check failed in command ");
    reveal_strlit("レート制限中です。 ");
    reveal_strlit("コマンドを実行できませんでした。Botの権限を確認してください。: ");
    reveal_strlit("コマンドを実行する権限がありません。 コマンド: `");
    reveal_strlit("たぶん？コマンドを実行する権限がありません。 コマンド: `");
    reveal_strlit("コマンドを実行する権限がありません。");
    reveal_strlit("サーバーでのみ実行可能なコマンドです。");
    reveal_strlit("DMでのみ実行可能なコマンドです。");
    reveal_strlit("NSFWチャンネルでのみ実行可能なコマンドです。");
    reveal_strlit("Dynamic prefix failed for message ");
    reveal_strlit("Recognized prefix `");
    reveal_strlit("received unknown interaction \"");
}

/// Law: when the missing-permission set is unknown for a user-permission
/// failure, the translation falls back to the uncertain-tone phrasing as an
/// ephemeral reply, rather than omitting the reply or failing to render.
pub proof fn lemma_permission_fallback(command_name: String)
    ensures
        (translate_model(
            ErrorEvent::MissingUserPermissions { command_name, missing_permissions: None },
        ) == OutcomeView::Reply {
            message: "たぶん？コマンドを実行する権限がありません。 コマンド: `"@ + command_name@
                + "`"@,
            ephemeral: true,
        }),
{
}

} // verus!
