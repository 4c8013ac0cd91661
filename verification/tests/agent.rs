use konfctl::agent::{
    ErrorCode, ListOutput, RecordOutput, check_agent_confirmed, check_agent_guard,
    classify_error, list_plan, record_output,
};
use konfctl::commands::admin::{GuardedCommand, guard, guard_hint};
use konfctl::commands::agent_discovery::{ArgInfo, CommandInfo, command_schema};

#[test]
fn agent_lists_are_capped_at_fifty() {
    let p = list_plan(120, None, false, false, true);
    assert_eq!(p.returned, 50);
    assert!(p.truncated);
    assert_eq!(p.output, ListOutput::Json);

    let p = list_plan(12, None, false, false, true);
    assert_eq!(p.returned, 12);
    assert!(!p.truncated);

    let p = list_plan(120, Some(10), true, false, true);
    assert_eq!(p.returned, 10);
    assert_eq!(p.output, ListOutput::Compact);
}

#[test]
fn human_lists_are_whole() {
    let p = list_plan(120, None, false, false, false);
    assert_eq!(p.returned, 120);
    assert!(!p.truncated);
    assert_eq!(p.output, ListOutput::Human);
    assert_eq!(list_plan(3, None, false, true, false).output, ListOutput::Json);
}

#[test]
fn guarded_commands_are_refused_for_agents() {
    let c = GuardedCommand::ProposalsDelete("p1".to_string());
    assert_eq!(guard(false, &c), Ok(()));
    let err = guard(true, &c).unwrap_err();
    assert!(err.starts_with("AGENT_GUARD_BLOCK"));
    assert!(err.contains("konf admin proposals delete p1"));
    let (code, hints) = classify_error(&err);
    assert_eq!(code, ErrorCode::AgentGuardBlock);
    assert!(hints.is_empty());
    assert_eq!(code.name(), "AGENT_GUARD_BLOCK");
}

#[test]
fn guard_hints_name_the_command_line() {
    let action = GuardedCommand::ProposalsAction("t9".to_string(), "Accept".to_string());
    assert_eq!(guard_hint(&action), "admin proposals action t9 Accept");
    assert_eq!(
        guard_hint(&GuardedCommand::MessagesNew("sp-1".to_string())),
        "admin messages new --speaker sp-1"
    );
    assert_eq!(guard_hint(&GuardedCommand::ScheduleSave), "admin schedule save");
    assert_eq!(
        check_agent_guard(true, "admin speakers broadcast"),
        Err("AGENT_GUARD_BLOCK: This command alters production data or sends external communications and cannot be executed autonomously. You must stop and ask the human user to run the following command in their terminal:\n\nkonf admin speakers broadcast\n\nDo not attempt to bypass this.".to_string())
    );
}

#[test]
fn errors_are_classified_with_hints() {
    let (code, hints) = classify_error("Authentication required. Valid session not found.");
    assert_eq!(code, ErrorCode::AuthRequired);
    assert_eq!(hints, vec!["Run 'konf login' to authenticate.".to_string()]);

    let (code, hints) = classify_error("sponsor.crm.getById: Sponsor not found");
    assert_eq!(code, ErrorCode::NotFound);
    assert_eq!(
        hints,
        vec!["Use 'list' commands with '--search' or '--all' to verify IDs.".to_string()]
    );

    let (code, _) = classify_error("No conference context for this token");
    assert_eq!(code, ErrorCode::ConferenceNotSet);
    assert_eq!(code.name(), "CONFERENCE_NOT_SET");

    let (code, hints) = classify_error("boom");
    assert_eq!(code, ErrorCode::UnknownError);
    assert!(hints.is_empty());
}

#[test]
fn thread_changes_need_confirmation_from_agents() {
    assert_eq!(check_agent_confirmed(false, false, "archiving thread"), Ok(()));
    assert_eq!(check_agent_confirmed(true, true, "archiving thread"), Ok(()));
    assert_eq!(
        check_agent_confirmed(true, false, "archiving thread"),
        Err("Agent must pass -y/--yes to confirm archiving thread.".to_string())
    );
}

#[test]
fn records_print_as_json_for_agents() {
    assert_eq!(record_output(false, true), RecordOutput::CompactJson);
    assert_eq!(record_output(true, false), RecordOutput::PrettyJson);
    assert_eq!(record_output(false, false), RecordOutput::Human);
}

fn arg(id: &str, long: Option<&str>, required: bool) -> ArgInfo {
    ArgInfo {
        id: id.to_string(),
        long: long.map(str::to_string),
        short: None,
        help: Some(format!("{id} help")),
        required,
    }
}

#[test]
fn help_schema_drops_parser_arguments_and_empty_lists() {
    let tree = CommandInfo {
        name: "konf".to_string(),
        about: Some("Konf CLI".to_string()),
        args: vec![arg("agent", Some("agent"), false), arg("help", Some("help"), false), arg("version", Some("version"), false)],
        subcommands: vec![
            CommandInfo {
                name: "login".to_string(),
                about: None,
                args: vec![arg("help", Some("help"), false)],
                subcommands: vec![],
            },
            CommandInfo {
                name: "get".to_string(),
                about: Some("Get one".to_string()),
                args: vec![arg("id", None, true)],
                subcommands: vec![],
            },
        ],
    };
    let s = command_schema(&tree);
    assert_eq!(s.name, "konf");
    assert_eq!(s.about.as_deref(), Some("Konf CLI"));
    let args = s.arguments.expect("the agent flag is kept");
    assert_eq!(args.len(), 1);
    assert_eq!(args[0].name, "agent");
    assert_eq!(args[0].long.as_deref(), Some("agent"));
    assert_eq!(args[0].help.as_deref(), Some("agent help"));
    let subs = s.subcommands.expect("two subcommands");
    assert_eq!(subs.len(), 2);
    assert_eq!(subs[0].name, "login");
    assert!(subs[0].arguments.is_none());
    assert!(subs[0].subcommands.is_none());
    let get_args = subs[1].arguments.as_ref().expect("id argument");
    assert_eq!(get_args[0].name, "id");
    assert!(get_args[0].required);
    assert_eq!(get_args[0].long, None);
}
