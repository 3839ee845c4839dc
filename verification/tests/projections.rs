use cairn_store::projections::tools::tool_invocation_terminal_state_str;
use cairn_store::vocabulary::ToolInvocationOutcomeKind;

#[test]
fn canceled_tool_outcome_keeps_canceled_terminal_state() {
    let state = tool_invocation_terminal_state_str(ToolInvocationOutcomeKind::Canceled);
    assert_eq!(state, "canceled");
}

#[test]
fn failure_tool_outcome_keeps_failed_terminal_state() {
    let state = tool_invocation_terminal_state_str(ToolInvocationOutcomeKind::PermanentFailure);
    assert_eq!(state, "failed");
}
