//! What each event asks for, by what it carries.
use crate::event::{
    blocking, event_names, is_block, law_event_table, law_notification_table, notification_signal,
    signal, EventModel, Signal,
};
use crate::session::State;
use vstd::prelude::*;

verus! {

/// Whether a notification is one of those that fire because nothing happens.
pub open spec fn is_idle_notice(ev: EventModel) -> bool {
    &&& ev.hook_event_name == "Notification"@
    &&& {
        ||| ev.notification_type == Some("idle_prompt"@)
        ||| ev.notification_type == Some("auth_success"@)
        ||| ev.notification_type == Some("elicitation_complete"@)
    }
}

/// Whether an event carries one of the two tools that halt on the user.
pub open spec fn has_halting_tool(ev: EventModel) -> bool {
    ev.tool_name == Some("AskUserQuestion"@) || ev.tool_name == Some("ExitPlanMode"@)
}

/// Whether an event is a sign of its session, which goes on: it has a known name,
/// ends nothing, and is no notification that fires because nothing happens.
#[verifier::opaque]
pub open spec fn speaks(ev: EventModel) -> bool {
    &&& ev.session_id.len() > 0
    &&& event_names().contains(ev.hook_event_name)
    &&& ev.hook_event_name != "SessionEnd"@
    &&& !is_idle_notice(ev)
}

/// Two tools halt on the user, and no other does.
pub proof fn law_halting_tools(ev: EventModel)
    ensures
        blocking(ev.tool_name) <==> has_halting_tool(ev),
{
}

/// A block is a prompt for permission or for an answer, or the start of a tool
/// that halts on the user, and nothing else.
pub proof fn law_blocks(ev: EventModel)
    ensures
        is_block(ev) <==> {
            ||| ev.hook_event_name == "Notification"@ && ev.notification_type == Some(
                "permission_prompt"@,
            )
            ||| ev.hook_event_name == "Notification"@ && ev.notification_type == Some(
                "elicitation_dialog"@,
            )
            ||| ev.hook_event_name == "PreToolUse"@ && has_halting_tool(ev)
        },
{
}

/// The names of events are sixteen, and these.
pub proof fn law_event_names(name: Seq<char>)
    ensures
        event_names().contains(name) <==> {
            ||| name == "SessionStart"@
            ||| name == "UserPromptSubmit"@
            ||| name == "UserPromptExpansion"@
            ||| name == "PreCompact"@
            ||| name == "PreToolUse"@
            ||| name == "SubagentStart"@
            ||| name == "PostToolUse"@
            ||| name == "PostToolUseFailure"@
            ||| name == "PostToolBatch"@
            ||| name == "Notification"@
            ||| name == "Stop"@
            ||| name == "StopFailure"@
            ||| name == "PostCompact"@
            ||| name == "SubagentStop"@
            ||| name == "BeaconTerminal"@
            ||| name == "SessionEnd"@
        },
{
    let names = event_names();
    assert(forall|i: int| 0 <= i < names.len() ==> names.contains(#[trigger] names[i]));
    assert(names[0] == "SessionStart"@ && names[1] == "UserPromptSubmit"@ && names[2]
        == "UserPromptExpansion"@ && names[3] == "PreCompact"@);
    assert(names[4] == "PreToolUse"@ && names[5] == "SubagentStart"@ && names[6] == "PostToolUse"@
        && names[7] == "PostToolUseFailure"@);
    assert(names[8] == "PostToolBatch"@ && names[9] == "Notification"@ && names[10] == "Stop"@
        && names[11] == "StopFailure"@);
    assert(names[12] == "PostCompact"@ && names[13] == "SubagentStop"@ && names[14]
        == "BeaconTerminal"@ && names[15] == "SessionEnd"@);
    if names.contains(name) {
        let i = choose|i: int| 0 <= i < names.len() && names[i] == name;
        assert(names[i] == name);
    }
}

/// Exactly which events ask for what: each is told by its name, by who reports it,
/// and by the tool or the type of notification that it carries.
pub proof fn law_who_asks_for_what(ev: EventModel)
    requires
        ev.session_id.len() > 0,
    ensures
        ({
            let name = ev.hook_event_name;
            let main = ev.agent_id is None;
            let asks = signal(ev);
            &&& asks == Signal::Start <==> main && name == "SessionStart"@
            &&& asks == Signal::Enter(State::NeedsYou) <==> is_block(ev)
            &&& asks == Signal::Enter(State::Working) <==> main && {
                ||| name == "UserPromptSubmit"@
                ||| name == "UserPromptExpansion"@
                ||| name == "PreCompact"@
                ||| name == "PreToolUse"@ && !has_halting_tool(ev)
                ||| name == "PostToolUse"@ && has_halting_tool(ev)
            }
            &&& asks != Signal::Enter(State::Ready)
            &&& asks != Signal::Enter(State::WaitingReview)
            &&& asks == Signal::Finish <==> main && (name == "Stop"@ || name == "StopFailure"@
                || name == "PostCompact"@)
            &&& asks == Signal::Spawn <==> name == "SubagentStart"@
            &&& asks == Signal::Release <==> name == "SubagentStop"@
            &&& asks == Signal::Terminal <==> name == "BeaconTerminal"@
            &&& asks == Signal::End <==> name == "SessionEnd"@
            &&& asks == Signal::Nothing <==> !event_names().contains(name) || is_idle_notice(ev)
            &&& speaks(ev) <==> asks != Signal::Nothing && asks != Signal::End
        }),
{
    reveal(speaks);
    law_event_table(ev);
    law_notification_table();
    law_event_names(ev.hook_event_name);
}

/// An event that is a sign of its session asks for something.
pub proof fn lemma_speaks(ev: EventModel)
    requires
        speaks(ev),
    ensures
        ev.session_id.len() > 0,
        signal(ev) != Signal::Nothing,
        signal(ev) != Signal::End,
        signal(ev) == Signal::Terminal <==> ev.hook_event_name == "BeaconTerminal"@,
        signal(ev) == Signal::Spawn <==> ev.hook_event_name == "SubagentStart"@,
        signal(ev) == Signal::Release <==> ev.hook_event_name == "SubagentStop"@,
{
    reveal(speaks);
    law_who_asks_for_what(ev);
}

/// An event without a session asks for nothing, unless it is an end.
pub proof fn law_no_session_asks_for_nothing(ev: EventModel)
    requires
        ev.session_id.len() == 0,
        ev.hook_event_name != "SessionEnd"@,
    ensures
        signal(ev) == Signal::Nothing,
        !speaks(ev),
{
    reveal(speaks);
}

/// A notification of any type but five is a sign of life.
pub proof fn law_other_notifications(kind: Option<Seq<char>>)
    requires
        kind != Some("permission_prompt"@),
        kind != Some("elicitation_dialog"@),
        kind != Some("idle_prompt"@),
        kind != Some("auth_success"@),
        kind != Some("elicitation_complete"@),
    ensures
        notification_signal(kind) == Signal::Beat,
{
}

} // verus!
