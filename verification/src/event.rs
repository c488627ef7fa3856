//! What hooks report, and what an event asks of the session that it names.
use crate::session::State;
use crate::text::same_text;
use vstd::prelude::*;

verus! {

/// One event that a hook reported.
#[derive(Debug)]
pub struct HookEvent {
    pub hook_event_name: String,
    pub session_id: String,
    pub cwd: String,
    /// Where the session's transcript lies.
    pub transcript_path: Option<String>,
    /// Only on `Notification` events.
    pub notification_type: Option<String>,
    /// The subagent that reported, none when it was the main agent. A subagent
    /// shares its parent's `session_id`, so nothing else tells the two apart.
    pub agent_id: Option<String>,
    pub agent_type: Option<String>,
    /// The tool that starts or has returned.
    pub tool_name: Option<String>,
    /// Only on `BeaconTerminal` events, as are the next two.
    pub terminal_pid: Option<i32>,
    pub terminal_app: Option<String>,
    pub terminal_tty: Option<String>,
}

pub struct EventModel {
    pub hook_event_name: Seq<char>,
    pub session_id: Seq<char>,
    pub cwd: Seq<char>,
    /// The last component of `cwd`, as the platform reads it.
    pub cwd_name: Option<Seq<char>>,
    pub transcript_path: Option<Seq<char>>,
    pub notification_type: Option<Seq<char>>,
    pub agent_id: Option<Seq<char>>,
    pub agent_type: Option<Seq<char>>,
    pub tool_name: Option<Seq<char>>,
    pub terminal_pid: Option<i32>,
    pub terminal_app: Option<Seq<char>>,
    pub terminal_tty: Option<Seq<char>>,
}

impl EventModel {
    /// With the last component of its directory.
    pub open spec fn named(self, name: Option<Seq<char>>) -> EventModel {
        EventModel { cwd_name: name, ..self }
    }
}

impl View for HookEvent {
    type V = EventModel;

    open spec fn view(&self) -> EventModel {
        EventModel {
            hook_event_name: self.hook_event_name@,
            session_id: self.session_id@,
            cwd: self.cwd@,
            cwd_name: None,
            transcript_path: self.transcript_path.deep_view(),
            notification_type: self.notification_type.deep_view(),
            agent_id: self.agent_id.deep_view(),
            agent_type: self.agent_type.deep_view(),
            tool_name: self.tool_name.deep_view(),
            terminal_pid: self.terminal_pid,
            terminal_app: self.terminal_app.deep_view(),
            terminal_tty: self.terminal_tty.deep_view(),
        }
    }
}

impl Default for HookEvent {
    fn default() -> (r: HookEvent)
        ensures
            r@ == (EventModel {
                hook_event_name: Seq::empty(),
                session_id: Seq::empty(),
                cwd: Seq::empty(),
                cwd_name: None,
                transcript_path: None,
                notification_type: None,
                agent_id: None,
                agent_type: None,
                tool_name: None,
                terminal_pid: None,
                terminal_app: None,
                terminal_tty: None,
            }),
    {
        HookEvent {
            hook_event_name: String::new(),
            session_id: String::new(),
            cwd: String::new(),
            transcript_path: None,
            notification_type: None,
            agent_id: None,
            agent_type: None,
            tool_name: None,
            terminal_pid: None,
            terminal_app: None,
            terminal_tty: None,
        }
    }
}

/// What an event asks for.
#[derive(Clone, Copy, PartialEq, Eq, Debug, Structural)]
pub enum Signal {
    /// Nothing at all: the session is not even heard of.
    Nothing,
    /// A sign of life that leaves the state as it is.
    Beat,
    /// A fresh start.
    Start,
    /// A move into this state.
    Enter(State),
    /// A subagent has started.
    Spawn,
    /// The turn has ended.
    Finish,
    /// A subagent has stopped.
    Release,
    /// The terminal that hosts the session is known.
    Terminal,
    /// The session has ended.
    End,
}

/// Whether a tool halts on the user as soon as it starts.
pub open spec fn blocking(tool: Option<Seq<char>>) -> bool {
    tool == Some("AskUserQuestion"@) || tool == Some("ExitPlanMode"@)
}

/// What a notification of this type asks for. Only a genuine block needs the
/// user. The three types that fire because nothing happens are passed over; a
/// type that nobody has looked at is a sign of life.
pub open spec fn notification_signal(kind: Option<Seq<char>>) -> Signal {
    if kind == Some("permission_prompt"@) || kind == Some("elicitation_dialog"@) {
        Signal::Enter(State::NeedsYou)
    } else if kind == Some("idle_prompt"@) || kind == Some("auth_success"@) || kind == Some(
        "elicitation_complete"@,
    ) {
        Signal::Nothing
    } else {
        Signal::Beat
    }
}

/// Whether an event tells of a genuine block on the user.
pub open spec fn is_block(ev: EventModel) -> bool {
    ||| ev.hook_event_name == "Notification"@ && (ev.notification_type == Some(
        "permission_prompt"@,
    ) || ev.notification_type == Some("elicitation_dialog"@))
    ||| ev.hook_event_name == "PreToolUse"@ && blocking(ev.tool_name)
}

/// What an event asks for. Only the main agent moves a session to and fro; what
/// a subagent reports is a sign of life, but for a block, which is a block
/// whoever runs into it.
pub open spec fn signal(ev: EventModel) -> Signal {
    let name = ev.hook_event_name;
    let subagent = ev.agent_id is Some;
    if ev.session_id.len() == 0 && name != "SessionEnd"@ {
        Signal::Nothing
    } else if name == "SessionStart"@ {
        if subagent {
            Signal::Beat
        } else {
            Signal::Start
        }
    } else if name == "UserPromptSubmit"@ || name == "UserPromptExpansion"@ || name
        == "PreCompact"@ {
        if subagent {
            Signal::Beat
        } else {
            Signal::Enter(State::Working)
        }
    } else if name == "PreToolUse"@ {
        if blocking(ev.tool_name) {
            Signal::Enter(State::NeedsYou)
        } else if subagent {
            Signal::Beat
        } else {
            Signal::Enter(State::Working)
        }
    } else if name == "SubagentStart"@ {
        Signal::Spawn
    } else if name == "PostToolUse"@ {
        if !subagent && blocking(ev.tool_name) {
            Signal::Enter(State::Working)
        } else {
            Signal::Beat
        }
    } else if name == "PostToolUseFailure"@ || name == "PostToolBatch"@ {
        Signal::Beat
    } else if name == "Notification"@ {
        notification_signal(ev.notification_type)
    } else if name == "Stop"@ || name == "StopFailure"@ || name == "PostCompact"@ {
        if subagent {
            Signal::Beat
        } else {
            Signal::Finish
        }
    } else if name == "SubagentStop"@ {
        Signal::Release
    } else if name == "BeaconTerminal"@ {
        Signal::Terminal
    } else if name == "SessionEnd"@ {
        Signal::End
    } else {
        Signal::Nothing
    }
}

/// Whether an optional text is there and is this one.
fn is_text(s: &Option<String>, t: &str) -> (r: bool)
    ensures
        r == (s.deep_view() == Some(t@)),
{
    match s {
        Some(x) => same_text(x.as_str(), t),
        None => false,
    }
}

/// Whether a tool halts on the user as soon as it starts.
pub fn is_blocking_tool(tool_name: &Option<String>) -> (r: bool)
    ensures
        r == blocking(tool_name.deep_view()),
{
    is_text(tool_name, "AskUserQuestion") || is_text(tool_name, "ExitPlanMode")
}

fn signal_of_notification(kind: &Option<String>) -> (r: Signal)
    ensures
        r == notification_signal(kind.deep_view()),
{
    if is_text(kind, "permission_prompt") || is_text(kind, "elicitation_dialog") {
        Signal::Enter(State::NeedsYou)
    } else if is_text(kind, "idle_prompt") || is_text(kind, "auth_success") || is_text(
        kind,
        "elicitation_complete",
    ) {
        Signal::Nothing
    } else {
        Signal::Beat
    }
}

/// What an event asks for.
pub fn signal_of(ev: &HookEvent) -> (r: Signal)
    ensures
        r == signal(ev@),
{
    let name = ev.hook_event_name.as_str();
    let subagent = ev.agent_id.is_some();
    if ev.session_id.as_str().is_empty() && !same_text(name, "SessionEnd") {
        Signal::Nothing
    } else if same_text(name, "SessionStart") {
        if subagent {
            Signal::Beat
        } else {
            Signal::Start
        }
    } else if same_text(name, "UserPromptSubmit") || same_text(name, "UserPromptExpansion")
        || same_text(name, "PreCompact") {
        if subagent {
            Signal::Beat
        } else {
            Signal::Enter(State::Working)
        }
    } else if same_text(name, "PreToolUse") {
        if is_blocking_tool(&ev.tool_name) {
            Signal::Enter(State::NeedsYou)
        } else if subagent {
            Signal::Beat
        } else {
            Signal::Enter(State::Working)
        }
    } else if same_text(name, "SubagentStart") {
        Signal::Spawn
    } else if same_text(name, "PostToolUse") {
        if !subagent && is_blocking_tool(&ev.tool_name) {
            Signal::Enter(State::Working)
        } else {
            Signal::Beat
        }
    } else if same_text(name, "PostToolUseFailure") || same_text(name, "PostToolBatch") {
        Signal::Beat
    } else if same_text(name, "Notification") {
        signal_of_notification(&ev.notification_type)
    } else if same_text(name, "Stop") || same_text(name, "StopFailure") || same_text(
        name,
        "PostCompact",
    ) {
        if subagent {
            Signal::Beat
        } else {
            Signal::Finish
        }
    } else if same_text(name, "SubagentStop") {
        Signal::Release
    } else if same_text(name, "BeaconTerminal") {
        Signal::Terminal
    } else if same_text(name, "SessionEnd") {
        Signal::End
    } else {
        Signal::Nothing
    }
}

/// The names of the events that ask for anything.
pub open spec fn event_names() -> Seq<Seq<char>> {
    seq![
        "SessionStart"@,
        "UserPromptSubmit"@,
        "UserPromptExpansion"@,
        "PreCompact"@,
        "PreToolUse"@,
        "SubagentStart"@,
        "PostToolUse"@,
        "PostToolUseFailure"@,
        "PostToolBatch"@,
        "Notification"@,
        "Stop"@,
        "StopFailure"@,
        "PostCompact"@,
        "SubagentStop"@,
        "BeaconTerminal"@,
        "SessionEnd"@,
    ]
}

/// What each event asks for, by its name: the main agent's work, finish and
/// start move the session, a subagent's are signs of life, and the rest is the
/// same whoever reports it.
pub proof fn law_event_table(ev: EventModel)
    requires
        ev.session_id.len() > 0,
    ensures
        ({
            let name = ev.hook_event_name;
            let main = ev.agent_id is None;
            let works = if main {
                Signal::Enter(State::Working)
            } else {
                Signal::Beat
            };
            let finishes = if main {
                Signal::Finish
            } else {
                Signal::Beat
            };
            &&& name == "SessionStart"@ ==> signal(ev) == (if main {
                Signal::Start
            } else {
                Signal::Beat
            })
            &&& name == "UserPromptSubmit"@ ==> signal(ev) == works
            &&& name == "UserPromptExpansion"@ ==> signal(ev) == works
            &&& name == "PreCompact"@ ==> signal(ev) == works
            &&& name == "PreToolUse"@ ==> signal(ev) == (if blocking(ev.tool_name) {
                Signal::Enter(State::NeedsYou)
            } else {
                works
            })
            &&& name == "PostToolUse"@ ==> signal(ev) == (if blocking(ev.tool_name) {
                works
            } else {
                Signal::Beat
            })
            &&& name == "PostToolUseFailure"@ ==> signal(ev) == Signal::Beat
            &&& name == "PostToolBatch"@ ==> signal(ev) == Signal::Beat
            &&& name == "Stop"@ ==> signal(ev) == finishes
            &&& name == "StopFailure"@ ==> signal(ev) == finishes
            &&& name == "PostCompact"@ ==> signal(ev) == finishes
            &&& name == "SubagentStart"@ ==> signal(ev) == Signal::Spawn
            &&& name == "SubagentStop"@ ==> signal(ev) == Signal::Release
            &&& name == "Notification"@ ==> signal(ev) == notification_signal(ev.notification_type)
            &&& name == "BeaconTerminal"@ ==> signal(ev) == Signal::Terminal
            &&& name == "SessionEnd"@ ==> signal(ev) == Signal::End
        }),
{
    reveal_strlit("SessionStart");
    reveal_strlit("UserPromptSubmit");
    reveal_strlit("UserPromptExpansion");
    reveal_strlit("PreCompact");
    reveal_strlit("PreToolUse");
    reveal_strlit("SubagentStart");
    reveal_strlit("PostToolUse");
    reveal_strlit("PostToolUseFailure");
    reveal_strlit("PostToolBatch");
    reveal_strlit("Notification");
    reveal_strlit("Stop");
    reveal_strlit("StopFailure");
    reveal_strlit("PostCompact");
    reveal_strlit("SubagentStop");
    reveal_strlit("BeaconTerminal");
    reveal_strlit("SessionEnd");
    assert("SessionStart"@.len() == 12);
    assert("UserPromptSubmit"@.len() == 16);
    assert("UserPromptExpansion"@.len() == 19);
    assert("PreCompact"@.len() == 10);
    assert("PreToolUse"@.len() == 10);
    assert("SubagentStart"@.len() == 13);
    assert("PostToolUse"@.len() == 11);
    assert("PostToolUseFailure"@.len() == 18);
    assert("PostToolBatch"@.len() == 13);
    assert("Notification"@.len() == 12);
    assert("Stop"@.len() == 4);
    assert("StopFailure"@.len() == 11);
    assert("PostCompact"@.len() == 11);
    assert("SubagentStop"@.len() == 12);
    assert("BeaconTerminal"@.len() == 14);
    assert("SessionEnd"@.len() == 10);
    assert("SessionStart"@[0] != "Notification"@[0]);
    assert("SessionStart"@[1] != "SubagentStop"@[1]);
    assert("PreCompact"@[3] != "PreToolUse"@[3]);
    assert("PreCompact"@[0] != "SessionEnd"@[0]);
    assert("PreToolUse"@[0] != "SessionEnd"@[0]);
    assert("SubagentStart"@[0] != "PostToolBatch"@[0]);
    assert("PostToolUse"@[0] != "StopFailure"@[0]);
    assert("PostToolUse"@[4] != "PostCompact"@[4]);
    assert("Notification"@[0] != "SubagentStop"@[0]);
    assert("StopFailure"@[0] != "PostCompact"@[0]);
}

/// What a notification asks for, by its type.
pub proof fn law_notification_table()
    ensures
        notification_signal(Some("permission_prompt"@)) == Signal::Enter(State::NeedsYou),
        notification_signal(Some("elicitation_dialog"@)) == Signal::Enter(State::NeedsYou),
        notification_signal(Some("idle_prompt"@)) == Signal::Nothing,
        notification_signal(Some("auth_success"@)) == Signal::Nothing,
        notification_signal(Some("elicitation_complete"@)) == Signal::Nothing,
        notification_signal(None) == Signal::Beat,
{
    reveal_strlit("permission_prompt");
    reveal_strlit("elicitation_dialog");
    reveal_strlit("idle_prompt");
    reveal_strlit("auth_success");
    reveal_strlit("elicitation_complete");
    assert("permission_prompt"@.len() == 17);
    assert("elicitation_dialog"@.len() == 18);
    assert("idle_prompt"@.len() == 11);
    assert("auth_success"@.len() == 12);
    assert("elicitation_complete"@.len() == 20);
}

} // verus!
