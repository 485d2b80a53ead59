use vstd::prelude::*;

verus! {

/// A single selectable entry of the tray menu: a stable identifier, unique
/// per menu, and a human-readable label.
pub struct MenuItem {
    pub id: String,
    pub label: String,
}

/// A tray event as delivered by the host runtime: a click on a menu entry,
/// carrying that entry's identifier, or a click on the tray icon itself.
pub enum TrayEvent {
    MenuItemClick { id: String },
    IconLeftClick,
    IconRightClick,
    IconDoubleClick,
}

/// The process-level action a tray event calls for. The library never
/// terminates the process itself; it instructs its caller to.
#[derive(Clone, Copy, PartialEq, Eq, Structural, Debug)]
pub enum TrayAction {
    Exit { code: i32 },
    Ignore,
}

/// The controller's lifecycle: `Running` from construction until a quit
/// request, `Terminated` afterwards.
#[derive(Clone, Copy, PartialEq, Eq, Structural, Debug)]
pub enum ControllerState {
    Running,
    Terminated,
}

/// The identifier of the one menu entry.
pub open spec fn quit_id() -> Seq<char> {
    "quit"@
}

/// The label of the one menu entry.
pub open spec fn quit_label() -> Seq<char> {
    "Quit"@
}

/// Whether an event is a click on the quit entry.
pub open spec fn is_quit_click(e: TrayEvent) -> bool {
    e matches TrayEvent::MenuItemClick { id } && id@ == quit_id()
}

/// The action owed for an event: exit with code 0 on a click on the quit
/// entry, nothing for any other identifier or any other event kind.
pub open spec fn action_for(e: TrayEvent) -> TrayAction {
    if is_quit_click(e) {
        TrayAction::Exit { code: 0 }
    } else {
        TrayAction::Ignore
    }
}

/// The controller state after an event: a click on the quit entry
/// terminates, every other event leaves the state as it was.
pub open spec fn next_state(s: ControllerState, e: TrayEvent) -> ControllerState {
    if is_quit_click(e) {
        ControllerState::Terminated
    } else {
        s
    }
}

/// Owns the tray menu and translates tray events into actions.
pub struct TrayController {
    pub menu: Vec<MenuItem>,
    pub state: ControllerState,
}

impl TrayController {
    /// The menu is the fixed one: exactly one entry, the quit entry.
    pub open spec fn wf(self) -> bool {
        &&& self.menu@.len() == 1
        &&& self.menu@[0].id@ == quit_id()
        &&& self.menu@[0].label@ == quit_label()
    }

    /// Builds the controller: a menu holding the single quit entry, in the
    /// running state.
    pub fn initialize() -> (c: TrayController)
        ensures
            c.wf(),
            c.state == ControllerState::Running,
    {
        let item = MenuItem { id: "quit".to_owned(), label: "Quit".to_owned() };
        let mut menu: Vec<MenuItem> = Vec::new();
        menu.push(item);
        TrayController { menu, state: ControllerState::Running }
    }

    /// Consumes one tray event. A click on the quit entry asks the caller to
    /// terminate the process with exit code 0; any other identifier, and any
    /// other event kind, is silently discarded and changes nothing.
    pub fn on_event(&mut self, event: &TrayEvent) -> (action: TrayAction)
        ensures
            action == action_for(*event),
            final(self).state == next_state(old(self).state, *event),
            final(self).menu == old(self).menu,
            !is_quit_click(*event) ==> *final(self) == *old(self),
    {
        match event {
            TrayEvent::MenuItemClick { id } => {
                let quit: String = "quit".to_owned();
                if *id == quit {
                    self.state = ControllerState::Terminated;
                    TrayAction::Exit { code: 0 }
                } else {
                    TrayAction::Ignore
                }
            },
            _ => TrayAction::Ignore,
        }
    }
}

/// Law: the terminated state is terminal — no event leads back to running.
pub proof fn lemma_terminated_is_terminal(e: TrayEvent)
    ensures
        next_state(ControllerState::Terminated, e) == ControllerState::Terminated,
{
}

} // verus!
