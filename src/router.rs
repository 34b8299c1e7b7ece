//! The menu event router: a fixed table from menu identifiers to actions.
use vstd::prelude::*;
use crate::text::same_text;

verus! {

/// Identifier of the File > Logout item.
pub const MENU_FILE_LOGOUT_ID: &'static str = "file.logout";

/// Identifier of the File > Close Window item.
pub const MENU_FILE_CLOSE_WINDOW_ID: &'static str = "file.close_window";

/// Identifier of the File > Quit item.
pub const MENU_FILE_QUIT_ID: &'static str = "file.quit";

/// Identifier of the Edit > Preferences item.
pub const MENU_EDIT_PREFERENCES_ID: &'static str = "edit.preferences";

/// Name of the event sent to the content layer when Logout is chosen.
pub const LOGOUT_EVENT_NAME: &'static str = "desktop://menu/logout";

/// Name of the event sent to the content layer when Preferences is chosen.
pub const PREFERENCES_EVENT_NAME: &'static str = "desktop://menu/preferences";

/// Exit status of a process that ends through the Quit item.
pub const QUIT_EXIT_STATUS: i32 = 0;

/// An event that the router sends to the content layer, with a unit payload.
#[derive(Clone, Copy, Debug, PartialEq, Eq, Structural)]
pub enum ContentEvent {
    Logout,
    Preferences,
}

impl ContentEvent {
    /// The namespaced name under which the event is sent.
    pub open spec fn spec_name(self) -> Seq<char> {
        match self {
            ContentEvent::Logout => LOGOUT_EVENT_NAME@,
            ContentEvent::Preferences => PREFERENCES_EVENT_NAME@,
        }
    }

    pub fn name(&self) -> (r: String)
        ensures
            r@ == self.spec_name(),
    {
        match self {
            ContentEvent::Logout => LOGOUT_EVENT_NAME.to_owned(),
            ContentEvent::Preferences => PREFERENCES_EVENT_NAME.to_owned(),
        }
    }
}

/// What one menu activation asks for.
#[derive(Clone, Copy, Debug, PartialEq, Eq, Structural)]
pub enum MenuAction {
    /// Publish the event to the content layer, best effort.
    EmitToContent(ContentEvent),
    /// Close the focused window, if there is one.
    CloseFocusedWindow,
    /// End the process with the given status.
    Terminate(i32),
    /// Nothing: the identifier is not in the table.
    Ignore,
}

/// The dispatch table: the action bound to each identifier.
pub open spec fn route_spec(id: Seq<char>) -> MenuAction {
    if id == MENU_FILE_LOGOUT_ID@ {
        MenuAction::EmitToContent(ContentEvent::Logout)
    } else if id == MENU_FILE_CLOSE_WINDOW_ID@ {
        MenuAction::CloseFocusedWindow
    } else if id == MENU_FILE_QUIT_ID@ {
        MenuAction::Terminate(QUIT_EXIT_STATUS)
    } else if id == MENU_EDIT_PREFERENCES_ID@ {
        MenuAction::EmitToContent(ContentEvent::Preferences)
    } else {
        MenuAction::Ignore
    }
}

/// The identifiers that the table binds to an action, in menu order.
pub open spec fn registered_ids() -> Seq<Seq<char>> {
    seq![
        MENU_FILE_LOGOUT_ID@,
        MENU_FILE_CLOSE_WINDOW_ID@,
        MENU_FILE_QUIT_ID@,
        MENU_EDIT_PREFERENCES_ID@,
    ]
}

/// Looks up the action bound to a menu identifier; any identifier outside the
/// table maps to `Ignore`.
pub fn route(id: &str) -> (r: MenuAction)
    ensures
        r == route_spec(id@),
{
    if same_text(id, MENU_FILE_LOGOUT_ID) {
        MenuAction::EmitToContent(ContentEvent::Logout)
    } else if same_text(id, MENU_FILE_CLOSE_WINDOW_ID) {
        MenuAction::CloseFocusedWindow
    } else if same_text(id, MENU_FILE_QUIT_ID) {
        MenuAction::Terminate(QUIT_EXIT_STATUS)
    } else if same_text(id, MENU_EDIT_PREFERENCES_ID) {
        MenuAction::EmitToContent(ContentEvent::Preferences)
    } else {
        MenuAction::Ignore
    }
}

/// An event published to the content layer under a namespaced name; its
/// payload is unit.
#[derive(Clone, Debug)]
pub struct OutboundContentEvent {
    pub name: String,
}

/// What one menu activation asks of the world outside the router: events to
/// publish, a window to close (by label), a status to end the process with.
#[derive(Clone, Debug)]
pub struct MenuEffects {
    pub emitted: Vec<OutboundContentEvent>,
    pub close_window: Option<String>,
    pub exit_status: Option<i32>,
}

/// The effects of an activation as text.
pub struct EffectsModel {
    pub emitted: Seq<Seq<char>>,
    pub close_window: Option<Seq<char>>,
    pub exit_status: Option<i32>,
}

impl View for MenuEffects {
    type V = EffectsModel;

    open spec fn view(&self) -> EffectsModel {
        EffectsModel {
            emitted: self.emitted@.map_values(|e: OutboundContentEvent| e.name@),
            close_window: match self.close_window {
                Some(w) => Some(w@),
                None => None,
            },
            exit_status: self.exit_status,
        }
    }
}

/// The text of an optional window label.
pub open spec fn label_of(w: Option<&str>) -> Option<Seq<char>> {
    match w {
        Some(l) => Some(l@),
        None => None,
    }
}

/// No event, no window, no exit.
pub open spec fn no_effects() -> EffectsModel {
    EffectsModel { emitted: Seq::empty(), close_window: None, exit_status: None }
}

/// The effects of an action, given the label of the focused window, if any.
pub open spec fn effects_of(action: MenuAction, focused: Option<Seq<char>>) -> EffectsModel {
    match action {
        MenuAction::EmitToContent(ev) => EffectsModel {
            emitted: seq![ev.spec_name()],
            close_window: None,
            exit_status: None,
        },
        MenuAction::CloseFocusedWindow => EffectsModel {
            emitted: Seq::empty(),
            close_window: focused,
            exit_status: None,
        },
        MenuAction::Terminate(status) => EffectsModel {
            emitted: Seq::empty(),
            close_window: None,
            exit_status: Some(status),
        },
        MenuAction::Ignore => no_effects(),
    }
}

/// Handles one menu activation: looks up its identifier and says what is to
/// be done, given the label of the focused window, if any.
pub fn dispatch(id: &str, focused_window: Option<&str>) -> (r: MenuEffects)
    ensures
        r@ == effects_of(route_spec(id@), label_of(focused_window)),
{
    let r = match route(id) {
        MenuAction::EmitToContent(ev) => {
            let emitted = vec![OutboundContentEvent { name: ev.name() }];
            MenuEffects { emitted, close_window: None, exit_status: None }
        },
        MenuAction::CloseFocusedWindow => {
            let close_window = match focused_window {
                Some(l) => Some(l.to_owned()),
                None => None,
            };
            MenuEffects { emitted: Vec::new(), close_window, exit_status: None }
        },
        MenuAction::Terminate(status) => {
            MenuEffects { emitted: Vec::new(), close_window: None, exit_status: Some(status) }
        },
        MenuAction::Ignore => MenuEffects { emitted: Vec::new(), close_window: None, exit_status: None },
    };
    assert(r@.emitted =~= effects_of(route_spec(id@), label_of(focused_window)).emitted);
    r
}

/// The four identifiers of the table are pairwise distinct, and so are the
/// names of the two content events.
pub proof fn lemma_table_keys_distinct()
    ensures
        registered_ids().no_duplicates(),
        LOGOUT_EVENT_NAME@ != PREFERENCES_EVENT_NAME@,
{
    reveal_strlit("file.logout");
    reveal_strlit("file.close_window");
    reveal_strlit("file.quit");
    reveal_strlit("edit.preferences");
    reveal_strlit("desktop://menu/logout");
    reveal_strlit("desktop://menu/preferences");
    let ids = registered_ids();
    assert(ids[0].len() == 11);
    assert(ids[1].len() == 17);
    assert(ids[2].len() == 9);
    assert(ids[3].len() == 16);
    assert(LOGOUT_EVENT_NAME@.len() != PREFERENCES_EVENT_NAME@.len());
}

/// Dispatching an identifier of the table has exactly the effect bound to it,
/// and no other: one event for Logout and Preferences, the focused window
/// (if any) for Close Window, exit status 0 for Quit.
pub proof fn lemma_registered_dispatch(id: Seq<char>, focused: Option<Seq<char>>)
    requires
        registered_ids().contains(id),
    ensures
        id == MENU_FILE_LOGOUT_ID@ ==> effects_of(route_spec(id), focused) == (EffectsModel {
            emitted: seq![LOGOUT_EVENT_NAME@],
            close_window: None,
            exit_status: None,
        }),
        id == MENU_EDIT_PREFERENCES_ID@ ==> effects_of(route_spec(id), focused) == (EffectsModel {
            emitted: seq![PREFERENCES_EVENT_NAME@],
            close_window: None,
            exit_status: None,
        }),
        id == MENU_FILE_CLOSE_WINDOW_ID@ ==> effects_of(route_spec(id), focused) == (EffectsModel {
            emitted: Seq::empty(),
            close_window: focused,
            exit_status: None,
        }),
        id == MENU_FILE_QUIT_ID@ ==> effects_of(route_spec(id), focused) == (EffectsModel {
            emitted: Seq::empty(),
            close_window: None,
            exit_status: Some(0),
        }),
{
    lemma_table_keys_distinct();
    let ids = registered_ids();
    assert(ids[0] == MENU_FILE_LOGOUT_ID@ && ids[1] == MENU_FILE_CLOSE_WINDOW_ID@);
    assert(ids[2] == MENU_FILE_QUIT_ID@ && ids[3] == MENU_EDIT_PREFERENCES_ID@);
}

/// Dispatching an identifier outside the table does nothing: no event, no
/// window, no exit.
pub proof fn lemma_unregistered_dispatch_is_noop(id: Seq<char>, focused: Option<Seq<char>>)
    requires
        !registered_ids().contains(id),
    ensures
        route_spec(id) == MenuAction::Ignore,
        effects_of(route_spec(id), focused) == no_effects(),
{
    let ids = registered_ids();
    assert(ids[0] == MENU_FILE_LOGOUT_ID@ && ids[1] == MENU_FILE_CLOSE_WINDOW_ID@);
    assert(ids[2] == MENU_FILE_QUIT_ID@ && ids[3] == MENU_EDIT_PREFERENCES_ID@);
    if id == MENU_FILE_LOGOUT_ID@ {
        assert(ids.contains(id));
    } else if id == MENU_FILE_CLOSE_WINDOW_ID@ {
        assert(ids.contains(id));
    } else if id == MENU_FILE_QUIT_ID@ {
        assert(ids.contains(id));
    } else if id == MENU_EDIT_PREFERENCES_ID@ {
        assert(ids.contains(id));
    }
}

/// The effects of each activation in a run of activations, one after another.
pub open spec fn dispatch_trace(ids: Seq<Seq<char>>, focused: Option<Seq<char>>) -> Seq<EffectsModel> {
    ids.map_values(|id: Seq<char>| effects_of(route_spec(id), focused))
}

/// Logout and Preferences are independent and keep no state: in any run of
/// activations, each Logout publishes exactly the logout event and never the
/// preferences event, and each Preferences the reverse, however often and in
/// whatever order either came before.
pub proof fn lemma_logout_preferences_independent(ids: Seq<Seq<char>>, focused: Option<Seq<char>>)
    ensures
        forall|i: int|
            0 <= i < ids.len() && #[trigger] ids[i] == MENU_FILE_LOGOUT_ID@ ==> {
                &&& dispatch_trace(ids, focused)[i].emitted == seq![LOGOUT_EVENT_NAME@]
                &&& !dispatch_trace(ids, focused)[i].emitted.contains(PREFERENCES_EVENT_NAME@)
                &&& dispatch_trace(ids, focused)[i].close_window is None
                &&& dispatch_trace(ids, focused)[i].exit_status is None
            },
        forall|i: int|
            0 <= i < ids.len() && #[trigger] ids[i] == MENU_EDIT_PREFERENCES_ID@ ==> {
                &&& dispatch_trace(ids, focused)[i].emitted == seq![PREFERENCES_EVENT_NAME@]
                &&& !dispatch_trace(ids, focused)[i].emitted.contains(LOGOUT_EVENT_NAME@)
                &&& dispatch_trace(ids, focused)[i].close_window is None
                &&& dispatch_trace(ids, focused)[i].exit_status is None
            },
{
    lemma_table_keys_distinct();
    let trace = dispatch_trace(ids, focused);
    assert forall|i: int|
        0 <= i < ids.len() && #[trigger] ids[i] == MENU_FILE_LOGOUT_ID@ implies {
            &&& trace[i].emitted == seq![LOGOUT_EVENT_NAME@]
            &&& !trace[i].emitted.contains(PREFERENCES_EVENT_NAME@)
        } by {
        lemma_registered_dispatch(ids[i], focused);
        assert(registered_ids()[0] == ids[i]);
        assert(trace[i].emitted[0] != PREFERENCES_EVENT_NAME@);
    }
    assert forall|i: int|
        0 <= i < ids.len() && #[trigger] ids[i] == MENU_EDIT_PREFERENCES_ID@ implies {
            &&& trace[i].emitted == seq![PREFERENCES_EVENT_NAME@]
            &&& !trace[i].emitted.contains(LOGOUT_EVENT_NAME@)
        } by {
        lemma_registered_dispatch(ids[i], focused);
        assert(registered_ids()[3] == ids[i]);
        assert(trace[i].emitted[0] != LOGOUT_EVENT_NAME@);
    }
}

} // verus!
