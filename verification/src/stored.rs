//! The names under which buttons, actions and directions are stored, and how a stored
//! binding is told apart.
//!
//! An action is stored as its name, or, where it carries something, as a table
//! with its name as the only key. A gesture binding is stored as a table whose
//! keys are the names of directions. Nothing marks a table as the one or the
//! other: what tells them apart is that no action has the name of a direction.
//!
//! The names are part of the file format, so they never change.
use vstd::prelude::*;
use crate::binding::{Action, BindingView, ButtonId, GestureDirection};
use crate::chord::KeyCombo;
use crate::text::{spells, to_chars};

verus! {

impl Action {
    /// The name under which the action is stored.
    pub open spec fn name_text(self) -> Seq<char> {
        match self {
            Action::DoNothing => "None"@,
            Action::LeftClick => "LeftClick"@,
            Action::RightClick => "RightClick"@,
            Action::MiddleClick => "MiddleClick"@,
            Action::MouseBack => "MouseBack"@,
            Action::MouseForward => "MouseForward"@,
            Action::Copy => "Copy"@,
            Action::Paste => "Paste"@,
            Action::Cut => "Cut"@,
            Action::Undo => "Undo"@,
            Action::Redo => "Redo"@,
            Action::SelectAll => "SelectAll"@,
            Action::Find => "Find"@,
            Action::Save => "Save"@,
            Action::BrowserBack => "BrowserBack"@,
            Action::BrowserForward => "BrowserForward"@,
            Action::NewTab => "NewTab"@,
            Action::CloseTab => "CloseTab"@,
            Action::ReopenTab => "ReopenTab"@,
            Action::NextTab => "NextTab"@,
            Action::PrevTab => "PrevTab"@,
            Action::ReloadPage => "ReloadPage"@,
            Action::MissionControl => "MissionControl"@,
            Action::AppExpose => "AppExpose"@,
            Action::PreviousDesktop => "PreviousDesktop"@,
            Action::NextDesktop => "NextDesktop"@,
            Action::ShowDesktop => "ShowDesktop"@,
            Action::LaunchpadShow => "LaunchpadShow"@,
            Action::LockScreen => "LockScreen"@,
            Action::Screenshot => "Screenshot"@,
            Action::CaptureRegion => "CaptureRegion"@,
            Action::PlayPause => "PlayPause"@,
            Action::NextTrack => "NextTrack"@,
            Action::PrevTrack => "PrevTrack"@,
            Action::VolumeUp => "VolumeUp"@,
            Action::VolumeDown => "VolumeDown"@,
            Action::MuteVolume => "MuteVolume"@,
            Action::CycleDpiPresets => "CycleDpiPresets"@,
            Action::SetDpiPreset(_) => "SetDpiPreset"@,
            Action::ToggleSmartShift => "ToggleSmartShift"@,
            Action::ScrollUp => "ScrollUp"@,
            Action::ScrollDown => "ScrollDown"@,
            Action::HorizontalScrollLeft => "HorizontalScrollLeft"@,
            Action::HorizontalScrollRight => "HorizontalScrollRight"@,
            Action::CustomShortcut(_) => "CustomShortcut"@,
        }
    }

    /// Whether the action carries something.
    pub open spec fn has_payload(self) -> bool {
        self is SetDpiPreset || self is CustomShortcut
    }

    /// The name under which the action is stored.
    #[must_use]
    pub fn stored_name(&self) -> (r: &'static str)
        ensures
            r@ == self.name_text(),
    {
        match self {
            Action::DoNothing => "None",
            Action::LeftClick => "LeftClick",
            Action::RightClick => "RightClick",
            Action::MiddleClick => "MiddleClick",
            Action::MouseBack => "MouseBack",
            Action::MouseForward => "MouseForward",
            Action::Copy => "Copy",
            Action::Paste => "Paste",
            Action::Cut => "Cut",
            Action::Undo => "Undo",
            Action::Redo => "Redo",
            Action::SelectAll => "SelectAll",
            Action::Find => "Find",
            Action::Save => "Save",
            Action::BrowserBack => "BrowserBack",
            Action::BrowserForward => "BrowserForward",
            Action::NewTab => "NewTab",
            Action::CloseTab => "CloseTab",
            Action::ReopenTab => "ReopenTab",
            Action::NextTab => "NextTab",
            Action::PrevTab => "PrevTab",
            Action::ReloadPage => "ReloadPage",
            Action::MissionControl => "MissionControl",
            Action::AppExpose => "AppExpose",
            Action::PreviousDesktop => "PreviousDesktop",
            Action::NextDesktop => "NextDesktop",
            Action::ShowDesktop => "ShowDesktop",
            Action::LaunchpadShow => "LaunchpadShow",
            Action::LockScreen => "LockScreen",
            Action::Screenshot => "Screenshot",
            Action::CaptureRegion => "CaptureRegion",
            Action::PlayPause => "PlayPause",
            Action::NextTrack => "NextTrack",
            Action::PrevTrack => "PrevTrack",
            Action::VolumeUp => "VolumeUp",
            Action::VolumeDown => "VolumeDown",
            Action::MuteVolume => "MuteVolume",
            Action::CycleDpiPresets => "CycleDpiPresets",
            Action::SetDpiPreset(_) => "SetDpiPreset",
            Action::ToggleSmartShift => "ToggleSmartShift",
            Action::ScrollUp => "ScrollUp",
            Action::ScrollDown => "ScrollDown",
            Action::HorizontalScrollLeft => "HorizontalScrollLeft",
            Action::HorizontalScrollRight => "HorizontalScrollRight",
            Action::CustomShortcut(_) => "CustomShortcut",
        }
    }

    /// The action with a stored name, where it is one that carries nothing.
    #[must_use]
    pub fn from_stored_name(name: &str) -> (r: Option<Action>)
        ensures
            match r {
                Some(action) => !action.has_payload() && action.name_text() == name@,
                None => forall|action: Action|
                    !action.has_payload() ==> #[trigger] action.name_text() != name@,
            },
    {
        let chars = to_chars(name);
        if spells(&chars, "None") {
            Some(Action::DoNothing)
        } else if spells(&chars, "LeftClick") {
            Some(Action::LeftClick)
        } else if spells(&chars, "RightClick") {
            Some(Action::RightClick)
        } else if spells(&chars, "MiddleClick") {
            Some(Action::MiddleClick)
        } else if spells(&chars, "MouseBack") {
            Some(Action::MouseBack)
        } else if spells(&chars, "MouseForward") {
            Some(Action::MouseForward)
        } else if spells(&chars, "Copy") {
            Some(Action::Copy)
        } else if spells(&chars, "Paste") {
            Some(Action::Paste)
        } else if spells(&chars, "Cut") {
            Some(Action::Cut)
        } else if spells(&chars, "Undo") {
            Some(Action::Undo)
        } else if spells(&chars, "Redo") {
            Some(Action::Redo)
        } else if spells(&chars, "SelectAll") {
            Some(Action::SelectAll)
        } else if spells(&chars, "Find") {
            Some(Action::Find)
        } else if spells(&chars, "Save") {
            Some(Action::Save)
        } else if spells(&chars, "BrowserBack") {
            Some(Action::BrowserBack)
        } else if spells(&chars, "BrowserForward") {
            Some(Action::BrowserForward)
        } else if spells(&chars, "NewTab") {
            Some(Action::NewTab)
        } else if spells(&chars, "CloseTab") {
            Some(Action::CloseTab)
        } else if spells(&chars, "ReopenTab") {
            Some(Action::ReopenTab)
        } else if spells(&chars, "NextTab") {
            Some(Action::NextTab)
        } else if spells(&chars, "PrevTab") {
            Some(Action::PrevTab)
        } else if spells(&chars, "ReloadPage") {
            Some(Action::ReloadPage)
        } else if spells(&chars, "MissionControl") {
            Some(Action::MissionControl)
        } else if spells(&chars, "AppExpose") {
            Some(Action::AppExpose)
        } else if spells(&chars, "PreviousDesktop") {
            Some(Action::PreviousDesktop)
        } else if spells(&chars, "NextDesktop") {
            Some(Action::NextDesktop)
        } else if spells(&chars, "ShowDesktop") {
            Some(Action::ShowDesktop)
        } else if spells(&chars, "LaunchpadShow") {
            Some(Action::LaunchpadShow)
        } else if spells(&chars, "LockScreen") {
            Some(Action::LockScreen)
        } else if spells(&chars, "Screenshot") {
            Some(Action::Screenshot)
        } else if spells(&chars, "CaptureRegion") {
            Some(Action::CaptureRegion)
        } else if spells(&chars, "PlayPause") {
            Some(Action::PlayPause)
        } else if spells(&chars, "NextTrack") {
            Some(Action::NextTrack)
        } else if spells(&chars, "PrevTrack") {
            Some(Action::PrevTrack)
        } else if spells(&chars, "VolumeUp") {
            Some(Action::VolumeUp)
        } else if spells(&chars, "VolumeDown") {
            Some(Action::VolumeDown)
        } else if spells(&chars, "MuteVolume") {
            Some(Action::MuteVolume)
        } else if spells(&chars, "CycleDpiPresets") {
            Some(Action::CycleDpiPresets)
        } else if spells(&chars, "ToggleSmartShift") {
            Some(Action::ToggleSmartShift)
        } else if spells(&chars, "ScrollUp") {
            Some(Action::ScrollUp)
        } else if spells(&chars, "ScrollDown") {
            Some(Action::ScrollDown)
        } else if spells(&chars, "HorizontalScrollLeft") {
            Some(Action::HorizontalScrollLeft)
        } else if spells(&chars, "HorizontalScrollRight") {
            Some(Action::HorizontalScrollRight)
        } else {
            None
        }
    }
}

impl ButtonId {
    /// The name under which the button is stored.
    pub open spec fn name_text(self) -> Seq<char> {
        match self {
            ButtonId::LeftClick => "LeftClick"@,
            ButtonId::RightClick => "RightClick"@,
            ButtonId::MiddleClick => "MiddleClick"@,
            ButtonId::Back => "Back"@,
            ButtonId::Forward => "Forward"@,
            ButtonId::DpiToggle => "DpiToggle"@,
            ButtonId::Thumbwheel => "Thumbwheel"@,
            ButtonId::ThumbwheelScrollUp => "ThumbwheelScrollUp"@,
            ButtonId::ThumbwheelScrollDown => "ThumbwheelScrollDown"@,
            ButtonId::GestureButton => "GestureButton"@,
        }
    }

    /// The name under which the button is stored.
    #[must_use]
    pub fn stored_name(self) -> (r: &'static str)
        ensures
            r@ == self.name_text(),
    {
        match self {
            ButtonId::LeftClick => "LeftClick",
            ButtonId::RightClick => "RightClick",
            ButtonId::MiddleClick => "MiddleClick",
            ButtonId::Back => "Back",
            ButtonId::Forward => "Forward",
            ButtonId::DpiToggle => "DpiToggle",
            ButtonId::Thumbwheel => "Thumbwheel",
            ButtonId::ThumbwheelScrollUp => "ThumbwheelScrollUp",
            ButtonId::ThumbwheelScrollDown => "ThumbwheelScrollDown",
            ButtonId::GestureButton => "GestureButton",
        }
    }

    /// The button with a stored name.
    #[must_use]
    pub fn from_stored_name(name: &str) -> (r: Option<ButtonId>)
        ensures
            match r {
                Some(button) => button.name_text() == name@,
                None => forall|button: ButtonId| #[trigger] button.name_text() != name@,
            },
    {
        let chars = to_chars(name);
        if spells(&chars, "LeftClick") {
            Some(ButtonId::LeftClick)
        } else if spells(&chars, "RightClick") {
            Some(ButtonId::RightClick)
        } else if spells(&chars, "MiddleClick") {
            Some(ButtonId::MiddleClick)
        } else if spells(&chars, "Back") {
            Some(ButtonId::Back)
        } else if spells(&chars, "Forward") {
            Some(ButtonId::Forward)
        } else if spells(&chars, "DpiToggle") {
            Some(ButtonId::DpiToggle)
        } else if spells(&chars, "Thumbwheel") {
            Some(ButtonId::Thumbwheel)
        } else if spells(&chars, "ThumbwheelScrollUp") {
            Some(ButtonId::ThumbwheelScrollUp)
        } else if spells(&chars, "ThumbwheelScrollDown") {
            Some(ButtonId::ThumbwheelScrollDown)
        } else if spells(&chars, "GestureButton") {
            Some(ButtonId::GestureButton)
        } else {
            None
        }
    }
}

impl GestureDirection {
    /// The direction with a stored name, which is its label.
    #[must_use]
    pub fn from_stored_name(name: &str) -> (r: Option<GestureDirection>)
        ensures
            match r {
                Some(direction) => direction.label_text() == name@,
                None => forall|direction: GestureDirection| #[trigger]
                    direction.label_text() != name@,
            },
    {
        let chars = to_chars(name);
        if spells(&chars, "Up") {
            Some(GestureDirection::Up)
        } else if spells(&chars, "Down") {
            Some(GestureDirection::Down)
        } else if spells(&chars, "Left") {
            Some(GestureDirection::Left)
        } else if spells(&chars, "Right") {
            Some(GestureDirection::Right)
        } else if spells(&chars, "Click") {
            Some(GestureDirection::Click)
        } else {
            None
        }
    }
}

// ---------------------------------------------------------------------------
// Telling bindings apart
// ---------------------------------------------------------------------------

/// What shows of a stored binding without looking into it.
#[derive(Debug)]
pub enum Shape {
    /// A text.
    Text(String),
    /// A table with these keys.
    Table(Vec<String>),
    /// Anything else.
    Other,
}

/// What a [`Shape`] stands for.
pub enum ShapeView {
    Text(Seq<char>),
    Table(Seq<Seq<char>>),
    Other,
}

impl View for Shape {
    type V = ShapeView;

    open spec fn view(&self) -> ShapeView {
        match self {
            Shape::Text(text) => ShapeView::Text(text@),
            Shape::Table(keys) => ShapeView::Table(keys@.map_values(|key: String| key@)),
            Shape::Other => ShapeView::Other,
        }
    }
}

/// What a stored binding is to be read as.
#[derive(Debug, Clone, Copy, PartialEq, Eq, Structural)]
pub enum Route {
    /// A single action.
    Single,
    /// A direction map.
    Gesture,
    /// Neither.
    Refused,
}

/// Whether an action that carries nothing has this name.
pub open spec fn names_plain_action(name: Seq<char>) -> bool {
    exists|action: Action| !action.has_payload() && #[trigger] action.name_text() == name
}

/// Whether an action has this name.
pub open spec fn names_action(name: Seq<char>) -> bool {
    exists|action: Action| #[trigger] action.name_text() == name
}

/// Whether a direction has this name.
pub open spec fn names_direction(name: Seq<char>) -> bool {
    exists|direction: GestureDirection| #[trigger] direction.label_text() == name
}

/// What a stored binding of a shape is to be read as.
pub open spec fn route_of(shape: ShapeView) -> Route {
    match shape {
        ShapeView::Text(text) => if names_plain_action(text) {
            Route::Single
        } else {
            Route::Refused
        },
        ShapeView::Table(keys) => if keys.len() == 1 && names_action(keys[0]) {
            Route::Single
        } else if forall|i: int| 0 <= i < keys.len() ==> names_direction(#[trigger] keys[i]) {
            Route::Gesture
        } else {
            Route::Refused
        },
        ShapeView::Other => Route::Refused,
    }
}

fn is_action_name(name: &str) -> (r: bool)
    ensures
        r == names_action(name@),
{
    let chars = to_chars(name);
    if spells(&chars, "SetDpiPreset") {
        assert(Action::SetDpiPreset(0).name_text() == name@);
        return true;
    }
    if spells(&chars, "CustomShortcut") {
        proof {
            let combo: KeyCombo = arbitrary();
            assert(Action::CustomShortcut(combo).name_text() == name@);
        }
        return true;
    }
    match Action::from_stored_name(name) {
        Some(action) => {
            assert(action.name_text() == name@);
            true
        },
        None => false,
    }
}

/// What a stored binding is to be read as: a text is an action, and so is a table
/// whose only key is an action's name; a table of directions is a gesture binding.
#[must_use]
pub fn route(shape: &Shape) -> (r: Route)
    ensures
        r == route_of(shape@),
{
    match shape {
        Shape::Text(text) => match Action::from_stored_name(text.as_str()) {
            Some(action) => {
                assert(action.name_text() == text@);
                Route::Single
            },
            None => Route::Refused,
        },
        Shape::Table(keys) => {
            let ghost names = keys@.map_values(|key: String| key@);
            if keys.len() == 1 && is_action_name(keys[0].as_str()) {
                return Route::Single;
            }
            let mut i: usize = 0;
            while i < keys.len()
                invariant
                    i <= keys@.len(),
                    names == keys@.map_values(|key: String| key@),
                    shape@ == ShapeView::Table(names),
                    !(names.len() == 1 && names_action(names[0])),
                    forall|j: int| 0 <= j < i ==> names_direction(#[trigger] names[j]),
                decreases keys@.len() - i,
            {
                match GestureDirection::from_stored_name(keys[i].as_str()) {
                    Some(direction) => {
                        assert(direction.label_text() == names[i as int]);
                    },
                    None => {
                        assert(!names_direction(names[i as int]));
                        return Route::Refused;
                    },
                }
                i = i + 1;
            }
            Route::Gesture
        },
        Shape::Other => Route::Refused,
    }
}

// ---------------------------------------------------------------------------
// Laws
// ---------------------------------------------------------------------------

/// A number that is different for every stored name.
spec fn imprint(name: Seq<char>) -> int {
    name.len() + 13 * (name[0] as int) + 64 * (name.last() as int) + name[name.len() as int
        / 2] as int
}

spec fn action_imprint(action: Action) -> int {
    match action {
        Action::DoNothing => 7592,
        Action::LeftClick => 7912,
        Action::RightClick => 7991,
        Action::MiddleClick => 7961,
        Action::MouseBack => 7959,
        Action::MouseForward => 7524,
        Action::Copy => 8731,
        Action::Paste => 7624,
        Action::Cut => 8415,
        Action::Undo => 8313,
        Action::Redo => 8274,
        Action::SelectAll => 8099,
        Action::Find => 7424,
        Action::Save => 7665,
        Action::BrowserBack => 7818,
        Action::BrowserForward => 7342,
        Action::NewTab => 7376,
        Action::CloseTab => 7252,
        Action::ReopenTab => 7448,
        Action::NextTab => 7409,
        Action::PrevTab => 7437,
        Action::ReloadPage => 7640,
        Action::MissionControl => 7994,
        Action::AppExpose => 7438,
        Action::PreviousDesktop => 8338,
        Action::NextDesktop => 8294,
        Action::ShowDesktop => 8359,
        Action::LaunchpadShow => 8729,
        Action::LockScreen => 8137,
        Action::Screenshot => 8623,
        Action::CaptureRegion => 8025,
        Action::PlayPause => 7593,
        Action::NextTrack => 7955,
        Action::PrevTrack => 7981,
        Action::VolumeUp => 8403,
        Action::VolumeDown => 8269,
        Action::MuteVolume => 7586,
        Action::CycleDpiPresets => 8351,
        Action::SetDpiPreset(_) => 8595,
        Action::ToggleSmartShift => 8629,
        Action::ScrollUp => 8363,
        Action::ScrollDown => 8237,
        Action::HorizontalScrollLeft => 8463,
        Action::HorizontalScrollRight => 8464,
        Action::CustomShortcut(_) => 8413,
    }
}

spec fn direction_imprint(direction: GestureDirection) -> int {
    match direction {
        GestureDirection::Up => 8387,
        GestureDirection::Down => 8047,
        GestureDirection::Left => 8518,
        GestureDirection::Right => 8598,
        GestureDirection::Click => 7829,
    }
}

proof fn lemma_imprints(action: Action, direction: GestureDirection)
    ensures
        imprint(action.name_text()) == action_imprint(action),
        imprint(direction.label_text()) == direction_imprint(direction),
{
    reveal_strlit("None");
    reveal_strlit("LeftClick");
    reveal_strlit("RightClick");
    reveal_strlit("MiddleClick");
    reveal_strlit("MouseBack");
    reveal_strlit("MouseForward");
    reveal_strlit("Copy");
    reveal_strlit("Paste");
    reveal_strlit("Cut");
    reveal_strlit("Undo");
    reveal_strlit("Redo");
    reveal_strlit("SelectAll");
    reveal_strlit("Find");
    reveal_strlit("Save");
    reveal_strlit("BrowserBack");
    reveal_strlit("BrowserForward");
    reveal_strlit("NewTab");
    reveal_strlit("CloseTab");
    reveal_strlit("ReopenTab");
    reveal_strlit("NextTab");
    reveal_strlit("PrevTab");
    reveal_strlit("ReloadPage");
    reveal_strlit("MissionControl");
    reveal_strlit("AppExpose");
    reveal_strlit("PreviousDesktop");
    reveal_strlit("NextDesktop");
    reveal_strlit("ShowDesktop");
    reveal_strlit("LaunchpadShow");
    reveal_strlit("LockScreen");
    reveal_strlit("Screenshot");
    reveal_strlit("CaptureRegion");
    reveal_strlit("PlayPause");
    reveal_strlit("NextTrack");
    reveal_strlit("PrevTrack");
    reveal_strlit("VolumeUp");
    reveal_strlit("VolumeDown");
    reveal_strlit("MuteVolume");
    reveal_strlit("CycleDpiPresets");
    reveal_strlit("SetDpiPreset");
    reveal_strlit("ToggleSmartShift");
    reveal_strlit("ScrollUp");
    reveal_strlit("ScrollDown");
    reveal_strlit("HorizontalScrollLeft");
    reveal_strlit("HorizontalScrollRight");
    reveal_strlit("CustomShortcut");
    reveal_strlit("Up");
    reveal_strlit("Down");
    reveal_strlit("Left");
    reveal_strlit("Right");
    reveal_strlit("Click");
}

spec fn button_imprint(button: ButtonId) -> int {
    match button {
        ButtonId::LeftClick => 7912,
        ButtonId::RightClick => 7991,
        ButtonId::MiddleClick => 7961,
        ButtonId::Back => 7809,
        ButtonId::Forward => 7436,
        ButtonId::DpiToggle => 7468,
        ButtonId::Thumbwheel => 8133,
        ButtonId::ThumbwheelScrollUp => 8386,
        ButtonId::ThumbwheelScrollDown => 8235,
        ButtonId::GestureButton => 8077,
    }
}

proof fn lemma_button_imprint(button: ButtonId)
    ensures
        imprint(button.name_text()) == button_imprint(button),
{
    reveal_strlit("LeftClick");
    reveal_strlit("RightClick");
    reveal_strlit("MiddleClick");
    reveal_strlit("Back");
    reveal_strlit("Forward");
    reveal_strlit("DpiToggle");
    reveal_strlit("Thumbwheel");
    reveal_strlit("ThumbwheelScrollUp");
    reveal_strlit("ThumbwheelScrollDown");
    reveal_strlit("GestureButton");
}

/// No action has the name of a direction.
pub proof fn law_names_do_not_overlap(action: Action, direction: GestureDirection)
    ensures
        action.name_text() != direction.label_text(),
{
    lemma_imprints(action, direction);
}

/// No two actions have the same name: one that carries nothing is known by its name,
/// and of those that carry something each kind has a name of its own.
pub proof fn law_action_names_are_distinct(a: Action, b: Action)
    requires
        a.name_text() == b.name_text(),
    ensures
        a.has_payload() == b.has_payload(),
        !a.has_payload() ==> a == b,
        a is SetDpiPreset <==> b is SetDpiPreset,
        a is CustomShortcut <==> b is CustomShortcut,
{
    lemma_imprints(a, GestureDirection::Up);
    lemma_imprints(b, GestureDirection::Up);
}

/// No two buttons have the same name.
pub proof fn law_button_names_are_distinct(a: ButtonId, b: ButtonId)
    requires
        a.name_text() == b.name_text(),
    ensures
        a == b,
{
    lemma_button_imprint(a);
    lemma_button_imprint(b);
}

/// No two directions have the same name.
pub proof fn law_direction_names_are_distinct(a: GestureDirection, b: GestureDirection)
    requires
        a.label_text() == b.label_text(),
    ensures
        a == b,
{
    lemma_imprints(Action::DoNothing, a);
    lemma_imprints(Action::DoNothing, b);
}

/// Whether a binding is stored in a shape: a single action as its name, or under
/// its name, and a gesture binding under the names of the directions that it binds.
pub open spec fn stored_as(binding: BindingView, shape: ShapeView) -> bool {
    match binding {
        BindingView::Single(action) => if action.has_payload() {
            shape == ShapeView::Table(seq![action.name_text()])
        } else {
            shape == ShapeView::Text(action.name_text())
        },
        BindingView::Gesture(map) => shape matches ShapeView::Table(keys) && (forall|i: int|
            0 <= i < keys.len() ==> exists|direction: GestureDirection|
                map.contains_key(direction) && #[trigger] direction.label_text()
                    == #[trigger] keys[i]) && (forall|direction: GestureDirection| #[trigger]
            map.contains_key(direction) ==> keys.contains(direction.label_text())),
    }
}

/// Every binding is read as what it was when it was stored: a single action never
/// as a gesture binding, and a gesture binding, whichever directions it binds,
/// never as a single action.
pub proof fn law_stored_binding_routes_back(binding: BindingView, shape: ShapeView)
    requires
        stored_as(binding, shape),
    ensures
        route_of(shape) == match binding {
            BindingView::Single(_) => Route::Single,
            BindingView::Gesture(_) => Route::Gesture,
        },
{
    match binding {
        BindingView::Single(action) => {
            assert(action.name_text() == action.name_text());
        },
        BindingView::Gesture(map) => {
            let keys = shape->Table_0;
            assert forall|i: int| 0 <= i < keys.len() implies names_direction(#[trigger] keys[i]) by {
                let direction = choose|direction: GestureDirection|
                    map.contains_key(direction) && #[trigger] direction.label_text() == keys[i];
                assert(direction.label_text() == keys[i]);
            }
            if keys.len() == 1 && names_action(keys[0]) {
                assert(names_direction(keys[0]));
                let direction = choose|direction: GestureDirection| #[trigger]
                    direction.label_text() == keys[0];
                let action = choose|action: Action| #[trigger] action.name_text() == keys[0];
                law_names_do_not_overlap(action, direction);
            }
        },
    }
}

/// The names that actions and buttons are stored under, and which actions are stored with
/// something under their name. Directions are stored under their labels.
pub proof fn law_stored_names(preset: u8, combo: KeyCombo, action: Action)
    ensures
        Action::DoNothing.name_text() == "None"@,
        Action::LeftClick.name_text() == "LeftClick"@,
        Action::RightClick.name_text() == "RightClick"@,
        Action::MiddleClick.name_text() == "MiddleClick"@,
        Action::MouseBack.name_text() == "MouseBack"@,
        Action::MouseForward.name_text() == "MouseForward"@,
        Action::Copy.name_text() == "Copy"@,
        Action::Paste.name_text() == "Paste"@,
        Action::Cut.name_text() == "Cut"@,
        Action::Undo.name_text() == "Undo"@,
        Action::Redo.name_text() == "Redo"@,
        Action::SelectAll.name_text() == "SelectAll"@,
        Action::Find.name_text() == "Find"@,
        Action::Save.name_text() == "Save"@,
        Action::BrowserBack.name_text() == "BrowserBack"@,
        Action::BrowserForward.name_text() == "BrowserForward"@,
        Action::NewTab.name_text() == "NewTab"@,
        Action::CloseTab.name_text() == "CloseTab"@,
        Action::ReopenTab.name_text() == "ReopenTab"@,
        Action::NextTab.name_text() == "NextTab"@,
        Action::PrevTab.name_text() == "PrevTab"@,
        Action::ReloadPage.name_text() == "ReloadPage"@,
        Action::MissionControl.name_text() == "MissionControl"@,
        Action::AppExpose.name_text() == "AppExpose"@,
        Action::PreviousDesktop.name_text() == "PreviousDesktop"@,
        Action::NextDesktop.name_text() == "NextDesktop"@,
        Action::ShowDesktop.name_text() == "ShowDesktop"@,
        Action::LaunchpadShow.name_text() == "LaunchpadShow"@,
        Action::LockScreen.name_text() == "LockScreen"@,
        Action::Screenshot.name_text() == "Screenshot"@,
        Action::CaptureRegion.name_text() == "CaptureRegion"@,
        Action::PlayPause.name_text() == "PlayPause"@,
        Action::NextTrack.name_text() == "NextTrack"@,
        Action::PrevTrack.name_text() == "PrevTrack"@,
        Action::VolumeUp.name_text() == "VolumeUp"@,
        Action::VolumeDown.name_text() == "VolumeDown"@,
        Action::MuteVolume.name_text() == "MuteVolume"@,
        Action::CycleDpiPresets.name_text() == "CycleDpiPresets"@,
        Action::SetDpiPreset(preset).name_text() == "SetDpiPreset"@,
        Action::ToggleSmartShift.name_text() == "ToggleSmartShift"@,
        Action::ScrollUp.name_text() == "ScrollUp"@,
        Action::ScrollDown.name_text() == "ScrollDown"@,
        Action::HorizontalScrollLeft.name_text() == "HorizontalScrollLeft"@,
        Action::HorizontalScrollRight.name_text() == "HorizontalScrollRight"@,
        Action::CustomShortcut(combo).name_text() == "CustomShortcut"@,
        ButtonId::LeftClick.name_text() == "LeftClick"@,
        ButtonId::RightClick.name_text() == "RightClick"@,
        ButtonId::MiddleClick.name_text() == "MiddleClick"@,
        ButtonId::Back.name_text() == "Back"@,
        ButtonId::Forward.name_text() == "Forward"@,
        ButtonId::DpiToggle.name_text() == "DpiToggle"@,
        ButtonId::Thumbwheel.name_text() == "Thumbwheel"@,
        ButtonId::ThumbwheelScrollUp.name_text() == "ThumbwheelScrollUp"@,
        ButtonId::ThumbwheelScrollDown.name_text() == "ThumbwheelScrollDown"@,
        ButtonId::GestureButton.name_text() == "GestureButton"@,
        action.has_payload() <==> (action is SetDpiPreset || action is CustomShortcut),
{
}

/// What each shape is read as. A text is a single action where it names one that carries
/// nothing. A table with the name of an action as its only key is a single action; another
/// table is a gesture binding where each of its keys names a direction. Everything else is
/// refused.
pub proof fn law_routes(text: Seq<char>, keys: Seq<Seq<char>>)
    ensures
        route_of(ShapeView::Text(text)) == Route::Single <==> exists|action: Action|
            !(action is SetDpiPreset) && !(action is CustomShortcut)
                && #[trigger] action.name_text() == text,
        route_of(ShapeView::Text(text)) != Route::Gesture,
        route_of(ShapeView::Table(keys)) == Route::Single <==> keys.len() == 1 && exists|
            action: Action,
        | #[trigger]
            action.name_text() == keys[0],
        route_of(ShapeView::Table(keys)) == Route::Gesture <==> forall|i: int|
            0 <= i < keys.len() ==> exists|direction: GestureDirection| #[trigger]
                direction.label_text() == #[trigger] keys[i],
        route_of(ShapeView::Other) == Route::Refused,
{
    if forall|i: int|
        0 <= i < keys.len() ==> exists|direction: GestureDirection| #[trigger]
            direction.label_text() == #[trigger] keys[i] {
        assert forall|i: int| 0 <= i < keys.len() implies names_direction(#[trigger] keys[i]) by {}
        if keys.len() == 1 && names_action(keys[0]) {
            assert(names_direction(keys[0]));
            let direction = choose|direction: GestureDirection| #[trigger]
                direction.label_text() == keys[0];
            let action = choose|action: Action| #[trigger] action.name_text() == keys[0];
            law_names_do_not_overlap(action, direction);
        }
    }
    if route_of(ShapeView::Table(keys)) == Route::Gesture {
        assert forall|i: int| 0 <= i < keys.len() implies exists|direction: GestureDirection|
            #[trigger]
            direction.label_text() == #[trigger] keys[i] by {
            assert(names_direction(keys[i]));
        }
    }
}

/// A shape shows what it is.
pub proof fn law_shapes_show_what_they_are(text: String, keys: Vec<String>, i: int)
    ensures
        Shape::Text(text)@ == ShapeView::Text(text@),
        Shape::Table(keys)@ is Table,
        Shape::Table(keys)@->Table_0.len() == keys@.len(),
        0 <= i < keys@.len() ==> Shape::Table(keys)@->Table_0[i] == keys@[i]@,
        Shape::Other@ == ShapeView::Other,
{
}

} // verus!
