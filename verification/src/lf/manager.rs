//! The menu and match-control decisions of the game manager: which screen shows, the
//! stage, computer and versus cursors, difficulty, key rebinding and the pause/step keys.
//! The browser loop reads the keys and clicks and performs the actions.
use vstd::prelude::*;
use crate::text::{chars_of, parse_usize, parse_usize_spec, string_from_range};

verus! {

#[derive(Clone, Copy, Debug, PartialEq, Eq)]
pub enum Screen {
    FrontPage,
    CharacterSelect,
    ComputerCount,
    VsDialog,
    StageDialog,
    Settings,
    Network,
    Gameplay,
}

/// A key, by what the menus tell apart (letters in lower case).
#[derive(Clone, Copy, Debug, PartialEq, Eq)]
pub enum MenuKey {
    Enter,
    Escape,
    A,
    D,
    H,
    I,
    J,
    K,
    P,
    Q,
    S,
    W,
    X,
    ArrowUp,
    ArrowDown,
    ArrowLeft,
    ArrowRight,
    F1,
    F2,
    F3,
    F4,
    F5,
    F6,
    F7,
    F8,
    F9,
    F10,
    F11,
    Other,
}

/// A key press or a click on the menus.
#[derive(Clone, Copy, Debug, PartialEq, Eq)]
pub enum MenuEvent {
    Key(MenuKey),
    /// a menu button (`data-i`)
    Click(i32),
    /// a stage chapter (`data-stage`)
    ClickStage(usize),
    /// a computer count (`data-com`)
    ClickComputers(i32),
    /// a versus-dialog item (`data-vs`)
    ClickVs(usize),
    /// a background (`data-bg`)
    ClickBackground(i32),
    /// the network cancel button
    Cancel,
    /// a key-rebind chip of a player slot
    Rebind(usize),
}

/// What the manager remembers between events.
#[derive(Clone, Copy, Debug, PartialEq, Eq)]
pub struct MenuState {
    pub screen: Screen,
    pub stage_mode: bool,
    /// -1 crazy, 0 hard, 1 normal, 2 easy
    pub difficulty: i32,
    pub computer_cursor: i32,
    pub num_computers: i32,
    pub vs_cursor: usize,
    pub stage_chapter: usize,
    pub selected_bg: i32,
    /// a key is awaited for a rebind
    pub rebinding: bool,
    /// the package has stage data
    pub has_stage_data: bool,
    /// how many stages the package has
    pub stage_count: usize,
    /// some player slot has joined
    pub any_joined: bool,
    /// how many player slots the selection has
    pub slots: usize,
    /// how many characters can be chosen
    pub characters: usize,
    /// a match is running
    pub in_match: bool,
    pub paused: bool,
}

/// What the browser loop performs after an event.
#[derive(Clone, Copy, Debug, PartialEq, Eq)]
pub enum MenuAction {
    Nothing,
    /// show the screen the state now names
    Show,
    RenderStage,
    RenderComputers,
    RenderVs,
    RenderCharacterSelect,
    CycleCharacter { slot: usize, dir: i32 },
    Join { slot: usize },
    StartStageMatch,
    StartMatch,
    /// unjoin every slot, then show the character selection
    ResetSlots,
    /// save the settings, then show the screen
    SaveSettings,
    /// apply the awaited key to the rebind
    ApplyRebind,
    /// note the network protocol in the log, then show the screen
    OpenNetwork,
    /// tell that the package has no stage data
    NoStageData,
    StartDemo,
    Disconnect,
    AwaitRebind { slot: usize },
    EndMatch,
    LeaveMatch,
    Pause,
    Unpause,
    /// run one TU of the paused match
    StepOne,
    ShowStats,
    RestartMatch,
    ToggleInfiniteMp,
    Refill,
    DropWeapons,
    DestroyWeapons,
    ToggleRenderer,
    CycleView,
}

/// The next difficulty: crazy, hard, normal, easy, then crazy again.
pub open spec fn next_difficulty(d: i32) -> i32 {
    if d < 0 {
        0
    } else if d == 0 {
        1
    } else if d == 1 {
        2
    } else {
        -1i32
    }
}

fn cycle_difficulty(d: i32) -> (r: i32)
    ensures
        r == next_difficulty(d),
{
    if d < 0 {
        0
    } else if d == 0 {
        1
    } else if d == 1 {
        2
    } else {
        -1
    }
}

/// Rust's truncating remainder by 8.
pub open spec fn rem8(x: int) -> int {
    if x >= 0 {
        x % 8
    } else {
        -((-x) % 8)
    }
}

pub open spec fn show(s: MenuState, to: Screen) -> (MenuState, MenuAction) {
    (MenuState { screen: to, ..s }, MenuAction::Show)
}

/// A versus-dialog item chosen.
pub open spec fn vs_spec(s: MenuState, v: usize) -> (MenuState, MenuAction) {
    if v == 1 {
        (MenuState { screen: Screen::CharacterSelect, any_joined: false, ..s }, MenuAction::ResetSlots)
    } else if v == 3 {
        (MenuState { difficulty: next_difficulty(s.difficulty), ..s }, MenuAction::RenderVs)
    } else if v == 4 {
        show(s, Screen::CharacterSelect)
    } else {
        (s, MenuAction::StartMatch)
    }
}

/// The keys of the match screen.
pub open spec fn gameplay_key(s: MenuState, k: MenuKey) -> (MenuState, MenuAction) {
    match k {
        MenuKey::F4 => (s, MenuAction::EndMatch),
        MenuKey::Escape => (
            MenuState { in_match: false, paused: false, screen: Screen::FrontPage, ..s },
            MenuAction::LeaveMatch,
        ),
        MenuKey::F1 | MenuKey::P => {
            if !s.in_match {
                (s, MenuAction::Nothing)
            } else if s.paused {
                (MenuState { paused: false, ..s }, MenuAction::Unpause)
            } else {
                (MenuState { paused: true, ..s }, MenuAction::Pause)
            }
        },
        MenuKey::F2 => {
            if !s.in_match {
                (s, MenuAction::Nothing)
            } else if s.paused {
                (s, MenuAction::StepOne)
            } else {
                (MenuState { paused: true, ..s }, MenuAction::Pause)
            }
        },
        MenuKey::F3 => (s, MenuAction::ShowStats),
        MenuKey::F5 => (s, MenuAction::RestartMatch),
        MenuKey::F6 => (s, MenuAction::ToggleInfiniteMp),
        MenuKey::F7 => (s, MenuAction::Refill),
        MenuKey::F8 => (s, MenuAction::DropWeapons),
        MenuKey::F9 => (s, MenuAction::DestroyWeapons),
        MenuKey::F11 => (s, MenuAction::ToggleRenderer),
        MenuKey::F10 => (s, MenuAction::CycleView),
        _ => (s, MenuAction::Nothing),
    }
}

/// Cycling a slot's character joins the slot, when there are characters and the slot exists.
pub open spec fn cycled(s: MenuState, slot: usize) -> MenuState {
    MenuState { any_joined: s.any_joined || (s.characters > 0 && slot < s.slots), ..s }
}

/// The character index after cycling by `dir` over `n` characters, where -1 is the random
/// pick: below -1 wraps to the last, past the last wraps to -1.
pub open spec fn next_char_spec(idx: i32, dir: i32, n: i32) -> i32 {
    let i = idx + dir;
    if i < -1 {
        (n - 1) as i32
    } else if i >= n {
        -1i32
    } else {
        i as i32
    }
}

/// The character index after cycling by `dir` over `n` characters (see `next_char_spec`).
pub fn next_char_index(idx: i32, dir: i32, n: i32) -> (r: i32)
    requires
        i32::MIN <= idx + dir <= i32::MAX,
        n > i32::MIN,
    ensures
        r == next_char_spec(idx, dir, n),
{
    let i = idx + dir;
    if i < -1 {
        n - 1
    } else if i >= n {
        -1
    } else {
        i
    }
}

/// The keys of the character selection.
pub open spec fn select_key(s: MenuState, k: MenuKey) -> (MenuState, MenuAction) {
    match k {
        MenuKey::Escape => show(
            s,
            if s.stage_mode {
                Screen::StageDialog
            } else {
                Screen::FrontPage
            },
        ),
        MenuKey::A => (cycled(s, 0), MenuAction::CycleCharacter { slot: 0, dir: -1i32 }),
        MenuKey::D => (cycled(s, 0), MenuAction::CycleCharacter { slot: 0, dir: 1 }),
        MenuKey::H => (cycled(s, 1), MenuAction::CycleCharacter { slot: 1, dir: -1i32 }),
        MenuKey::K => (cycled(s, 1), MenuAction::CycleCharacter { slot: 1, dir: 1 }),
        MenuKey::S => (MenuState { any_joined: true, ..s }, MenuAction::Join { slot: 0 }),
        MenuKey::J => (
            MenuState { any_joined: s.any_joined || s.slots > 1, ..s },
            MenuAction::Join { slot: 1 },
        ),
        MenuKey::Q | MenuKey::I | MenuKey::Enter => {
            if !s.any_joined {
                (s, MenuAction::Nothing)
            } else if s.stage_mode {
                (s, MenuAction::StartStageMatch)
            } else {
                show(s, Screen::ComputerCount)
            }
        },
        MenuKey::F2 => (MenuState { num_computers: (s.num_computers + 1) as i32, ..s }, MenuAction::Nothing),
        _ => (s, MenuAction::Nothing),
    }
}

/// The keys of the stage dialog.
pub open spec fn stage_key(s: MenuState, k: MenuKey) -> (MenuState, MenuAction) {
    match k {
        MenuKey::Escape => show(MenuState { stage_mode: false, ..s }, Screen::FrontPage),
        MenuKey::ArrowUp | MenuKey::W => (
            MenuState {
                stage_chapter: if s.stage_chapter > 0 {
                    (s.stage_chapter - 1) as usize
                } else {
                    0
                },
                ..s
            },
            MenuAction::RenderStage,
        ),
        MenuKey::ArrowDown | MenuKey::X => {
            let max: int = if s.stage_count > 0 {
                s.stage_count - 1
            } else {
                0
            };
            (
                MenuState {
                    stage_chapter: if s.stage_chapter + 1 < max {
                        (s.stage_chapter + 1) as usize
                    } else {
                        max as usize
                    },
                    ..s
                },
                MenuAction::RenderStage,
            )
        },
        MenuKey::Enter | MenuKey::S | MenuKey::J => show(s, Screen::CharacterSelect),
        MenuKey::D => (MenuState { difficulty: next_difficulty(s.difficulty), ..s }, MenuAction::RenderStage),
        _ => (s, MenuAction::Nothing),
    }
}

/// The keys of the computer-count dialog (the cursor wraps over 0 to 7).
pub open spec fn computers_key(s: MenuState, k: MenuKey) -> (MenuState, MenuAction) {
    match k {
        MenuKey::Escape => show(s, Screen::CharacterSelect),
        MenuKey::A | MenuKey::ArrowLeft => (
            MenuState { computer_cursor: ((s.computer_cursor - 1) % 8) as i32, ..s },
            MenuAction::RenderComputers,
        ),
        MenuKey::D | MenuKey::ArrowRight => (
            MenuState { computer_cursor: rem8(s.computer_cursor + 1) as i32, ..s },
            MenuAction::RenderComputers,
        ),
        MenuKey::S | MenuKey::Enter | MenuKey::J => show(
            MenuState { num_computers: s.computer_cursor, ..s },
            Screen::VsDialog,
        ),
        _ => (s, MenuAction::Nothing),
    }
}

/// The keys of the versus dialog (the cursor runs over 0 to 5).
pub open spec fn vs_key(s: MenuState, k: MenuKey) -> (MenuState, MenuAction) {
    match k {
        MenuKey::Escape => show(s, Screen::CharacterSelect),
        MenuKey::ArrowUp | MenuKey::W => (
            MenuState {
                vs_cursor: if s.vs_cursor > 0 {
                    (s.vs_cursor - 1) as usize
                } else {
                    0
                },
                ..s
            },
            MenuAction::RenderVs,
        ),
        MenuKey::ArrowDown | MenuKey::X => (
            MenuState {
                vs_cursor: if s.vs_cursor + 1 < 5 {
                    (s.vs_cursor + 1) as usize
                } else {
                    5
                },
                ..s
            },
            MenuAction::RenderVs,
        ),
        MenuKey::Enter | MenuKey::S | MenuKey::J => vs_spec(s, s.vs_cursor),
        _ => (s, MenuAction::Nothing),
    }
}

/// A key on the current screen; while a rebind awaits a key, any key but Escape is taken.
pub open spec fn key_spec(s: MenuState, k: MenuKey) -> (MenuState, MenuAction) {
    if s.rebinding && k != MenuKey::Escape {
        (MenuState { rebinding: false, ..s }, MenuAction::ApplyRebind)
    } else {
        match s.screen {
            Screen::FrontPage => {
                if k == MenuKey::Enter || k == MenuKey::S {
                    show(s, Screen::CharacterSelect)
                } else {
                    (s, MenuAction::Nothing)
                }
            },
            Screen::CharacterSelect => select_key(s, k),
            Screen::StageDialog => stage_key(s, k),
            Screen::ComputerCount => computers_key(s, k),
            Screen::VsDialog => vs_key(s, k),
            Screen::Settings => {
                if k == MenuKey::Escape {
                    (MenuState { screen: Screen::FrontPage, ..s }, MenuAction::SaveSettings)
                } else {
                    (s, MenuAction::Nothing)
                }
            },
            Screen::Network => {
                if k == MenuKey::Escape {
                    show(s, Screen::FrontPage)
                } else {
                    (s, MenuAction::Nothing)
                }
            },
            Screen::Gameplay => gameplay_key(s, k),
        }
    }
}

/// A menu button.
pub open spec fn click_spec(s: MenuState, i: i32) -> (MenuState, MenuAction) {
    if i == 0 {
        show(MenuState { stage_mode: false, ..s }, Screen::CharacterSelect)
    } else if i == 1 {
        (MenuState { screen: Screen::Network, ..s }, MenuAction::OpenNetwork)
    } else if i == 2 {
        show(s, Screen::Settings)
    } else if i == 3 {
        let t = MenuState { stage_mode: true, stage_chapter: 0, num_computers: 0, ..s };
        if !s.has_stage_data {
            (t, MenuAction::NoStageData)
        } else {
            show(t, Screen::StageDialog)
        }
    } else if i == 30 {
        show(MenuState { stage_mode: true, ..s }, Screen::CharacterSelect)
    } else if i == 31 {
        show(MenuState { stage_mode: false, ..s }, Screen::FrontPage)
    } else if i == 32 {
        (MenuState { difficulty: next_difficulty(s.difficulty), ..s }, MenuAction::RenderStage)
    } else if i == 4 {
        (s, MenuAction::StartDemo)
    } else if i == 99 {
        (MenuState { screen: Screen::FrontPage, ..s }, MenuAction::SaveSettings)
    } else {
        (s, MenuAction::Nothing)
    }
}

/// The next state and action of the manager for one event.
pub open spec fn menu_spec(s: MenuState, ev: MenuEvent) -> (MenuState, MenuAction) {
    match ev {
        MenuEvent::Key(k) => key_spec(s, k),
        MenuEvent::Click(i) => click_spec(s, i),
        MenuEvent::ClickStage(c) => (MenuState { stage_chapter: c, stage_mode: true, ..s }, MenuAction::RenderStage),
        MenuEvent::ClickComputers(n) => (MenuState { computer_cursor: n, num_computers: n, ..s }, MenuAction::RenderComputers),
        MenuEvent::ClickVs(v) => vs_spec(MenuState { vs_cursor: v, ..s }, v),
        MenuEvent::ClickBackground(bg) => (
            MenuState { selected_bg: bg, ..s },
            if s.screen == Screen::CharacterSelect {
                MenuAction::RenderCharacterSelect
            } else {
                MenuAction::Nothing
            },
        ),
        MenuEvent::Cancel => (MenuState { screen: Screen::FrontPage, ..s }, MenuAction::Disconnect),
        MenuEvent::Rebind(slot) => (MenuState { rebinding: true, ..s }, MenuAction::AwaitRebind { slot }),
    }
}

/// The events the manager takes without an arithmetic overflow.
pub open spec fn menu_event_ok(s: MenuState, ev: MenuEvent) -> bool {
    match ev {
        MenuEvent::Key(k) => !(s.rebinding && k != MenuKey::Escape) ==> match s.screen {
            Screen::CharacterSelect => {
                &&& k == MenuKey::F2 ==> s.num_computers < i32::MAX
                &&& k == MenuKey::S ==> s.slots > 0
            },
            Screen::ComputerCount => {
                &&& (k == MenuKey::A || k == MenuKey::ArrowLeft) ==> s.computer_cursor > i32::MIN
                &&& (k == MenuKey::D || k == MenuKey::ArrowRight) ==> s.computer_cursor < i32::MAX
            },
            Screen::StageDialog => (k == MenuKey::ArrowDown || k == MenuKey::X) ==> s.stage_chapter
                < usize::MAX,
            Screen::VsDialog => (k == MenuKey::ArrowDown || k == MenuKey::X) ==> s.vs_cursor
                < usize::MAX,
            _ => true,
        },
        _ => true,
    }
}

fn show_exec(s: MenuState, to: Screen) -> (r: (MenuState, MenuAction))
    ensures
        r == show(s, to),
{
    (MenuState { screen: to, ..s }, MenuAction::Show)
}

fn vs_exec(s: MenuState, v: usize) -> (r: (MenuState, MenuAction))
    ensures
        r == vs_spec(s, v),
{
    if v == 1 {
        (MenuState { screen: Screen::CharacterSelect, any_joined: false, ..s }, MenuAction::ResetSlots)
    } else if v == 3 {
        (MenuState { difficulty: cycle_difficulty(s.difficulty), ..s }, MenuAction::RenderVs)
    } else if v == 4 {
        show_exec(s, Screen::CharacterSelect)
    } else {
        (s, MenuAction::StartMatch)
    }
}

fn gameplay_exec(s: MenuState, k: MenuKey) -> (r: (MenuState, MenuAction))
    ensures
        r == gameplay_key(s, k),
{
    match k {
        MenuKey::F4 => (s, MenuAction::EndMatch),
        MenuKey::Escape => (
            MenuState { in_match: false, paused: false, screen: Screen::FrontPage, ..s },
            MenuAction::LeaveMatch,
        ),
        MenuKey::F1 | MenuKey::P => {
            if !s.in_match {
                (s, MenuAction::Nothing)
            } else if s.paused {
                (MenuState { paused: false, ..s }, MenuAction::Unpause)
            } else {
                (MenuState { paused: true, ..s }, MenuAction::Pause)
            }
        },
        MenuKey::F2 => {
            if !s.in_match {
                (s, MenuAction::Nothing)
            } else if s.paused {
                (s, MenuAction::StepOne)
            } else {
                (MenuState { paused: true, ..s }, MenuAction::Pause)
            }
        },
        MenuKey::F3 => (s, MenuAction::ShowStats),
        MenuKey::F5 => (s, MenuAction::RestartMatch),
        MenuKey::F6 => (s, MenuAction::ToggleInfiniteMp),
        MenuKey::F7 => (s, MenuAction::Refill),
        MenuKey::F8 => (s, MenuAction::DropWeapons),
        MenuKey::F9 => (s, MenuAction::DestroyWeapons),
        MenuKey::F11 => (s, MenuAction::ToggleRenderer),
        MenuKey::F10 => (s, MenuAction::CycleView),
        _ => (s, MenuAction::Nothing),
    }
}

fn cycled_exec(s: MenuState, slot: usize) -> (r: MenuState)
    ensures
        r == cycled(s, slot),
{
    MenuState { any_joined: s.any_joined || (s.characters > 0 && slot < s.slots), ..s }
}

fn select_exec(s: MenuState, k: MenuKey) -> (r: (MenuState, MenuAction))
    requires
        k == MenuKey::F2 ==> s.num_computers < i32::MAX,
    ensures
        r == select_key(s, k),
{
    match k {
        MenuKey::Escape => show_exec(
            s,
            if s.stage_mode {
                Screen::StageDialog
            } else {
                Screen::FrontPage
            },
        ),
        MenuKey::A => (cycled_exec(s, 0), MenuAction::CycleCharacter { slot: 0, dir: -1 }),
        MenuKey::D => (cycled_exec(s, 0), MenuAction::CycleCharacter { slot: 0, dir: 1 }),
        MenuKey::H => (cycled_exec(s, 1), MenuAction::CycleCharacter { slot: 1, dir: -1 }),
        MenuKey::K => (cycled_exec(s, 1), MenuAction::CycleCharacter { slot: 1, dir: 1 }),
        MenuKey::S => (MenuState { any_joined: true, ..s }, MenuAction::Join { slot: 0 }),
        MenuKey::J => (
            MenuState { any_joined: s.any_joined || s.slots > 1, ..s },
            MenuAction::Join { slot: 1 },
        ),
        MenuKey::Q | MenuKey::I | MenuKey::Enter => {
            if !s.any_joined {
                (s, MenuAction::Nothing)
            } else if s.stage_mode {
                (s, MenuAction::StartStageMatch)
            } else {
                show_exec(s, Screen::ComputerCount)
            }
        },
        MenuKey::F2 => (MenuState { num_computers: s.num_computers + 1, ..s }, MenuAction::Nothing),
        _ => (s, MenuAction::Nothing),
    }
}

fn stage_exec(s: MenuState, k: MenuKey) -> (r: (MenuState, MenuAction))
    requires
        (k == MenuKey::ArrowDown || k == MenuKey::X) ==> s.stage_chapter < usize::MAX,
    ensures
        r == stage_key(s, k),
{
    match k {
        MenuKey::Escape => show_exec(MenuState { stage_mode: false, ..s }, Screen::FrontPage),
        MenuKey::ArrowUp | MenuKey::W => (
            MenuState {
                stage_chapter: if s.stage_chapter > 0 {
                    s.stage_chapter - 1
                } else {
                    0
                },
                ..s
            },
            MenuAction::RenderStage,
        ),
        MenuKey::ArrowDown | MenuKey::X => {
            let max: usize = if s.stage_count > 0 {
                s.stage_count - 1
            } else {
                0
            };
            (
                MenuState {
                    stage_chapter: if s.stage_chapter + 1 < max {
                        s.stage_chapter + 1
                    } else {
                        max
                    },
                    ..s
                },
                MenuAction::RenderStage,
            )
        },
        MenuKey::Enter | MenuKey::S | MenuKey::J => show_exec(s, Screen::CharacterSelect),
        MenuKey::D => (MenuState { difficulty: cycle_difficulty(s.difficulty), ..s }, MenuAction::RenderStage),
        _ => (s, MenuAction::Nothing),
    }
}

fn computers_exec(s: MenuState, k: MenuKey) -> (r: (MenuState, MenuAction))
    requires
        (k == MenuKey::A || k == MenuKey::ArrowLeft) ==> s.computer_cursor > i32::MIN,
        (k == MenuKey::D || k == MenuKey::ArrowRight) ==> s.computer_cursor < i32::MAX,
    ensures
        r == computers_key(s, k),
{
    match k {
        MenuKey::Escape => show_exec(s, Screen::CharacterSelect),
        MenuKey::A | MenuKey::ArrowLeft => {
            let c: i32 = match (s.computer_cursor - 1).checked_rem_euclid(8) {
                Some(c) => c,
                None => 0,
            };
            (MenuState { computer_cursor: c, ..s }, MenuAction::RenderComputers)
        },
        MenuKey::D | MenuKey::ArrowRight => {
            let c: i32 = match (s.computer_cursor + 1).checked_rem(8) {
                Some(c) => c,
                None => 0,
            };
            (MenuState { computer_cursor: c, ..s }, MenuAction::RenderComputers)
        },
        MenuKey::S | MenuKey::Enter | MenuKey::J => show_exec(
            MenuState { num_computers: s.computer_cursor, ..s },
            Screen::VsDialog,
        ),
        _ => (s, MenuAction::Nothing),
    }
}

fn vs_key_exec(s: MenuState, k: MenuKey) -> (r: (MenuState, MenuAction))
    requires
        (k == MenuKey::ArrowDown || k == MenuKey::X) ==> s.vs_cursor < usize::MAX,
    ensures
        r == vs_key(s, k),
{
    match k {
        MenuKey::Escape => show_exec(s, Screen::CharacterSelect),
        MenuKey::ArrowUp | MenuKey::W => (
            MenuState {
                vs_cursor: if s.vs_cursor > 0 {
                    s.vs_cursor - 1
                } else {
                    0
                },
                ..s
            },
            MenuAction::RenderVs,
        ),
        MenuKey::ArrowDown | MenuKey::X => (
            MenuState {
                vs_cursor: if s.vs_cursor + 1 < 5 {
                    s.vs_cursor + 1
                } else {
                    5
                },
                ..s
            },
            MenuAction::RenderVs,
        ),
        MenuKey::Enter | MenuKey::S | MenuKey::J => vs_exec(s, s.vs_cursor),
        _ => (s, MenuAction::Nothing),
    }
}

fn click_exec(s: MenuState, i: i32) -> (r: (MenuState, MenuAction))
    ensures
        r == click_spec(s, i),
{
    if i == 0 {
        show_exec(MenuState { stage_mode: false, ..s }, Screen::CharacterSelect)
    } else if i == 1 {
        (MenuState { screen: Screen::Network, ..s }, MenuAction::OpenNetwork)
    } else if i == 2 {
        show_exec(s, Screen::Settings)
    } else if i == 3 {
        let t = MenuState { stage_mode: true, stage_chapter: 0, num_computers: 0, ..s };
        if !s.has_stage_data {
            (t, MenuAction::NoStageData)
        } else {
            show_exec(t, Screen::StageDialog)
        }
    } else if i == 30 {
        show_exec(MenuState { stage_mode: true, ..s }, Screen::CharacterSelect)
    } else if i == 31 {
        show_exec(MenuState { stage_mode: false, ..s }, Screen::FrontPage)
    } else if i == 32 {
        (MenuState { difficulty: cycle_difficulty(s.difficulty), ..s }, MenuAction::RenderStage)
    } else if i == 4 {
        (s, MenuAction::StartDemo)
    } else if i == 99 {
        (MenuState { screen: Screen::FrontPage, ..s }, MenuAction::SaveSettings)
    } else {
        (s, MenuAction::Nothing)
    }
}

fn key_exec(s: MenuState, k: MenuKey) -> (r: (MenuState, MenuAction))
    requires
        menu_event_ok(s, MenuEvent::Key(k)),
    ensures
        r == key_spec(s, k),
{
    let esc = matches!(k, MenuKey::Escape);
    if s.rebinding && !esc {
        (MenuState { rebinding: false, ..s }, MenuAction::ApplyRebind)
    } else {
        match s.screen {
            Screen::FrontPage => {
                if matches!(k, MenuKey::Enter) || matches!(k, MenuKey::S) {
                    show_exec(s, Screen::CharacterSelect)
                } else {
                    (s, MenuAction::Nothing)
                }
            },
            Screen::CharacterSelect => select_exec(s, k),
            Screen::StageDialog => stage_exec(s, k),
            Screen::ComputerCount => computers_exec(s, k),
            Screen::VsDialog => vs_key_exec(s, k),
            Screen::Settings => {
                if esc {
                    (MenuState { screen: Screen::FrontPage, ..s }, MenuAction::SaveSettings)
                } else {
                    (s, MenuAction::Nothing)
                }
            },
            Screen::Network => {
                if esc {
                    show_exec(s, Screen::FrontPage)
                } else {
                    (s, MenuAction::Nothing)
                }
            },
            Screen::Gameplay => gameplay_exec(s, k),
        }
    }
}

/// The manager's decision for one key press or click: the next state and what the
/// browser loop performs.
pub fn menu_step(s: MenuState, ev: MenuEvent) -> (r: (MenuState, MenuAction))
    requires
        menu_event_ok(s, ev),
    ensures
        r == menu_spec(s, ev),
{
    match ev {
        MenuEvent::Key(k) => key_exec(s, k),
        MenuEvent::Click(i) => click_exec(s, i),
        MenuEvent::ClickStage(c) => (MenuState { stage_chapter: c, stage_mode: true, ..s }, MenuAction::RenderStage),
        MenuEvent::ClickComputers(n) => (MenuState { computer_cursor: n, num_computers: n, ..s }, MenuAction::RenderComputers),
        MenuEvent::ClickVs(v) => vs_exec(MenuState { vs_cursor: v, ..s }, v),
        MenuEvent::ClickBackground(bg) => (
            MenuState { selected_bg: bg, ..s },
            if matches!(s.screen, Screen::CharacterSelect) {
                MenuAction::RenderCharacterSelect
            } else {
                MenuAction::Nothing
            },
        ),
        MenuEvent::Cancel => (MenuState { screen: Screen::FrontPage, ..s }, MenuAction::Disconnect),
        MenuEvent::Rebind(slot) => (MenuState { rebinding: true, ..s }, MenuAction::AwaitRebind { slot }),
    }
}

/// The menus keep their cursors in range: the difficulty stays among crazy, hard, normal
/// and easy, the computer cursor within 0 to 7 and the versus cursor within 0 to 5, for
/// every key and for clicks on the counts the dialogs offer.
pub proof fn law_menu_ranges(s: MenuState, ev: MenuEvent)
    requires
        -1 <= s.difficulty <= 2,
        0 <= s.computer_cursor < 8,
        s.vs_cursor <= 5,
        ev matches MenuEvent::ClickComputers(n) ==> 0 <= n < 8,
        ev matches MenuEvent::ClickVs(v) ==> v <= 5,
    ensures
        -1 <= menu_spec(s, ev).0.difficulty <= 2,
        0 <= menu_spec(s, ev).0.computer_cursor < 8,
        menu_spec(s, ev).0.vs_cursor <= 5,
{
}

/// In a match, F2 pauses a running match, and on a paused one runs exactly one TU and
/// stays paused.
pub proof fn law_f2_pause_then_step(s: MenuState)
    requires
        s.screen == Screen::Gameplay,
        s.in_match,
        !s.rebinding,
    ensures
        !s.paused ==> menu_spec(s, MenuEvent::Key(MenuKey::F2)) == (MenuState { paused: true, ..s }, MenuAction::Pause),
        s.paused ==> menu_spec(s, MenuEvent::Key(MenuKey::F2)) == (s, MenuAction::StepOne),
{
}

/// How many times `c` occurs in `s`.
pub open spec fn count_char(s: Seq<char>, c: char) -> nat
    decreases s.len(),
{
    if s.len() == 0 {
        0
    } else {
        count_char(s.drop_last(), c) + if s.last() == c {
            1nat
        } else {
            0nat
        }
    }
}

/// A key-rebind chip `slot:action`: exactly one `:`, a slot number before it (as Rust
/// parses a `usize`) and the action after it.
pub open spec fn rebind_chip_spec(rb: Seq<char>) -> Option<(int, Seq<char>)> {
    if count_char(rb, ':') != 1 {
        None
    } else {
        let i = choose|i: int| 0 <= i < rb.len() && rb[i] == ':';
        match parse_usize_spec(rb.subrange(0, i)) {
            Some(v) => Some((v, rb.subrange(i + 1, rb.len() as int))),
            None => None,
        }
    }
}

proof fn lemma_count_prefix(s: Seq<char>, c: char, i: int)
    requires
        0 <= i < s.len(),
    ensures
        count_char(s.subrange(0, i + 1), c) == count_char(s.subrange(0, i), c) + if s[i] == c {
            1nat
        } else {
            0nat
        },
{
    assert(s.subrange(0, i + 1).drop_last() =~= s.subrange(0, i));
}

proof fn lemma_single_colon(s: Seq<char>, i: int)
    requires
        0 <= i < s.len(),
        s[i] == ':',
        count_char(s, ':') == 1,
    ensures
        forall|j: int| 0 <= j < s.len() && s[j] == ':' ==> j == i,
    decreases s.len(),
{
    assert forall|j: int| 0 <= j < s.len() && s[j] == ':' implies j == i by {
        if j != i {
            lemma_two_colons(s, i, j);
        }
    }
}

proof fn lemma_two_colons(s: Seq<char>, i: int, j: int)
    requires
        0 <= i < s.len(),
        0 <= j < s.len(),
        i != j,
        s[i] == ':',
        s[j] == ':',
    ensures
        count_char(s, ':') >= 2,
    decreases s.len(),
{
    let last = s.len() - 1;
    if i == last || j == last {
        let k = if i == last { j } else { i };
        lemma_has_colon(s.drop_last(), k);
    } else {
        lemma_two_colons(s.drop_last(), i, j);
    }
}

proof fn lemma_has_colon(s: Seq<char>, k: int)
    requires
        0 <= k < s.len(),
        s[k] == ':',
    ensures
        count_char(s, ':') >= 1,
    decreases s.len(),
{
    if k < s.len() - 1 {
        lemma_has_colon(s.drop_last(), k);
    }
}

/// Parses a key-rebind chip `slot:action` (see `rebind_chip_spec`).
pub fn parse_rebind_chip(rb: &str) -> (r: Option<(usize, String)>)
    ensures
        match (r, rebind_chip_spec(rb@)) {
            (Some((slot, action)), Some((v, a))) => slot == v && action@ == a,
            (None, None) => true,
            _ => false,
        },
{
    let cs = chars_of(rb);
    let mut colons: usize = 0;
    let mut at: usize = 0;
    let mut i: usize = 0;
    while i < cs.len()
        invariant
            i <= cs@.len(),
            cs@ == rb@,
            colons == count_char(cs@.subrange(0, i as int), ':'),
            colons <= i,
            colons >= 1 ==> at < i && cs@[at as int] == ':',
        decreases cs@.len() - i,
    {
        proof {
            lemma_count_prefix(cs@, ':', i as int);
        }
        if cs[i] == ':' {
            if colons == 0 {
                at = i;
            }
            colons = colons + 1;
        }
        i = i + 1;
    }
    assert(cs@.subrange(0, cs@.len() as int) =~= cs@);
    if colons != 1 {
        return None;
    }
    proof {
        lemma_single_colon(cs@, at as int);
        let c = choose|i: int| 0 <= i < cs@.len() && cs@[i] == ':';
        assert(c == at);
    }
    let head = string_from_range(&cs, 0, at);
    let hv = chars_of(head.as_str());
    match parse_usize(&hv) {
        None => None,
        Some(slot) => Some((slot, string_from_range(&cs, at + 1, cs.len()))),
    }
}

/// Two players join by J or by cycling a character: with two slots, J then Enter goes on to
/// the computer count outside stage mode.
pub proof fn law_join_then_continue(s: MenuState)
    requires
        s.screen == Screen::CharacterSelect,
        !s.rebinding,
        !s.stage_mode,
        s.slots > 1,
    ensures
        ({
            let (s1, _) = menu_spec(s, MenuEvent::Key(MenuKey::J));
            menu_spec(s1, MenuEvent::Key(MenuKey::Enter)) == (MenuState { screen: Screen::ComputerCount, ..s1 }, MenuAction::Show)
        }),
        s.characters > 0 ==> ({
            let (s1, _) = menu_spec(s, MenuEvent::Key(MenuKey::A));
            s1.any_joined
        }),
{
}


/// On the versus dialog the cursor moves by one: up from `c` goes to `c - 1` (0 stays 0),
/// down goes to `c + 1` but never past 5; the dialog is redrawn.
pub proof fn law_vs_cursor_moves(s: MenuState)
    requires
        s.screen == Screen::VsDialog,
        !s.rebinding,
        s.vs_cursor < usize::MAX,
    ensures
        menu_spec(s, MenuEvent::Key(MenuKey::ArrowUp)).0.vs_cursor == (if s.vs_cursor > 0 {
            s.vs_cursor - 1
        } else {
            0
        }),
        menu_spec(s, MenuEvent::Key(MenuKey::W)).0.vs_cursor == menu_spec(s, MenuEvent::Key(MenuKey::ArrowUp)).0.vs_cursor,
        menu_spec(s, MenuEvent::Key(MenuKey::ArrowUp)).1 == MenuAction::RenderVs,
        menu_spec(s, MenuEvent::Key(MenuKey::ArrowDown)).0.vs_cursor == (if s.vs_cursor + 1 < 5 {
            s.vs_cursor + 1
        } else {
            5
        }),
        menu_spec(s, MenuEvent::Key(MenuKey::X)).0.vs_cursor == menu_spec(s, MenuEvent::Key(MenuKey::ArrowDown)).0.vs_cursor,
        menu_spec(s, MenuEvent::Key(MenuKey::ArrowDown)).1 == MenuAction::RenderVs,
{
}


/// The front page opens the character selection on Enter or S; while a rebind awaits a key,
/// any key but Escape is taken for it and nothing else happens.
pub proof fn law_front_page_and_rebind(s: MenuState, k: MenuKey)
    ensures
        s.rebinding && k != MenuKey::Escape ==> menu_spec(s, MenuEvent::Key(k)) == (MenuState { rebinding: false, ..s }, MenuAction::ApplyRebind),
        !s.rebinding && s.screen == Screen::FrontPage && (k == MenuKey::Enter || k == MenuKey::S) ==> menu_spec(s, MenuEvent::Key(k)).0.screen
            == Screen::CharacterSelect,
        !s.rebinding && s.screen == Screen::FrontPage && k != MenuKey::Enter && k != MenuKey::S ==> menu_spec(s, MenuEvent::Key(k))
            == (s, MenuAction::Nothing),
        !s.rebinding && s.screen == Screen::Settings && k == MenuKey::Escape ==> menu_spec(s, MenuEvent::Key(k))
            == (MenuState { screen: Screen::FrontPage, ..s }, MenuAction::SaveSettings),
        !s.rebinding && s.screen == Screen::Network && k == MenuKey::Escape ==> menu_spec(s, MenuEvent::Key(k)).0.screen
            == Screen::FrontPage,
{
}

/// The character selection: Escape goes back (to the stage dialog in stage mode), A/D and H/K
/// cycle the characters of player 1 and 2 backwards and forwards, S and J join them, and
/// Q/I/Enter go on (to the stage match or the computer count) once someone has joined;
/// F2 adds a computer player.
pub proof fn law_character_select(s: MenuState)
    requires
        s.screen == Screen::CharacterSelect,
        !s.rebinding,
        s.num_computers < i32::MAX,
    ensures
        menu_spec(s, MenuEvent::Key(MenuKey::Escape)).0.screen == (if s.stage_mode { Screen::StageDialog } else { Screen::FrontPage }),
        menu_spec(s, MenuEvent::Key(MenuKey::A)).1 == (MenuAction::CycleCharacter { slot: 0, dir: -1i32 }),
        menu_spec(s, MenuEvent::Key(MenuKey::D)).1 == (MenuAction::CycleCharacter { slot: 0, dir: 1 }),
        menu_spec(s, MenuEvent::Key(MenuKey::H)).1 == (MenuAction::CycleCharacter { slot: 1, dir: -1i32 }),
        menu_spec(s, MenuEvent::Key(MenuKey::K)).1 == (MenuAction::CycleCharacter { slot: 1, dir: 1 }),
        menu_spec(s, MenuEvent::Key(MenuKey::S)).1 == (MenuAction::Join { slot: 0 }),
        menu_spec(s, MenuEvent::Key(MenuKey::S)).0.any_joined,
        menu_spec(s, MenuEvent::Key(MenuKey::J)).1 == (MenuAction::Join { slot: 1 }),
        !s.any_joined ==> menu_spec(s, MenuEvent::Key(MenuKey::Enter)) == (s, MenuAction::Nothing),
        s.any_joined && s.stage_mode ==> menu_spec(s, MenuEvent::Key(MenuKey::Q)) == (s, MenuAction::StartStageMatch),
        s.any_joined && !s.stage_mode ==> menu_spec(s, MenuEvent::Key(MenuKey::I)).0.screen == Screen::ComputerCount,
        menu_spec(s, MenuEvent::Key(MenuKey::F2)).0.num_computers == s.num_computers + 1,
        menu_spec(s, MenuEvent::Key(MenuKey::A)).0.screen == Screen::CharacterSelect,
{
}

/// The stage dialog: W/up and X/down move the chapter within the stages, D cycles the
/// difficulty, Enter/S/J go to the character selection, Escape leaves stage mode.
pub proof fn law_stage_dialog(s: MenuState)
    requires
        s.screen == Screen::StageDialog,
        !s.rebinding,
        s.stage_chapter < usize::MAX,
    ensures
        menu_spec(s, MenuEvent::Key(MenuKey::W)).0.stage_chapter == (if s.stage_chapter > 0 { s.stage_chapter - 1 } else { 0 }),
        s.stage_count > 0 ==> menu_spec(s, MenuEvent::Key(MenuKey::X)).0.stage_chapter == (if s.stage_chapter + 1 < s.stage_count - 1 {
            s.stage_chapter + 1
        } else {
            s.stage_count - 1
        }),
        s.stage_count == 0 ==> menu_spec(s, MenuEvent::Key(MenuKey::ArrowDown)).0.stage_chapter == 0,
        menu_spec(s, MenuEvent::Key(MenuKey::D)).0.difficulty == (if s.difficulty < 0 { 0 } else if s.difficulty == 0 { 1 } else if s.difficulty
            == 1 { 2 } else { -1 }),
        menu_spec(s, MenuEvent::Key(MenuKey::J)).0.screen == Screen::CharacterSelect,
        !menu_spec(s, MenuEvent::Key(MenuKey::Escape)).0.stage_mode && menu_spec(s, MenuEvent::Key(MenuKey::Escape)).0.screen
            == Screen::FrontPage,
{
}

/// The computer-count dialog: A/left and D/right move the cursor round 0 to 7; Enter/S/J take
/// the cursor as the number of computers and open the versus dialog.
pub proof fn law_computer_count(s: MenuState)
    requires
        s.screen == Screen::ComputerCount,
        !s.rebinding,
        0 <= s.computer_cursor < 8,
    ensures
        menu_spec(s, MenuEvent::Key(MenuKey::A)).0.computer_cursor == (if s.computer_cursor == 0 { 7 } else { s.computer_cursor - 1 }),
        menu_spec(s, MenuEvent::Key(MenuKey::ArrowLeft)).0.computer_cursor == menu_spec(s, MenuEvent::Key(MenuKey::A)).0.computer_cursor,
        menu_spec(s, MenuEvent::Key(MenuKey::D)).0.computer_cursor == (if s.computer_cursor == 7 { 0 } else { s.computer_cursor + 1 }),
        menu_spec(s, MenuEvent::Key(MenuKey::ArrowRight)).0.computer_cursor == menu_spec(s, MenuEvent::Key(MenuKey::D)).0.computer_cursor,
        menu_spec(s, MenuEvent::Key(MenuKey::Enter)).0.num_computers == s.computer_cursor,
        menu_spec(s, MenuEvent::Key(MenuKey::Enter)).0.screen == Screen::VsDialog,
        menu_spec(s, MenuEvent::Key(MenuKey::Escape)).0.screen == Screen::CharacterSelect,
{
}

/// The versus dialog's items: 0, 2 and 5 start the match, 1 unjoins everyone and returns to
/// the selection, 3 cycles the difficulty, 4 returns to the selection; a click also moves the
/// cursor to the item.
pub proof fn law_vs_items(s: MenuState, v: usize)
    ensures
        (v == 0 || v == 2 || v == 5) ==> menu_spec(s, MenuEvent::ClickVs(v)).1 == MenuAction::StartMatch,
        v == 1 ==> menu_spec(s, MenuEvent::ClickVs(v)).1 == MenuAction::ResetSlots
            && !menu_spec(s, MenuEvent::ClickVs(v)).0.any_joined
            && menu_spec(s, MenuEvent::ClickVs(v)).0.screen == Screen::CharacterSelect,
        v == 3 ==> menu_spec(s, MenuEvent::ClickVs(v)).0.difficulty == (if s.difficulty < 0 { 0 } else if s.difficulty == 0 { 1 } else if s.difficulty
            == 1 { 2 } else { -1 }),
        v == 4 ==> menu_spec(s, MenuEvent::ClickVs(v)).0.screen == Screen::CharacterSelect,
        menu_spec(s, MenuEvent::ClickVs(v)).0.vs_cursor == v,
        !s.rebinding && s.screen == Screen::VsDialog ==> menu_spec(s, MenuEvent::Key(MenuKey::Enter))
            == menu_spec(s, MenuEvent::ClickVs(s.vs_cursor)),
{
}

/// The match keys: F4 ends the match, Escape leaves it, F1/P toggle the pause, F3 shows the
/// statistics, F5 restarts, F6 toggles infinite mana, F7 refills, F8 drops and F9 destroys the
/// weapons, F10 cycles the view and F11 the renderer.
pub proof fn law_match_keys(s: MenuState)
    requires
        s.screen == Screen::Gameplay,
        !s.rebinding,
        s.in_match,
    ensures
        menu_spec(s, MenuEvent::Key(MenuKey::F4)) == (s, MenuAction::EndMatch),
        menu_spec(s, MenuEvent::Key(MenuKey::Escape)).1 == MenuAction::LeaveMatch,
        !menu_spec(s, MenuEvent::Key(MenuKey::Escape)).0.in_match && menu_spec(s, MenuEvent::Key(MenuKey::Escape)).0.screen == Screen::FrontPage,
        menu_spec(s, MenuEvent::Key(MenuKey::F1)).0.paused == !s.paused,
        menu_spec(s, MenuEvent::Key(MenuKey::P)).0.paused == !s.paused,
        menu_spec(s, MenuEvent::Key(MenuKey::F3)).1 == MenuAction::ShowStats,
        menu_spec(s, MenuEvent::Key(MenuKey::F5)).1 == MenuAction::RestartMatch,
        menu_spec(s, MenuEvent::Key(MenuKey::F6)).1 == MenuAction::ToggleInfiniteMp,
        menu_spec(s, MenuEvent::Key(MenuKey::F7)).1 == MenuAction::Refill,
        menu_spec(s, MenuEvent::Key(MenuKey::F8)).1 == MenuAction::DropWeapons,
        menu_spec(s, MenuEvent::Key(MenuKey::F9)).1 == MenuAction::DestroyWeapons,
        menu_spec(s, MenuEvent::Key(MenuKey::F10)).1 == MenuAction::CycleView,
        menu_spec(s, MenuEvent::Key(MenuKey::F11)).1 == MenuAction::ToggleRenderer,
{
}

/// The menu buttons: 0 the VS selection, 1 the network screen, 2 the settings, 3 the stage
/// dialog (from chapter 0, no computers; it says so when there is no stage data), 30 the
/// stage selection, 31 back to the front page, 32 the difficulty, 4 a demo, 99 save and back.
/// Stage, computer, background, cancel and rebind clicks set what they name.
pub proof fn law_menu_clicks(s: MenuState, c: usize, n: i32, bg: i32, slot: usize)
    ensures
        menu_spec(s, MenuEvent::Click(0)).0.screen == Screen::CharacterSelect && !menu_spec(s, MenuEvent::Click(0)).0.stage_mode,
        menu_spec(s, MenuEvent::Click(1)) == (MenuState { screen: Screen::Network, ..s }, MenuAction::OpenNetwork),
        menu_spec(s, MenuEvent::Click(2)).0.screen == Screen::Settings,
        menu_spec(s, MenuEvent::Click(3)).0.stage_mode && menu_spec(s, MenuEvent::Click(3)).0.stage_chapter == 0
            && menu_spec(s, MenuEvent::Click(3)).0.num_computers == 0,
        s.has_stage_data ==> menu_spec(s, MenuEvent::Click(3)).0.screen == Screen::StageDialog,
        !s.has_stage_data ==> menu_spec(s, MenuEvent::Click(3)).1 == MenuAction::NoStageData,
        menu_spec(s, MenuEvent::Click(30)).0.stage_mode && menu_spec(s, MenuEvent::Click(30)).0.screen == Screen::CharacterSelect,
        !menu_spec(s, MenuEvent::Click(31)).0.stage_mode && menu_spec(s, MenuEvent::Click(31)).0.screen == Screen::FrontPage,
        menu_spec(s, MenuEvent::Click(32)).0.difficulty == (if s.difficulty < 0 { 0 } else if s.difficulty == 0 { 1 } else if s.difficulty
            == 1 { 2 } else { -1 }),
        menu_spec(s, MenuEvent::Click(4)) == (s, MenuAction::StartDemo),
        menu_spec(s, MenuEvent::Click(99)) == (MenuState { screen: Screen::FrontPage, ..s }, MenuAction::SaveSettings),
        menu_spec(s, MenuEvent::Click(7)) == (s, MenuAction::Nothing),
        menu_spec(s, MenuEvent::ClickStage(c)).0.stage_chapter == c && menu_spec(s, MenuEvent::ClickStage(c)).0.stage_mode,
        menu_spec(s, MenuEvent::ClickComputers(n)).0.computer_cursor == n && menu_spec(s, MenuEvent::ClickComputers(n)).0.num_computers == n,
        menu_spec(s, MenuEvent::ClickBackground(bg)).0.selected_bg == bg,
        menu_spec(s, MenuEvent::Cancel) == (MenuState { screen: Screen::FrontPage, ..s }, MenuAction::Disconnect),
        menu_spec(s, MenuEvent::Rebind(slot)) == (MenuState { rebinding: true, ..s }, MenuAction::AwaitRebind { slot }),
{
}

/// Cycling a character index steps by the direction, wrapping below the random pick (-1) to
/// the last character and past the last back to -1.
pub proof fn law_next_char(idx: i32, dir: i32, n: i32)
    requires
        n > 0,
        -1 <= idx < n,
        dir == 1 || dir == -1,
    ensures
        -1 <= next_char_spec(idx, dir, n) < n,
        dir == 1 && idx + 1 < n ==> next_char_spec(idx, dir, n) == idx + 1,
        dir == 1 && idx == n - 1 ==> next_char_spec(idx, dir, n) == -1,
        dir == -1 && idx == -1 ==> next_char_spec(idx, dir, n) == n - 1,
        dir == -1 && idx >= 0 ==> next_char_spec(idx, dir, n) == idx - 1,
{
}

} // verus!
