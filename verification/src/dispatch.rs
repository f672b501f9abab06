//! The control loop's decisions.
//!
//! The loop sleeps until it is woken, looks once for a menu event and once
//! for a hotkey event, and acts on what it found before it sleeps again.
//! What it found becomes a [`Plan`]; [`LoopState`] says whether the loop is
//! asleep, at work, or over.

use vstd::prelude::*;

verus! {

/// What a menu item asks for.
#[derive(Clone, Copy, Debug, PartialEq, Eq)]
pub enum MenuCommand {
    /// End the process.
    Quit,
    /// Open the configuration file in an editor.
    EditConfig,
}

/// The identifiers under which the two menu items report.
#[derive(Clone, Debug, PartialEq, Eq)]
pub struct MenuIds {
    pub quit: String,
    pub edit_config: String,
}

/// What there is to do in one cycle: at most one menu command, carried out
/// first, and at most one run of the pipeline. A `Quit` takes effect when the
/// cycle is over.
#[derive(Clone, Copy, Debug, PartialEq, Eq)]
pub struct Plan {
    pub menu: Option<MenuCommand>,
    pub translate: bool,
}

/// The state of the control loop.
#[derive(Clone, Copy, Debug, PartialEq, Eq)]
pub enum LoopState {
    /// Asleep until an event arrives.
    Idle,
    /// Carrying out a plan.
    Dispatching(Plan),
    /// Over: nothing is carried out any more.
    Terminated,
}

/// The command that the menu event `id` stands for. An identifier that is
/// neither item's stands for none; the `Quit` item is looked at first.
pub open spec fn command_for(quit: Seq<char>, edit_config: Seq<char>, id: Seq<char>) -> Option<
    MenuCommand,
> {
    if id == quit {
        Some(MenuCommand::Quit)
    } else if id == edit_config {
        Some(MenuCommand::EditConfig)
    } else {
        None
    }
}

/// The plan for a cycle that found the menu event `menu_event`, if any, and
/// a hotkey event or none.
pub open spec fn plan_for(
    quit: Seq<char>,
    edit_config: Seq<char>,
    menu_event: Option<Seq<char>>,
    hotkey: bool,
) -> Plan {
    Plan {
        menu: match menu_event {
            Some(id) => command_for(quit, edit_config, id),
            None => None,
        },
        translate: hotkey,
    }
}

impl Plan {
    /// Whether the plan holds nothing to do.
    pub open spec fn is_empty(self) -> bool {
        self.menu is None && !self.translate
    }
}

impl LoopState {
    /// The state after a wake-up that found `plan`. An idle loop goes to work
    /// where there is something to do. A loop at work is not interrupted, and
    /// a loop that is over stays so.
    pub open spec fn woken(self, plan: Plan) -> LoopState {
        match self {
            LoopState::Idle => if plan.is_empty() {
                LoopState::Idle
            } else {
                LoopState::Dispatching(plan)
            },
            _ => self,
        }
    }

    /// The state after the work at hand is done: over where the plan held
    /// `Quit`, idle otherwise.
    pub open spec fn settled(self) -> LoopState {
        match self {
            LoopState::Dispatching(plan) => if plan.menu == Some(MenuCommand::Quit) {
                LoopState::Terminated
            } else {
                LoopState::Idle
            },
            _ => self,
        }
    }

    /// The plan that is being carried out, if any.
    pub open spec fn work(self) -> Option<Plan> {
        match self {
            LoopState::Dispatching(plan) => Some(plan),
            _ => None,
        }
    }
}

impl MenuIds {
    /// Tells which command a menu event stands for.
    pub fn classify(&self, id: &String) -> (command: Option<MenuCommand>)
        ensures
            command == command_for(self.quit@, self.edit_config@, id@),
    {
        if *id == self.quit {
            Some(MenuCommand::Quit)
        } else if *id == self.edit_config {
            Some(MenuCommand::EditConfig)
        } else {
            None
        }
    }

    /// Makes the plan for one cycle from what the loop found on waking: the
    /// identifier of a pending menu event, if there was one, and whether a
    /// hotkey event was pending.
    pub fn plan(&self, menu_event: Option<String>, hotkey: bool) -> (plan: Plan)
        ensures
            plan == plan_for(self.quit@, self.edit_config@, menu_event.deep_view(), hotkey),
    {
        let menu = match menu_event {
            Some(id) => self.classify(&id),
            None => None,
        };
        Plan { menu, translate: hotkey }
    }
}

impl LoopState {
    /// The loop wakes and finds `plan`.
    pub fn wake(self, plan: Plan) -> (next: LoopState)
        ensures
            next == self.woken(plan),
    {
        match self {
            LoopState::Idle => {
                if plan.menu.is_none() && !plan.translate {
                    LoopState::Idle
                } else {
                    LoopState::Dispatching(plan)
                }
            },
            other => other,
        }
    }

    /// The work at hand is done.
    pub fn settle(self) -> (next: LoopState)
        ensures
            next == self.settled(),
    {
        match self {
            LoopState::Dispatching(plan) => {
                match plan.menu {
                    Some(MenuCommand::Quit) => LoopState::Terminated,
                    _ => LoopState::Idle,
                }
            },
            other => other,
        }
    }
}

/// Only `Quit` ends the loop: a cycle that began idle ends over exactly when
/// its plan holds `Quit`, and idle otherwise.
pub proof fn law_only_quit_terminates(plan: Plan)
    ensures
        LoopState::Idle.woken(plan).settled() == if plan.menu == Some(MenuCommand::Quit) {
            LoopState::Terminated
        } else {
            LoopState::Idle
        },
{
}

/// A loop that is over stays over and carries nothing out.
pub proof fn law_terminated_is_final(plan: Plan)
    ensures
        LoopState::Terminated.woken(plan) == LoopState::Terminated,
        LoopState::Terminated.settled() == LoopState::Terminated,
        LoopState::Terminated.woken(plan).work() is None,
{
}

/// A loop at work is not given a second plan: what it carries out is what it
/// was carrying out.
pub proof fn law_no_dispatch_within_dispatch(current: Plan, found: Plan)
    ensures
        LoopState::Dispatching(current).woken(found) == LoopState::Dispatching(current),
{
}

/// A menu event and a hotkey event found in the same cycle are both acted
/// on.
pub proof fn law_menu_and_hotkey_are_both_seen(
    quit: Seq<char>,
    edit_config: Seq<char>,
    id: Seq<char>,
)
    ensures
        plan_for(quit, edit_config, Some(id), true).translate,
        plan_for(quit, edit_config, Some(id), true).menu == command_for(quit, edit_config, id),
        plan_for(quit, edit_config, None, false).is_empty(),
{
}

} // verus!
