//! The state of the applet and what each message does to it.
//!
//! The applet's shell performs what the model decides: it hands every
//! message to [`AppModel::update`] and carries out the command that comes
//! back.

use crate::time::{sample, SampledTime, TimeOfDay, UTC_OFFSET_SECONDS};
use crate::widget::ClockWidget;
use vstd::prelude::*;

verus! {

/// The seconds between two ticks of the clock.
pub const TICK_SECONDS: u64 = 1;

/// The least width of the popup, in units of the screen.
pub const POPUP_MIN_WIDTH: u32 = 300;

/// The greatest width of the popup.
pub const POPUP_MAX_WIDTH: u32 = 372;

/// The least height of the popup.
pub const POPUP_MIN_HEIGHT: u32 = 200;

/// The greatest height of the popup.
pub const POPUP_MAX_HEIGHT: u32 = 1080;

/// The sizes between which a popup may be laid out.
#[derive(Clone, Copy, Debug, PartialEq, Eq, Structural)]
pub struct PopupLimits {
    pub min_width: u32,
    pub max_width: u32,
    pub min_height: u32,
    pub max_height: u32,
}

/// The limits of the applet's popup.
pub open spec fn popup_limits() -> PopupLimits {
    PopupLimits {
        min_width: POPUP_MIN_WIDTH,
        max_width: POPUP_MAX_WIDTH,
        min_height: POPUP_MIN_HEIGHT,
        max_height: POPUP_MAX_HEIGHT,
    }
}

/// Messages emitted by the applet and its widgets. `C` is the applet's
/// configuration, which the model carries and never reads.
#[derive(Debug)]
pub enum Message<C> {
    /// Close the popup if one is open; else open one under this identifier,
    /// which no window has had before.
    TogglePopup(u64),
    Tick,
    PopupClosed(u64),
    SubscriptionChannel,
    UpdateConfig(C),
    ToggleExampleRow(bool),
}

impl<C: Clone> Clone for Message<C> {
    /// A copy of the message: the same message, but that a configuration is
    /// copied as its own `clone` copies it.
    fn clone(&self) -> (copy: Message<C>)
        ensures
            *self is UpdateConfig ==> copy is UpdateConfig,
            !(*self is UpdateConfig) ==> copy == *self,
    {
        match self {
            Message::TogglePopup(fresh_id) => Message::TogglePopup(*fresh_id),
            Message::Tick => Message::Tick,
            Message::PopupClosed(id) => Message::PopupClosed(*id),
            Message::SubscriptionChannel => Message::SubscriptionChannel,
            Message::UpdateConfig(config) => Message::UpdateConfig(config.clone()),
            Message::ToggleExampleRow(toggled) => Message::ToggleExampleRow(*toggled),
        }
    }
}

/// What the shell is to do after a message.
#[derive(Clone, Copy, Debug, PartialEq, Eq, Structural)]
pub enum Command {
    /// Nothing.
    Nothing,
    /// Close the popup window with this identifier.
    DestroyPopup(u64),
    /// Open a popup window under this identifier, within these limits.
    OpenPopup { id: u64, limits: PopupLimits },
}

/// The applet's state as its transitions see it.
pub struct AppState<C> {
    /// The identifier of the popup window, while one is open.
    pub popup: Option<u64>,
    /// The configuration last received.
    pub config: C,
    /// The position of the example toggle.
    pub example_row: bool,
    /// The time that the clock face shows.
    pub current_time: TimeOfDay,
}

/// The state after `message` and the command that goes with it, where `now`
/// is the time that the clock shows when the message is a tick.
pub open spec fn step<C>(pre: AppState<C>, message: Message<C>, now: TimeOfDay) -> (
    AppState<C>,
    Command,
) {
    match message {
        Message::TogglePopup(fresh_id) => match pre.popup {
            Some(open) => (AppState { popup: None, ..pre }, Command::DestroyPopup(open)),
            None => (
                AppState { popup: Some(fresh_id), ..pre },
                Command::OpenPopup { id: fresh_id, limits: popup_limits() },
            ),
        },
        Message::Tick => (AppState { current_time: now, ..pre }, Command::Nothing),
        Message::PopupClosed(id) => (
            if pre.popup == Some(id) {
                AppState { popup: None, ..pre }
            } else {
                pre
            },
            Command::Nothing,
        ),
        Message::SubscriptionChannel => (pre, Command::Nothing),
        Message::UpdateConfig(config) => (AppState { config, ..pre }, Command::Nothing),
        Message::ToggleExampleRow(toggled) => (
            AppState { example_row: toggled, ..pre },
            Command::Nothing,
        ),
    }
}

/// Only a tick moves the clock, and a tick moves nothing else: after any
/// other message the state shows the time it showed before, and after a tick
/// the state differs from the one before in its time alone.
pub proof fn lemma_only_a_tick_moves_the_clock<C>(
    pre: AppState<C>,
    message: Message<C>,
    now: TimeOfDay,
)
    ensures
        !(message is Tick) ==> step(pre, message, now).0.current_time == pre.current_time,
        message is Tick ==> step(pre, message, now) == (
            AppState { current_time: now, ..pre },
            Command::Nothing,
        ),
{
}

/// The application model stores the state that describes the applet's
/// interface and drives its logic.
pub struct AppModel<C> {
    /// The popup id.
    popup: Option<u64>,
    /// Configuration data that persists between application runs.
    config: C,
    /// Example row toggler.
    example_row: bool,
    /// The time that the clock face shows.
    current_time: SampledTime,
}

impl<C> View for AppModel<C> {
    type V = AppState<C>;

    closed spec fn view(&self) -> AppState<C> {
        AppState {
            popup: self.popup,
            config: self.config,
            example_row: self.example_row,
            current_time: self.current_time@,
        }
    }
}

impl<C> AppModel<C> {
    /// The model of an applet that starts at `now` with `config`: no popup
    /// is open and the example toggle is off.
    pub fn new(config: C, now: SampledTime) -> (model: AppModel<C>)
        ensures
            model@ == (AppState { popup: None, config, example_row: false, current_time: now@ }),
    {
        AppModel { popup: None, config, example_row: false, current_time: now }
    }

    /// The model of an applet that starts now with `config`: no popup is
    /// open, the example toggle is off and the clock shows a time of day.
    pub fn init(config: C) -> (model: AppModel<C>)
        ensures
            model@ == (AppState {
                popup: None,
                config,
                example_row: false,
                current_time: model@.current_time,
            }),
            model@.current_time.valid(),
    {
        AppModel::new(config, sample(UTC_OFFSET_SECONDS))
    }

    /// Takes `message` in at a moment when the clock shows `now`.
    pub fn apply(&mut self, message: Message<C>, now: SampledTime) -> (command: Command)
        ensures
            (final(self)@, command) == step(old(self)@, message, now@),
    {
        match message {
            Message::Tick => {
                self.current_time = now;
            },
            Message::SubscriptionChannel => {},
            Message::UpdateConfig(config) => {
                self.config = config;
            },
            Message::ToggleExampleRow(toggled) => {
                self.example_row = toggled;
            },
            Message::TogglePopup(fresh_id) => {
                match self.popup {
                    Some(open) => {
                        self.popup = None;
                        return Command::DestroyPopup(open);
                    },
                    None => {
                        self.popup = Some(fresh_id);
                        return Command::OpenPopup {
                            id: fresh_id,
                            limits: PopupLimits {
                                min_width: POPUP_MIN_WIDTH,
                                max_width: POPUP_MAX_WIDTH,
                                min_height: POPUP_MIN_HEIGHT,
                                max_height: POPUP_MAX_HEIGHT,
                            },
                        };
                    },
                }
            },
            Message::PopupClosed(id) => {
                match self.popup {
                    Some(open) => {
                        if open == id {
                            self.popup = None;
                        }
                    },
                    None => {},
                }
            },
        }
        Command::Nothing
    }

    /// Handles a message emitted by the applet or one of its widgets, and
    /// tells what the shell is to do. A tick reads the clock; the state after
    /// it shows a time of day.
    pub fn update(&mut self, message: Message<C>) -> (command: Command)
        ensures
            (final(self)@, command) == step(old(self)@, message, final(self)@.current_time),
            final(self)@.current_time.valid(),
    {
        proof {
            use_type_invariant(&self.current_time);
        }
        let now = match message {
            Message::Tick => sample(UTC_OFFSET_SECONDS),
            _ => self.current_time,
        };
        self.apply(message, now)
    }

    /// The clock face to draw: it shows the model's time.
    pub fn widget(&self) -> (widget: ClockWidget)
        ensures
            widget.current_time@ == self@.current_time,
    {
        ClockWidget { current_time: self.current_time }
    }

    /// The identifier of the popup window, while one is open.
    pub fn popup(&self) -> (popup: Option<u64>)
        ensures
            popup == self@.popup,
    {
        self.popup
    }

    /// The configuration last received.
    pub fn config(&self) -> (config: &C)
        ensures
            *config == self@.config,
    {
        &self.config
    }

    /// The position of the example toggle.
    pub fn example_row(&self) -> (example_row: bool)
        ensures
            example_row == self@.example_row,
    {
        self.example_row
    }

    /// The time that the clock face shows.
    pub fn current_time(&self) -> (time: SampledTime)
        ensures
            time@ == self@.current_time,
            time@.valid(),
    {
        proof {
            use_type_invariant(&self.current_time);
        }
        self.current_time
    }
}

} // verus!
