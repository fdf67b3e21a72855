//! Terminal display: UI mode selection and the display's progress state.
//! Drawing on the terminal is left to the caller.

use vstd::prelude::*;

verus! {

/// How rich the terminal UI is.
#[derive(Clone, Copy, Debug, PartialEq, Eq, Structural)]
pub enum UiMode {
    /// Decide from the terminal's capabilities.
    Auto,
    /// Always use the rich UI.
    Enabled,
    /// Plain text only.
    Disabled,
}

/// UI mode as given on the command line.
#[derive(Clone, Copy, Debug, PartialEq, Eq, Structural)]
pub enum CliUiMode {
    Auto,
    Enabled,
    Disabled,
}

/// The UI mode a command-line choice stands for.
pub open spec fn ui_mode_of(mode: CliUiMode) -> UiMode {
    match mode {
        CliUiMode::Auto => UiMode::Auto,
        CliUiMode::Enabled => UiMode::Enabled,
        CliUiMode::Disabled => UiMode::Disabled,
    }
}

impl Default for CliUiMode {
    fn default() -> (r: Self)
        ensures
            r == CliUiMode::Auto,
    {
        CliUiMode::Auto
    }
}

impl From<CliUiMode> for UiMode {
    fn from(mode: CliUiMode) -> (r: Self)
        ensures
            r == ui_mode_of(mode),
    {
        match mode {
            CliUiMode::Auto => UiMode::Auto,
            CliUiMode::Enabled => UiMode::Enabled,
            CliUiMode::Disabled => UiMode::Disabled,
        }
    }
}

impl vstd::std_specs::convert::FromSpecImpl<CliUiMode> for UiMode {
    open spec fn obeys_from_spec() -> bool {
        true
    }

    open spec fn from_spec(v: CliUiMode) -> Self {
        ui_mode_of(v)
    }
}

/// Options that govern rendering.
#[derive(Clone, Copy, Debug)]
pub struct DisplayOptions {
    pub ui_mode: UiMode,
    /// Colors allowed.
    pub color: bool,
    /// Only errors are shown.
    pub quiet: bool,
}

impl DisplayOptions {
    /// Automatic UI mode, colors on, not quiet.
    pub fn new() -> (r: Self)
        ensures
            r.ui_mode == UiMode::Auto,
            r.color,
            !r.quiet,
    {
        DisplayOptions { ui_mode: UiMode::Auto, color: true, quiet: false }
    }

    pub fn with_ui_mode(self, ui_mode: UiMode) -> (r: Self)
        ensures
            r == (DisplayOptions { ui_mode, ..self }),
    {
        DisplayOptions { ui_mode, ..self }
    }

    pub fn with_color(self, color: bool) -> (r: Self)
        ensures
            r == (DisplayOptions { color, ..self }),
    {
        DisplayOptions { color, ..self }
    }

    pub fn with_quiet(self, quiet: bool) -> (r: Self)
        ensures
            r == (DisplayOptions { quiet, ..self }),
    {
        DisplayOptions { quiet, ..self }
    }
}

/// Display options from the command-line flags.
pub fn build_display_options(ui: CliUiMode, no_color: bool, quiet: bool) -> (r: DisplayOptions)
    ensures
        r.ui_mode == ui_mode_of(ui),
        r.color == !no_color,
        r.quiet == quiet,
{
    DisplayOptions::new().with_ui_mode(UiMode::from(ui)).with_color(!no_color).with_quiet(quiet)
}

/// Position of an iteration progress bar.
#[derive(Clone, Copy, Debug, PartialEq, Eq, Structural)]
pub struct IterationProgress {
    pub current: u64,
    pub total: u64,
}

/// State of the terminal display: color and feature flags, the active
/// spinner's message and the iteration progress bar.
pub struct RalphDisplay {
    colors_enabled: bool,
    advanced_features: bool,
    active_spinner: Option<String>,
    iteration_progress: Option<IterationProgress>,
}

impl RalphDisplay {
    pub closed spec fn spec_colors(&self) -> bool {
        self.colors_enabled
    }

    pub closed spec fn spec_advanced(&self) -> bool {
        self.advanced_features
    }

    /// The active spinner's message.
    pub closed spec fn spec_spinner(&self) -> Option<Seq<char>> {
        match self.active_spinner {
            Some(m) => Some(m@),
            None => None,
        }
    }

    /// The iteration progress bar.
    pub closed spec fn spec_progress(&self) -> Option<IterationProgress> {
        self.iteration_progress
    }

    /// A display with no spinner and no progress bar, with the detected
    /// terminal capabilities.
    pub fn new(colors_enabled: bool, advanced_features: bool) -> (r: Self)
        ensures
            r.spec_colors() == colors_enabled,
            r.spec_advanced() == advanced_features,
            r.spec_spinner() is None,
            r.spec_progress() is None,
    {
        RalphDisplay {
            colors_enabled,
            advanced_features,
            active_spinner: None,
            iteration_progress: None,
        }
    }

    pub fn colors_enabled(&self) -> (r: bool)
        ensures
            r == self.spec_colors(),
    {
        self.colors_enabled
    }

    pub fn set_colors_enabled(&mut self, enabled: bool)
        ensures
            final(self).spec_colors() == enabled,
            final(self).spec_advanced() == old(self).spec_advanced(),
            final(self).spec_spinner() == old(self).spec_spinner(),
            final(self).spec_progress() == old(self).spec_progress(),
    {
        self.colors_enabled = enabled;
    }

    pub fn advanced_features(&self) -> (r: bool)
        ensures
            r == self.spec_advanced(),
    {
        self.advanced_features
    }

    /// Start a spinner, replacing any active one; true when one was replaced.
    pub fn start_spinner(&mut self, message: &str) -> (replaced: bool)
        ensures
            replaced == old(self).spec_spinner() is Some,
            final(self).spec_spinner() == Some(message@),
            final(self).spec_colors() == old(self).spec_colors(),
            final(self).spec_advanced() == old(self).spec_advanced(),
            final(self).spec_progress() == old(self).spec_progress(),
    {
        let replaced = self.stop_spinner();
        self.active_spinner = Some(String::from_str(message));
        replaced
    }

    /// Stop the active spinner with a final message; the message to show, or
    /// `None` when no spinner was active.
    pub fn stop_spinner_with_success(&mut self, message: &str) -> (shown: Option<String>)
        ensures
            final(self).spec_spinner() is None,
            old(self).spec_spinner() is Some <==> shown is Some,
            shown matches Some(m) ==> m@ == message@,
            final(self).spec_progress() == old(self).spec_progress(),
            final(self).spec_colors() == old(self).spec_colors(),
            final(self).spec_advanced() == old(self).spec_advanced(),
    {
        if self.stop_spinner() {
            Some(String::from_str(message))
        } else {
            None
        }
    }

    /// Stop the active spinner with an error message; the message to show, or
    /// `None` when no spinner was active.
    pub fn stop_spinner_with_error(&mut self, message: &str) -> (shown: Option<String>)
        ensures
            final(self).spec_spinner() is None,
            old(self).spec_spinner() is Some <==> shown is Some,
            shown matches Some(m) ==> m@ == message@,
            final(self).spec_progress() == old(self).spec_progress(),
            final(self).spec_colors() == old(self).spec_colors(),
            final(self).spec_advanced() == old(self).spec_advanced(),
    {
        if self.stop_spinner() {
            Some(String::from_str(message))
        } else {
            None
        }
    }

    /// Stop and clear the active spinner; true when one was active.
    pub fn stop_spinner(&mut self) -> (was_active: bool)
        ensures
            was_active == old(self).spec_spinner() is Some,
            final(self).spec_spinner() is None,
            final(self).spec_progress() == old(self).spec_progress(),
            final(self).spec_colors() == old(self).spec_colors(),
            final(self).spec_advanced() == old(self).spec_advanced(),
    {
        let was_active = self.active_spinner.is_some();
        self.active_spinner = None;
        was_active
    }

    /// Change the active spinner's message; no effect without one.
    pub fn update_spinner_message(&mut self, message: &str)
        ensures
            final(self).spec_spinner() == match old(self).spec_spinner() {
                Some(_) => Some(message@),
                None => None,
            },
            final(self).spec_progress() == old(self).spec_progress(),
            final(self).spec_colors() == old(self).spec_colors(),
            final(self).spec_advanced() == old(self).spec_advanced(),
    {
        if self.active_spinner.is_some() {
            self.active_spinner = Some(String::from_str(message));
        }
    }

    pub fn has_active_spinner(&self) -> (r: bool)
        ensures
            r == self.spec_spinner() is Some,
    {
        self.active_spinner.is_some()
    }

    /// Start a progress bar at 0 of `total`, replacing any active one.
    pub fn start_iteration_progress(&mut self, total: u64)
        ensures
            final(self).spec_progress() == Some(IterationProgress { current: 0, total }),
            final(self).spec_spinner() == old(self).spec_spinner(),
            final(self).spec_colors() == old(self).spec_colors(),
            final(self).spec_advanced() == old(self).spec_advanced(),
    {
        self.iteration_progress = Some(IterationProgress { current: 0, total });
    }

    /// Advance the progress bar by one; no effect without one.
    pub fn inc_iteration(&mut self)
        ensures
            final(self).spec_progress() == match old(self).spec_progress() {
                Some(p) => Some(
                    IterationProgress {
                        current: if p.current == u64::MAX {
                            p.current
                        } else {
                            (p.current + 1) as u64
                        },
                        total: p.total,
                    },
                ),
                None => None,
            },
            final(self).spec_spinner() == old(self).spec_spinner(),
            final(self).spec_colors() == old(self).spec_colors(),
            final(self).spec_advanced() == old(self).spec_advanced(),
    {
        match self.iteration_progress {
            Some(p) => {
                self.iteration_progress = Some(
                    IterationProgress { current: p.current.saturating_add(1), total: p.total },
                );
            },
            None => {},
        }
    }

    /// Move the progress bar to `pos`; no effect without one.
    pub fn set_iteration(&mut self, pos: u64)
        ensures
            final(self).spec_progress() == match old(self).spec_progress() {
                Some(p) => Some(IterationProgress { current: pos, total: p.total }),
                None => None,
            },
            final(self).spec_spinner() == old(self).spec_spinner(),
            final(self).spec_colors() == old(self).spec_colors(),
            final(self).spec_advanced() == old(self).spec_advanced(),
    {
        match self.iteration_progress {
            Some(p) => {
                self.iteration_progress = Some(IterationProgress { current: pos, total: p.total });
            },
            None => {},
        }
    }

    /// The progress bar's position, or 0 without one.
    pub fn current_iteration(&self) -> (r: u64)
        ensures
            r == match self.spec_progress() {
                Some(p) => p.current,
                None => 0,
            },
    {
        match self.iteration_progress {
            Some(p) => p.current,
            None => 0,
        }
    }

    /// The progress bar's length, or 0 without one.
    pub fn total_iterations(&self) -> (r: u64)
        ensures
            r == match self.spec_progress() {
                Some(p) => p.total,
                None => 0,
            },
    {
        match self.iteration_progress {
            Some(p) => p.total,
            None => 0,
        }
    }

    /// Remove the progress bar; what it showed, if there was one.
    pub fn stop_iteration_progress(&mut self) -> (r: Option<IterationProgress>)
        ensures
            r == old(self).spec_progress(),
            final(self).spec_progress() is None,
            final(self).spec_spinner() == old(self).spec_spinner(),
            final(self).spec_colors() == old(self).spec_colors(),
            final(self).spec_advanced() == old(self).spec_advanced(),
    {
        let r = self.iteration_progress;
        self.iteration_progress = None;
        r
    }

    /// Finish the progress bar, which is left showing its full length; the
    /// finished bar, if there was one.
    pub fn finish_iteration_progress(&mut self) -> (r: Option<IterationProgress>)
        ensures
            r == match old(self).spec_progress() {
                Some(p) => Some(IterationProgress { current: p.total, total: p.total }),
                None => None,
            },
            final(self).spec_progress() is None,
            final(self).spec_spinner() == old(self).spec_spinner(),
            final(self).spec_colors() == old(self).spec_colors(),
            final(self).spec_advanced() == old(self).spec_advanced(),
    {
        let r = match self.iteration_progress {
            Some(p) => Some(IterationProgress { current: p.total, total: p.total }),
            None => None,
        };
        self.iteration_progress = None;
        r
    }
}

} // verus!
