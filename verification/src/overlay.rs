//! The overlay's replica of the configuration.
//!
//! The reader of the channel hands in each decoded record; the render loop
//! asks once per frame whether the window has to be resized and moved. The
//! last record wins, and a line that could not be decoded changes nothing.

use vstd::prelude::*;
use crate::config::{Config, Placement};

verus! {

/// The state of the overlay: the configuration in force, whether it changed
/// since the window was last fitted to it, and the size of the screen.
#[derive(Clone, Copy, Debug, PartialEq, Eq)]
pub struct OverlayApp {
    pub config: Config,
    pub config_changed: bool,
    pub screen_size: (u32, u32),
}

/// True when a line of the channel is to be decoded: blank lines are passed
/// over.
pub fn carries_record(line: &[u8]) -> (wanted: bool)
    ensures
        wanted == (line@.len() > 0),
{
    line.len() > 0
}

impl OverlayApp {
    /// The overlay after one line: a decoded record replaces the
    /// configuration and marks it changed; a line that could not be decoded
    /// leaves everything as it was.
    pub open spec fn received(self, decoded: Option<Config>) -> OverlayApp {
        match decoded {
            Some(config) => OverlayApp { config, config_changed: true, ..self },
            None => self,
        }
    }

    /// The overlay after a run of lines, taken in order.
    pub open spec fn replayed(self, lines: Seq<Option<Config>>) -> OverlayApp
        decreases lines.len(),
    {
        if lines.len() == 0 {
            self
        } else {
            self.replayed(lines.drop_last()).received(lines.last())
        }
    }

    /// The overlay once the window has been fitted to the configuration.
    pub open spec fn fitted(self) -> OverlayApp {
        OverlayApp { config_changed: false, ..self }
    }

    /// The placement that the next frame applies, if any.
    pub open spec fn due_placement(self) -> Option<Placement> {
        if self.config_changed {
            Some(self.config.spec_placement(self.screen_size))
        } else {
            None
        }
    }

    /// The overlay at its start, with the loaded configuration on a screen
    /// of the given size. The configuration counts as changed, so the first
    /// frame fits the window to it: its side is the window size, and its
    /// corner centres it on the screen and moves it by the offsets.
    pub fn started(config: Config, screen_size: (u32, u32)) -> (app: OverlayApp)
        ensures
            app == (OverlayApp { config, config_changed: true, screen_size }),
            app.due_placement() == Some(config.spec_placement(screen_size)),
    {
        OverlayApp { config, config_changed: true, screen_size }
    }

    /// An overlay with the given configuration and change mark on a screen
    /// of the given size.
    pub fn new(config: Config, config_changed: bool, screen_size: (u32, u32)) -> (app: OverlayApp)
        ensures
            app == (OverlayApp { config, config_changed, screen_size }),
    {
        OverlayApp { config, config_changed, screen_size }
    }

    /// Takes the outcome of decoding one line of the channel: the record, or
    /// nothing when the line was malformed. Returns true when the
    /// configuration was replaced, and the render loop is to be woken.
    pub fn receive(&mut self, decoded: Option<Config>) -> (wake: bool)
        ensures
            *final(self) == old(self).received(decoded),
            wake == decoded.is_some(),
    {
        match decoded {
            Some(config) => {
                self.config = config;
                self.config_changed = true;
                true
            },
            None => false,
        }
    }

    /// One frame of the render loop. When the configuration changed since
    /// the last frame, returns the size and position that the window is to
    /// take, and the change counts as seen; otherwise returns nothing.
    pub fn update(&mut self) -> (placement: Option<Placement>)
        ensures
            *final(self) == old(self).fitted(),
            placement == old(self).due_placement(),
    {
        if self.config_changed {
            self.config_changed = false;
            Some(self.config.placement(self.screen_size))
        } else {
            None
        }
    }
}

/// The last decoded record of a run of lines, if the run holds one.
pub open spec fn last_record(lines: Seq<Option<Config>>) -> Option<Config>
    decreases lines.len(),
{
    if lines.len() == 0 {
        None
    } else if lines.last().is_some() {
        lines.last()
    } else {
        last_record(lines.drop_last())
    }
}

/// The last record wins: after any run of lines the configuration is the
/// last record that could be decoded, and the configuration from before
/// when none could. The screen size never changes.
pub proof fn lemma_last_record_wins(app: OverlayApp, lines: Seq<Option<Config>>)
    ensures
        app.replayed(lines).config == match last_record(lines) {
            Some(config) => config,
            None => app.config,
        },
        app.replayed(lines).config_changed == (app.config_changed || last_record(lines).is_some()),
        app.replayed(lines).screen_size == app.screen_size,
    decreases lines.len(),
{
    if lines.len() > 0 {
        lemma_last_record_wins(app, lines.drop_last());
    }
}

/// A malformed line followed by a valid one: the valid one is in force.
pub proof fn lemma_malformed_line_is_skipped(app: OverlayApp, config: Config)
    ensures
        app.received(None) == app,
        app.replayed(seq![None, Some(config)]).config == config,
        app.replayed(seq![None, Some(config)]).config_changed,
{
    let lines = seq![None, Some(config)];
    assert(lines.drop_last() =~= seq![None::<Config>]);
    assert(lines.drop_last().drop_last() =~= Seq::<Option<Config>>::empty());
    assert(app.replayed(lines.drop_last().drop_last()) == app);
    assert(app.replayed(lines.drop_last()) == app);
}

/// A change is applied once: the frame after a record fits the window to
/// it, and the frame after that has nothing to do.
pub proof fn lemma_change_is_applied_once(app: OverlayApp, config: Config)
    ensures
        app.received(Some(config)).due_placement() == Some(
            config.spec_placement(app.screen_size),
        ),
        app.received(Some(config)).fitted().due_placement().is_none(),
        app.received(Some(config)).fitted().config == config,
{
}

} // verus!
