//! An explicit model of the slice of the game world that the session
//! mechanics touch: the screen, the cameras, the at-most-one timer
//! readout, the at-most-one level title, and the high-score store.
//!
//! The zero-or-one invariants of the readout and the title are enforced
//! structurally: each lives in an `Option` field, so creating a new one
//! replaces any previous instance.

use crate::high_scores::HighScores;
use crate::time::format_seconds;
use crate::time::seconds_display;
use vstd::prelude::*;

verus! {

/// The viewport, in whole pixels.
pub struct ScreenDimensions {
    pub width: u32,
    pub height: u32,
}

/// A 2D camera covering the viewport it was created against.
pub struct Camera {
    pub width: u32,
    pub height: u32,
}

/// The on-screen timer readout entity: the text it displays, tagged so
/// the session logic can find and finally delete it.
pub struct TimerComponent {
    pub text: String,
}

impl View for TimerComponent {
    type V = Seq<char>;

    open spec fn view(&self) -> Seq<char> {
        self.text@
    }
}

/// The level-title entity: the visual asset it displays. At most one
/// exists across the whole game.
pub struct LevelTitle {
    pub sprite: String,
}

impl View for LevelTitle {
    type V = Seq<char>;

    open spec fn view(&self) -> Seq<char> {
        self.sprite@
    }
}

/// The text the readout displays, or nothing where no readout exists.
pub open spec fn readout_view(readout: Option<TimerComponent>) -> Option<Seq<char>> {
    match readout {
        Some(r) => Some(r@),
        None => None,
    }
}

/// The asset the level title displays, or nothing where no title exists.
pub open spec fn title_view(title: Option<LevelTitle>) -> Option<Seq<char>> {
    match title {
        Some(t) => Some(t@),
        None => None,
    }
}

/// The readout text shown while a session runs: the whole seconds
/// elapsed against the configured maximum, as in `3s / 120s`.
pub open spec fn running_readout_text(elapsed_millis: int, max_millis: int) -> Seq<char> {
    crate::time::decimal_digits(elapsed_millis / 1000) + "s / "@ + seconds_display(max_millis)
        + "s"@
}

/// The readout text a fresh session starts with. The missing space
/// before the slash is the display format this library has always had;
/// it is kept as it stands.
pub open spec fn initial_readout_text(max_millis: int) -> Seq<char> {
    "0s /"@ + seconds_display(max_millis) + "s"@
}

/// Replacing the level title: whatever stood before, exactly the new
/// asset is displayed afterwards.
pub open spec fn place_title(previous: Option<Seq<char>>, asset: Seq<char>) -> Option<Seq<char>> {
    Some(asset)
}

/// The game world as the session mechanics see it.
pub struct GameWorld {
    pub screen: ScreenDimensions,
    pub cameras: Vec<Camera>,
    pub timer_readout: Option<TimerComponent>,
    pub level_title: Option<LevelTitle>,
    pub high_scores: HighScores,
}

impl GameWorld {
    /// The world's invariant: the high-score store is well formed.
    pub open spec fn wf(&self) -> bool {
        self.high_scores.wf()
    }

    /// A fresh world for the given viewport: no cameras, no readout, no
    /// title, no recorded scores.
    pub fn new(screen: ScreenDimensions) -> (world: GameWorld)
        ensures
            world.wf(),
            world.screen == screen,
            world.cameras@ =~= Seq::<Camera>::empty(),
            world.timer_readout is None,
            world.level_title is None,
            world.high_scores@ == Map::<Seq<char>, u64>::empty(),
    {
        GameWorld {
            screen,
            cameras: Vec::new(),
            timer_readout: None,
            level_title: None,
            high_scores: HighScores::new(),
        }
    }
}

/// Creates one more camera covering the current viewport. Repeated calls
/// add further cameras; calling this once per state entry is the
/// caller's responsibility.
pub fn init_camera(world: &mut GameWorld)
    ensures
        final(world).cameras@ == old(world).cameras@.push(
            Camera { width: old(world).screen.width, height: old(world).screen.height },
        ),
        final(world).screen == old(world).screen,
        final(world).timer_readout == old(world).timer_readout,
        final(world).level_title == old(world).level_title,
        final(world).high_scores == old(world).high_scores,
{
    let camera = Camera { width: world.screen.width, height: world.screen.height };
    world.cameras.push(camera);
}

/// Creates the timer readout for a fresh session, displaying zero
/// elapsed seconds against `max_millis`. Any previous readout is
/// replaced, so at most one ever exists.
pub fn init_timer_text(world: &mut GameWorld, max_millis: u64)
    ensures
        readout_view(final(world).timer_readout) == Some(initial_readout_text(max_millis as int)),
        final(world).screen == old(world).screen,
        final(world).cameras == old(world).cameras,
        final(world).level_title == old(world).level_title,
        final(world).high_scores == old(world).high_scores,
{
    proof {
        reveal_strlit("0s /");
        reveal_strlit("s");
    }
    let mut text = String::new();
    text.append("0s /");
    let seconds = format_seconds(max_millis);
    text.append(seconds.as_str());
    text.append("s");
    proof {
        assert(text@ =~= initial_readout_text(max_millis as int));
    }
    world.timer_readout = Some(TimerComponent { text });
}

/// Builds the running readout text for `elapsed_millis` against
/// `max_millis`, as in `3s / 120s`.
pub fn running_readout_string(elapsed_millis: u64, max_millis: u64) -> (s: String)
    ensures
        s@ == running_readout_text(elapsed_millis as int, max_millis as int),
{
    proof {
        reveal_strlit("s / ");
        reveal_strlit("s");
    }
    let mut text = crate::time::u64_to_decimal(elapsed_millis / crate::time::MILLIS_PER_SECOND);
    text.append("s / ");
    let seconds = format_seconds(max_millis);
    text.append(seconds.as_str());
    text.append("s");
    proof {
        assert(text@ =~= running_readout_text(elapsed_millis as int, max_millis as int));
    }
    text
}

/// Displays the given visual asset as the level title. Any previous
/// title is removed first, so exactly one title exists afterwards.
pub fn init_level_title(world: &mut GameWorld, filename: &str)
    ensures
        title_view(final(world).level_title) == place_title(
            title_view(old(world).level_title),
            filename@,
        ),
        final(world).screen == old(world).screen,
        final(world).cameras == old(world).cameras,
        final(world).timer_readout == old(world).timer_readout,
        final(world).high_scores == old(world).high_scores,
{
    world.level_title = None;
    world.level_title = Some(LevelTitle { sprite: filename.to_owned() });
}

/// Replacing the title twice leaves exactly what the second call placed,
/// whatever stood before either call.
pub proof fn lemma_title_replacement_idempotent(
    previous: Option<Seq<char>>,
    first_asset: Seq<char>,
    second_asset: Seq<char>,
)
    ensures
        place_title(place_title(previous, first_asset), second_asset) == place_title(
            previous,
            second_asset,
        ),
        place_title(place_title(previous, first_asset), second_asset) == Some(second_asset),
{
}

} // verus!
