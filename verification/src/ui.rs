//! Decisions of the interactive player: mode cycling, the focus ring over
//! the mute and solo buttons, what each key does, and the playback clock.

use vstd::prelude::*;

use crate::mix::{stem_output, MixerConfig, Stem, StemOutput};
use crate::text::format_clock;

verus! {

/// The mute or solo button of a stem (0 voice, 1 square, 2 triangle,
/// 3 noise, 4 sfx) that has the keyboard focus.
#[derive(Debug, Clone, Copy, PartialEq, Eq)]
pub enum FocusedButton {
    Muted(u8),
    Solo(u8),
}

/// The stem a button belongs to.
pub open spec fn button_stem(b: FocusedButton) -> u8 {
    match b {
        FocusedButton::Muted(s) => s,
        FocusedButton::Solo(s) => s,
    }
}

/// The button after `b` in the focus ring: a stem's mute, then its solo,
/// then the next stem's mute, back to the first after the fifth stem.
pub open spec fn spec_next_button(b: FocusedButton) -> FocusedButton {
    match b {
        FocusedButton::Muted(s) => FocusedButton::Solo(s),
        FocusedButton::Solo(s) => if s == 4 {
            FocusedButton::Muted(0)
        } else {
            FocusedButton::Muted((s + 1) as u8)
        },
    }
}

/// The button before `b` in the focus ring.
pub open spec fn spec_prev_button(b: FocusedButton) -> FocusedButton {
    match b {
        FocusedButton::Solo(s) => FocusedButton::Muted(s),
        FocusedButton::Muted(s) => if s == 0 {
            FocusedButton::Solo(4)
        } else {
            FocusedButton::Solo((s - 1) as u8)
        },
    }
}

impl FocusedButton {
    /// The next button in the focus ring.
    pub fn next(self) -> (r: Self)
        requires
            !(self matches FocusedButton::Solo(s) && s == 255),
        ensures
            r == spec_next_button(self),
    {
        match self {
            FocusedButton::Muted(s) => FocusedButton::Solo(s),
            FocusedButton::Solo(s) => if s == 4 {
                FocusedButton::Muted(0)
            } else {
                FocusedButton::Muted(s + 1)
            },
        }
    }

    /// The previous button in the focus ring.
    pub fn prev(self) -> (r: Self)
        ensures
            r == spec_prev_button(self),
    {
        match self {
            FocusedButton::Solo(s) => FocusedButton::Muted(s),
            FocusedButton::Muted(s) => if s == 0 {
                FocusedButton::Solo(4)
            } else {
                FocusedButton::Solo(s - 1)
            },
        }
    }
}

/// Within the five stems, going forward then back, or back then forward,
/// lands on the button one started from, and never leaves the five stems.
pub proof fn lemma_focus_ring(b: FocusedButton)
    requires
        button_stem(b) <= 4,
    ensures
        spec_prev_button(spec_next_button(b)) == b,
        spec_next_button(spec_prev_button(b)) == b,
        button_stem(spec_next_button(b)) <= 4,
        button_stem(spec_prev_button(b)) <= 4,
{
}

/// The mixer after pressing button `b`: its mute or solo switch flipped.
pub open spec fn toggled<V>(c: MixerConfig<V>, b: FocusedButton) -> MixerConfig<V> {
    match b {
        FocusedButton::Muted(0) => MixerConfig {
            voice_output: StemOutput { muted: !c.voice_output.muted, ..c.voice_output },
            ..c
        },
        FocusedButton::Muted(1) => MixerConfig {
            square_output: StemOutput { muted: !c.square_output.muted, ..c.square_output },
            ..c
        },
        FocusedButton::Muted(2) => MixerConfig {
            triangle_output: StemOutput { muted: !c.triangle_output.muted, ..c.triangle_output },
            ..c
        },
        FocusedButton::Muted(3) => MixerConfig {
            noise_output: StemOutput { muted: !c.noise_output.muted, ..c.noise_output },
            ..c
        },
        FocusedButton::Muted(4) => MixerConfig {
            sfx_output: StemOutput { muted: !c.sfx_output.muted, ..c.sfx_output },
            ..c
        },
        FocusedButton::Solo(0) => MixerConfig {
            voice_output: StemOutput { solo: !c.voice_output.solo, ..c.voice_output },
            ..c
        },
        FocusedButton::Solo(1) => MixerConfig {
            square_output: StemOutput { solo: !c.square_output.solo, ..c.square_output },
            ..c
        },
        FocusedButton::Solo(2) => MixerConfig {
            triangle_output: StemOutput { solo: !c.triangle_output.solo, ..c.triangle_output },
            ..c
        },
        FocusedButton::Solo(3) => MixerConfig {
            noise_output: StemOutput { solo: !c.noise_output.solo, ..c.noise_output },
            ..c
        },
        FocusedButton::Solo(4) => MixerConfig {
            sfx_output: StemOutput { solo: !c.sfx_output.solo, ..c.sfx_output },
            ..c
        },
        _ => c,
    }
}

/// Flip the switch of the focused button in the mixer configuration.
pub fn toggle_button<V: Copy>(config: &mut MixerConfig<V>, b: FocusedButton)
    ensures
        *final(config) == toggled(*old(config), b),
{
    match b {
        FocusedButton::Muted(0) => config.voice_output.muted = !config.voice_output.muted,
        FocusedButton::Muted(1) => config.square_output.muted = !config.square_output.muted,
        FocusedButton::Muted(2) => config.triangle_output.muted = !config.triangle_output.muted,
        FocusedButton::Muted(3) => config.noise_output.muted = !config.noise_output.muted,
        FocusedButton::Muted(4) => config.sfx_output.muted = !config.sfx_output.muted,
        FocusedButton::Solo(0) => config.voice_output.solo = !config.voice_output.solo,
        FocusedButton::Solo(1) => config.square_output.solo = !config.square_output.solo,
        FocusedButton::Solo(2) => config.triangle_output.solo = !config.triangle_output.solo,
        FocusedButton::Solo(3) => config.noise_output.solo = !config.noise_output.solo,
        FocusedButton::Solo(4) => config.sfx_output.solo = !config.sfx_output.solo,
        _ => {},
    }
}

/// Pressing the same button twice leaves the mixer as it was.
pub proof fn lemma_toggle_twice<V>(c: MixerConfig<V>, b: FocusedButton)
    ensures
        toggled(toggled(c, b), b) == c,
{
}

/// `k` is the first place in `modes` where `name` stands and another mode follows.
pub open spec fn first_with_next(modes: Seq<Seq<char>>, name: Seq<char>, k: int) -> bool {
    &&& 0 <= k < modes.len() - 1
    &&& modes[k] == name
    &&& forall|j: int| 0 <= j < k ==> #[trigger] modes[j] != name
}

/// `name` stands somewhere in `modes` before the last place.
pub open spec fn stands_before_last(modes: Seq<Seq<char>>, name: Seq<char>) -> bool {
    exists|k: int| 0 <= k < modes.len() - 1 && modes[k] == name
}

/// The mode after `mode` in `modes`: the one following its first place
/// (that is not the last), else the first mode.
pub open spec fn spec_next_mode(modes: Seq<Seq<char>>, mode: Seq<char>) -> Seq<char> {
    if stands_before_last(modes, mode) {
        let k = choose|k: int| first_with_next(modes, mode, k);
        modes[k + 1]
    } else {
        modes[0]
    }
}

/// `k` is the first place after the first one where `name` stands.
pub open spec fn first_with_prev(modes: Seq<Seq<char>>, name: Seq<char>, k: int) -> bool {
    &&& 0 < k < modes.len()
    &&& modes[k] == name
    &&& forall|j: int| 0 < j < k ==> #[trigger] modes[j] != name
}

/// `name` stands somewhere in `modes` after the first place.
pub open spec fn stands_after_first(modes: Seq<Seq<char>>, name: Seq<char>) -> bool {
    exists|k: int| 0 < k < modes.len() && modes[k] == name
}

/// The mode before `mode` in `modes`: the one preceding its first place
/// after the first, else the last mode (`mode` itself when there is none).
pub open spec fn spec_prev_mode(modes: Seq<Seq<char>>, mode: Seq<char>) -> Seq<char> {
    if stands_after_first(modes, mode) {
        let k = choose|k: int| first_with_prev(modes, mode, k);
        modes[k - 1]
    } else if modes.len() > 0 {
        modes.last()
    } else {
        mode
    }
}

/// The first place is unique.
proof fn lemma_first_with_next_unique(modes: Seq<Seq<char>>, name: Seq<char>, a: int, b: int)
    requires
        first_with_next(modes, name, a),
        first_with_next(modes, name, b),
    ensures
        a == b,
{
    if a < b {
        assert(modes[a] != name);
    } else if b < a {
        assert(modes[b] != name);
    }
}

/// The first place is unique.
proof fn lemma_first_with_prev_unique(modes: Seq<Seq<char>>, name: Seq<char>, a: int, b: int)
    requires
        first_with_prev(modes, name, a),
        first_with_prev(modes, name, b),
    ensures
        a == b,
{
    if a < b {
        assert(modes[a] != name);
    } else if b < a {
        assert(modes[b] != name);
    }
}

/// The mode that follows `mode` in the list, wrapping to the first.
pub fn next_mode(modes: &[String], mode: &String) -> (r: String)
    requires
        modes@.len() > 0,
    ensures
        r@ == spec_next_mode(crate::text::string_views(modes@), mode@),
{
    let ghost names = crate::text::string_views(modes@);
    let mut i: usize = 0;
    while i < modes.len()
        invariant
            names == crate::text::string_views(modes@),
            names.len() == modes@.len(),
            0 <= i <= modes@.len(),
            forall|j: int| 0 <= j < i && j < modes@.len() - 1 ==> #[trigger] names[j] != mode@,
        decreases modes@.len() - i,
    {
        if modes[i] == *mode && i + 1 < modes.len() {
            proof {
                assert(names[i as int] == modes@[i as int]@);
                assert(first_with_next(names, mode@, i as int));
                let k = choose|k: int| first_with_next(names, mode@, k);
                lemma_first_with_next_unique(names, mode@, i as int, k);
            }
            return modes[i + 1].clone();
        }
        proof {
            assert(names[i as int] == modes@[i as int]@);
        }
        i += 1;
    }
    proof {
        assert(!stands_before_last(names, mode@));
    }
    modes[0].clone()
}

/// The mode that precedes `mode` in the list, wrapping to the last.
pub fn prev_mode(modes: &[String], mode: &String) -> (r: String)
    ensures
        r@ == spec_prev_mode(crate::text::string_views(modes@), mode@),
{
    let ghost names = crate::text::string_views(modes@);
    let mut i: usize = 0;
    while i < modes.len()
        invariant
            names == crate::text::string_views(modes@),
            names.len() == modes@.len(),
            0 <= i <= modes@.len(),
            forall|j: int| 0 < j < i ==> #[trigger] names[j] != mode@,
        decreases modes@.len() - i,
    {
        if modes[i] == *mode && i > 0 {
            proof {
                assert(names[i as int] == modes@[i as int]@);
                assert(first_with_prev(names, mode@, i as int));
                let k = choose|k: int| first_with_prev(names, mode@, k);
                lemma_first_with_prev_unique(names, mode@, i as int, k);
            }
            return modes[i - 1].clone();
        }
        proof {
            assert(names[i as int] == modes@[i as int]@);
        }
        i += 1;
    }
    proof {
        assert(!stands_after_first(names, mode@));
    }
    if modes.len() > 0 {
        modes[modes.len() - 1].clone()
    } else {
        mode.clone()
    }
}

/// No name stands twice in the list.
pub open spec fn distinct_names(modes: Seq<Seq<char>>) -> bool {
    forall|i: int, j: int| 0 <= i < j < modes.len() ==> modes[i] != modes[j]
}

/// In a list of distinct mode names, the next mode is the following entry
/// and the previous mode the one before, both wrapping round the list;
/// stepping to the next mode and back returns to the mode one started from,
/// and so does stepping back then forward.
pub proof fn lemma_mode_cycle(modes: Seq<Seq<char>>, k: int)
    requires
        distinct_names(modes),
        0 <= k < modes.len(),
    ensures
        spec_next_mode(modes, modes[k]) == modes[(k + 1) % (modes.len() as int)],
        spec_prev_mode(modes, modes[k]) == modes[(k + modes.len() - 1) % (modes.len() as int)],
        spec_prev_mode(modes, spec_next_mode(modes, modes[k])) == modes[k],
        spec_next_mode(modes, spec_prev_mode(modes, modes[k])) == modes[k],
{
    let n = modes.len();
    let name = modes[k];
    // forward
    if k < n - 1 {
        assert(first_with_next(modes, name, k));
        let k2 = choose|k2: int| first_with_next(modes, name, k2);
        lemma_first_with_next_unique(modes, name, k, k2);
        assert(spec_next_mode(modes, name) == modes[k + 1]);
        let nm = modes[k + 1];
        assert(first_with_prev(modes, nm, k + 1));
        let k3 = choose|k3: int| first_with_prev(modes, nm, k3);
        lemma_first_with_prev_unique(modes, nm, k + 1, k3);
        assert((k + 1) % (n as int) == k + 1) by (nonlinear_arith)
            requires
                0 <= k + 1 < n,
        ;
    } else {
        assert(!stands_before_last(modes, name));
        assert(spec_next_mode(modes, name) == modes[0]);
        assert((k + 1) % (n as int) == 0) by (nonlinear_arith)
            requires
                k + 1 == n,
                n > 0,
        ;
        assert(!stands_after_first(modes, modes[0]));
    }
    // backward
    if k > 0 {
        assert(first_with_prev(modes, name, k));
        let k2 = choose|k2: int| first_with_prev(modes, name, k2);
        lemma_first_with_prev_unique(modes, name, k, k2);
        assert(spec_prev_mode(modes, name) == modes[k - 1]);
        let pm = modes[k - 1];
        assert(first_with_next(modes, pm, k - 1));
        let k3 = choose|k3: int| first_with_next(modes, pm, k3);
        lemma_first_with_next_unique(modes, pm, k - 1, k3);
        assert((k + n - 1) % (n as int) == k - 1) by (nonlinear_arith)
            requires
                0 < k < n,
        ;
    } else {
        assert(!stands_after_first(modes, name));
        assert(spec_prev_mode(modes, name) == modes[n - 1]);
        assert((k + n - 1) % (n as int) == n - 1) by (nonlinear_arith)
            requires
                k == 0,
                n > 0,
        ;
        if n > 1 {
            assert(!stands_before_last(modes, modes[n - 1]));
        } else {
            assert(!stands_before_last(modes, modes[n - 1]));
        }
    }
}

/// A key press the player reacts to.
#[derive(Debug, Clone, Copy, PartialEq, Eq)]
pub enum PlayerKey {
    /// `q` or Esc.
    Quit,
    Tab,
    BackTab,
    Space,
    Enter,
    /// `m`.
    NextMode,
    /// `M`.
    PrevMode,
    /// `a`.
    Autoplay,
    /// Any other key.
    Other,
}

/// What the player remembers between key presses.
#[derive(Debug, Clone, Copy, PartialEq, Eq)]
pub struct PlayerState {
    pub focused: Option<FocusedButton>,
    pub autoplay: bool,
}

/// The entry the file explorer has selected: whether it is a file, and
/// whether it is the file playing.
#[derive(Debug, Clone, Copy, PartialEq, Eq)]
pub struct Selection {
    pub is_file: bool,
    pub is_playing: bool,
}

/// What the player does about a key press.
#[derive(Debug, Clone, Copy, PartialEq, Eq)]
pub enum PlayerAction {
    /// Leave the player.
    Quit,
    /// The focus moved; redraw.
    Refocus,
    /// Flip this button's switch and send the mixer to the audio worker.
    Toggle(FocusedButton),
    /// Pause or resume the file playing.
    TogglePause,
    /// Stop what plays and play the selected file.
    Play,
    /// Select the next mode (restarting the file playing, if any).
    NextMode,
    /// Select the previous mode (restarting the file playing, if any).
    PrevMode,
    /// Autoplay was switched; redraw.
    ToggleAutoplay,
    /// Hand the key to the file explorer.
    Explorer,
}

/// The player's answer to a key: its new state and what to do.
pub open spec fn player_step(state: PlayerState, key: PlayerKey, sel: Selection) -> (
    PlayerState,
    PlayerAction,
) {
    match key {
        PlayerKey::Quit => match state.focused {
            None => (state, PlayerAction::Quit),
            Some(_) => (PlayerState { focused: None, ..state }, PlayerAction::Refocus),
        },
        PlayerKey::Tab => {
            let b = match state.focused {
                None => FocusedButton::Muted(0),
                Some(b) => spec_next_button(b),
            };
            (PlayerState { focused: Some(b), ..state }, PlayerAction::Refocus)
        },
        PlayerKey::BackTab => {
            let b = match state.focused {
                None => FocusedButton::Solo(4),
                Some(b) => spec_prev_button(b),
            };
            (PlayerState { focused: Some(b), ..state }, PlayerAction::Refocus)
        },
        PlayerKey::Space => match state.focused {
            Some(b) => (state, PlayerAction::Toggle(b)),
            None => (state, PlayerAction::Explorer),
        },
        PlayerKey::Enter => if !sel.is_file {
            (state, PlayerAction::Explorer)
        } else if sel.is_playing {
            (state, PlayerAction::TogglePause)
        } else {
            (state, PlayerAction::Play)
        },
        PlayerKey::NextMode => (state, PlayerAction::NextMode),
        PlayerKey::PrevMode => (state, PlayerAction::PrevMode),
        PlayerKey::Autoplay => if state.focused is None {
            (PlayerState { autoplay: !state.autoplay, ..state }, PlayerAction::ToggleAutoplay)
        } else {
            (state, PlayerAction::Explorer)
        },
        PlayerKey::Other => (state, PlayerAction::Explorer),
    }
}

/// Decide what a key press does: `q`/Esc leaves the player or, with a
/// button focused, drops the focus; Tab and BackTab move the focus round the
/// mute and solo buttons; Space flips the focused button; Enter plays the
/// selected file or pauses and resumes it when it is the one playing; `m`
/// and `M` change the mode; `a` switches autoplay; every other key goes to
/// the file explorer.
pub fn handle_key(state: PlayerState, key: PlayerKey, selection: Selection) -> (r: (
    PlayerState,
    PlayerAction,
))
    requires
        state.focused != Some(FocusedButton::Solo(255)),
    ensures
        r == player_step(state, key, selection),
{
    match key {
        PlayerKey::Quit => match state.focused {
            None => (state, PlayerAction::Quit),
            Some(_) => (PlayerState { focused: None, ..state }, PlayerAction::Refocus),
        },
        PlayerKey::Tab => {
            let b = match state.focused {
                None => FocusedButton::Muted(0),
                Some(b) => b.next(),
            };
            (PlayerState { focused: Some(b), ..state }, PlayerAction::Refocus)
        },
        PlayerKey::BackTab => {
            let b = match state.focused {
                None => FocusedButton::Solo(4),
                Some(b) => b.prev(),
            };
            (PlayerState { focused: Some(b), ..state }, PlayerAction::Refocus)
        },
        PlayerKey::Space => match state.focused {
            Some(b) => (state, PlayerAction::Toggle(b)),
            None => (state, PlayerAction::Explorer),
        },
        PlayerKey::Enter => if !selection.is_file {
            (state, PlayerAction::Explorer)
        } else if selection.is_playing {
            (state, PlayerAction::TogglePause)
        } else {
            (state, PlayerAction::Play)
        },
        PlayerKey::NextMode => (state, PlayerAction::NextMode),
        PlayerKey::PrevMode => (state, PlayerAction::PrevMode),
        PlayerKey::Autoplay => if state.focused.is_none() {
            (PlayerState { autoplay: !state.autoplay, ..state }, PlayerAction::ToggleAutoplay)
        } else {
            (state, PlayerAction::Explorer)
        },
        PlayerKey::Other => (state, PlayerAction::Explorer),
    }
}

/// The player quits only from a key press with no button focused, and a
/// focused button is never lost to anything but `q`/Esc.
pub proof fn lemma_quit_needs_no_focus(state: PlayerState, key: PlayerKey, sel: Selection)
    ensures
        player_step(state, key, sel).1 == PlayerAction::Quit ==> state.focused is None,
        state.focused is Some && key != PlayerKey::Quit ==> player_step(state, key, sel).0.focused is Some,
{
}

/// Tab then BackTab puts the focus back on the button it was on.
pub proof fn lemma_tab_back_tab(state: PlayerState, b: FocusedButton, sel: Selection)
    requires
        state.focused == Some(b),
        button_stem(b) <= 4,
    ensures
        player_step(player_step(state, PlayerKey::Tab, sel).0, PlayerKey::BackTab, sel).0 == state,
{
    lemma_focus_ring(b);
}

/// After a track ends, the next file is played when autoplay is on and the
/// track ended without error.
pub fn autoplay_next(state: PlayerState, finished_ok: bool) -> (r: bool)
    ensures
        r == (state.autoplay && finished_ok),
{
    state.autoplay && finished_ok
}

/// Render a sample count as a `"m:ss"` playback clock (`"0:00"` without a rate).
pub fn format_playback_clock(samples: u64, sample_rate: u32) -> (r: String)
    ensures
        r@ == if sample_rate == 0 {
            crate::text::clock_text(0)
        } else {
            crate::text::clock_text((samples / (sample_rate as u64)) as nat)
        },
{
    if sample_rate == 0 {
        return format_clock(0);
    }
    let secs = samples / (sample_rate as u64);
    format_clock(secs)
}

} // verus!

verus! {

/// The stem whose buttons are the `k`-th pair: voice, square, triangle,
/// noise, effects.
pub open spec fn stem_of_button(k: u8) -> Stem {
    if k == 0 {
        Stem::Voice
    } else if k == 1 {
        Stem::Square
    } else if k == 2 {
        Stem::Triangle
    } else if k == 3 {
        Stem::Noise
    } else {
        Stem::Sfx
    }
}

/// Pressing a stem's mute button flips that stem's mute switch and nothing
/// else; pressing its solo button flips that stem's solo switch and nothing
/// else; the master and every other stem are left as they were.
pub proof fn lemma_toggle_flips_one_switch<V>(c: MixerConfig<V>, k: u8, s: Stem)
    requires
        k < 5,
    ensures
        ({
            let m = toggled(c, FocusedButton::Muted(k));
            let o = stem_output(c, s);
            &&& m.master_output == c.master_output
            &&& stem_output(m, s) == if s == stem_of_button(k) {
                StemOutput { volume: o.volume, muted: !o.muted, solo: o.solo }
            } else {
                o
            }
        }),
        ({
            let m = toggled(c, FocusedButton::Solo(k));
            let o = stem_output(c, s);
            &&& m.master_output == c.master_output
            &&& stem_output(m, s) == if s == stem_of_button(k) {
                StemOutput { volume: o.volume, muted: o.muted, solo: !o.solo }
            } else {
                o
            }
        }),
{
}

/// What each key does to the player: only Tab, BackTab and `q`/Esc move
/// the focus, and only `a` (with nothing focused) switches autoplay; Space
/// flips the focused button, or goes to the explorer when none is; Enter on
/// a file plays it, or pauses and resumes it when it is the file playing,
/// and on anything else goes to the explorer; `m` and `M` step the mode
/// forward and back; any other key goes to the explorer.
pub proof fn lemma_keys(state: PlayerState, key: PlayerKey, sel: Selection)
    ensures
        ({
            let (next, action) = player_step(state, key, sel);
            &&& key != PlayerKey::Tab && key != PlayerKey::BackTab && key != PlayerKey::Quit ==> next.focused
                == state.focused
            &&& next.autoplay != state.autoplay ==> key == PlayerKey::Autoplay && state.focused is None
            &&& key == PlayerKey::Space ==> action == (match state.focused {
                Some(b) => PlayerAction::Toggle(b),
                None => PlayerAction::Explorer,
            })
            &&& key == PlayerKey::Enter && sel.is_file && !sel.is_playing ==> action == PlayerAction::Play
            &&& key == PlayerKey::Enter && sel.is_file && sel.is_playing ==> action == PlayerAction::TogglePause
            &&& key == PlayerKey::Enter && !sel.is_file ==> action == PlayerAction::Explorer
            &&& key == PlayerKey::NextMode ==> action == PlayerAction::NextMode
            &&& key == PlayerKey::PrevMode ==> action == PlayerAction::PrevMode
            &&& key == PlayerKey::Other ==> action == PlayerAction::Explorer && next == state
            &&& key == PlayerKey::Tab && state.focused is None ==> next.focused == Some(FocusedButton::Muted(0))
            &&& key == PlayerKey::BackTab && state.focused is None ==> next.focused == Some(FocusedButton::Solo(4))
        }),
{
}

} // verus!
